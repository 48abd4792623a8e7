//! What the game writes to the status bar, and what the bar sends back.

use vstd::prelude::*;
use vstd::string::*;

verus! {

/// The milliseconds that the bar needs between two lines.
pub const IO_PAUSE_MS: u64 = 10;

#[verifier::external_type_specification]
#[verifier::external_body]
pub struct ExJsonError(serde_json::Error);

/// `text` as `serde_json` writes a string: between double quotes, with the
/// characters escaped that JSON wants escaped.
pub uninterp spec fn json_text(text: Seq<char>) -> Seq<char>;

/// `serde_json::to_string` on a string slice. Where it answers, the answer
/// is the JSON string of `text`; nothing is said of when it answers.
#[verifier::external_body]
fn encode_text(text: &str) -> (encoded: Result<String, serde_json::Error>)
    ensures
        encoded matches Ok(json) ==> json@ == json_text(text@),
{
    serde_json::to_string(text)
}

/// One block as the bar takes it.
#[derive(Debug)]
pub struct I3BlocksOutput {
    pub full_text: String,
}

/// A click as the bar reports it.
#[derive(Debug)]
pub struct I3ClickEvent {
    pub name: String,
    pub button: i32,
    pub relative_x: i32,
    pub width: i32,
}

/// The JSON object of a block whose text is already a JSON string.
pub open spec fn framed(encoded: Seq<char>) -> Seq<char> {
    "{\"full_text\":"@ + encoded + "}"@
}

impl I3BlocksOutput {
    /// Puts an encoded text into the JSON object of a block.
    pub fn frame(encoded: &str) -> (line: String)
        ensures
            line@ == framed(encoded@),
    {
        let mut line = String::from_str("{\"full_text\":");
        line.append(encoded);
        line.append("}");
        line
    }

    /// The line of a block whose text the encoder was asked for: the framed
    /// text where the encoder answered, nothing where it failed.
    pub fn line_of(encoded: Result<String, serde_json::Error>) -> (line: Option<String>)
        ensures
            match encoded {
                Ok(text) => line matches Some(json) && json@ == framed(text@),
                Err(_) => line is None,
            },
    {
        match encoded {
            Ok(text) => Some(I3BlocksOutput::frame(text.as_str())),
            Err(_) => None,
        }
    }

    /// The block as one line of JSON, or nothing where the text cannot be
    /// encoded.
    pub fn to_json(&self) -> (line: Option<String>)
        ensures
            line matches Some(json) ==> json@ == framed(json_text(self.full_text@)),
    {
        I3BlocksOutput::line_of(encode_text(self.full_text.as_str()))
    }
}

} // verus!
