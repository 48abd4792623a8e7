//! The weather block: its options, the addresses it asks, and the text it
//! shows. Asking the network and computing with temperatures is left to
//! the caller.

use crate::text::str_eq;
use vstd::prelude::*;
use vstd::string::*;

pub use crate::block::I3Block;

verus! {

/// Why the block has no weather to show.
#[derive(Debug, Clone, Copy, PartialEq, Eq, Structural)]
pub enum WeatherError {
    /// The command line does not hold exactly the program and one file.
    Args,
    /// The options file cannot be opened.
    ConfigFile,
    /// The options file cannot be understood.
    Parse,
    /// The log file cannot be opened.
    LogFile,
    /// The logger cannot be started.
    Logger,
    /// The network cannot be reached.
    Offline,
    /// Anything else: a temperature scale that does not exist, a service
    /// that does not answer or answers with a failure.
    Other,
}

impl WeatherError {
    /// The three lines that the block shows for the failure.
    pub open spec fn text(self) -> Seq<char> {
        match self {
            WeatherError::Args => "WTR Args error!\nWTR Args error!\n#FF000"@,
            WeatherError::ConfigFile => "WTR File error!\nWTR File error!\n#FF000"@,
            WeatherError::Parse => "WTR Parse error!\nWTR Parse error\n#FF0000"@,
            WeatherError::LogFile => "WTR File error!\nWTR File error!\n#FF0000"@,
            WeatherError::Logger => "WTR Logger error!\nWTR Logger error!\n#FF000"@,
            WeatherError::Offline => "WTR 404\nWTR F04\n#FFFFFF"@,
            WeatherError::Other => "WTR Error!\nWTR Error!\n#FF0000"@,
        }
    }

    /// The three lines that the block shows for the failure.
    pub fn message(&self) -> (text: String)
        ensures
            text@ == self.text(),
    {
        match self {
            WeatherError::Args => String::from_str("WTR Args error!\nWTR Args error!\n#FF000"),
            WeatherError::ConfigFile => String::from_str(
                "WTR File error!\nWTR File error!\n#FF000",
            ),
            WeatherError::Parse => String::from_str("WTR Parse error!\nWTR Parse error\n#FF0000"),
            WeatherError::LogFile => String::from_str("WTR File error!\nWTR File error!\n#FF0000"),
            WeatherError::Logger => String::from_str(
                "WTR Logger error!\nWTR Logger error!\n#FF000",
            ),
            WeatherError::Offline => String::from_str("WTR 404\nWTR F04\n#FFFFFF"),
            WeatherError::Other => String::from_str("WTR Error!\nWTR Error!\n#FF0000"),
        }
    }
}

/// The capital letter of a temperature scale, written in either case:
/// Fahrenheit, Celsius or Kelvin. Other letters name no scale.
pub open spec fn scale_of(letter: char) -> Option<char> {
    if letter == 'F' || letter == 'f' {
        Some('F')
    } else if letter == 'C' || letter == 'c' {
        Some('C')
    } else if letter == 'K' || letter == 'k' {
        Some('K')
    } else {
        None
    }
}

/// The options of the weather block.
pub struct Config {
    /// Whether the machine's address is written to the log.
    pub log_ip: bool,
    /// Whether the place found for the address is written to the log.
    pub log_geolocation: bool,
    /// Whether the weather report is written to the log.
    pub log_weather_report: bool,
    /// Whether the network is tried before anything is asked.
    pub check_connection: bool,
    /// Where the log is written.
    pub log_file_path: String,
    /// The key that the weather service wants.
    pub open_weather_api_key: String,
    /// The letter of the temperature scale.
    pub temperature_scale: char,
}

impl Config {
    /// The choice that stands for an absent option that is off by default.
    pub fn default_bool_false() -> (choice: bool)
        ensures
            !choice,
    {
        false
    }

    /// The choice that stands for an absent option that is on by default.
    pub fn default_bool_true() -> (choice: bool)
        ensures
            choice,
    {
        true
    }

    /// The scale that stands for an absent one: Fahrenheit.
    pub fn default_temperature_scale() -> (scale: char)
        ensures
            scale == 'F',
    {
        'F'
    }

    /// The options file that the command line names: the one argument after
    /// the program's name. Any other number of arguments is an error.
    pub fn file_argument(args: &[String]) -> (path: Result<String, WeatherError>)
        ensures
            match path {
                Ok(name) => args@.len() == 2 && name@ == args@[1]@,
                Err(error) => args@.len() != 2 && error == WeatherError::Args,
            },
    {
        if args.len() != 2 {
            return Err(WeatherError::Args);
        }
        Ok(args[1].clone())
    }

    /// The options as the file gives them, with what stands for the absent
    /// ones: nothing is logged, the network is tried, and temperatures are
    /// in Fahrenheit.
    pub fn new(
        log_ip: Option<bool>,
        log_geolocation: Option<bool>,
        log_weather_report: Option<bool>,
        check_connection: Option<bool>,
        log_file_path: String,
        open_weather_api_key: String,
        temperature_scale: Option<char>,
    ) -> (config: Config)
        ensures
            config.log_ip == (log_ip == Some(true)),
            config.log_geolocation == (log_geolocation == Some(true)),
            config.log_weather_report == (log_weather_report == Some(true)),
            config.check_connection == (check_connection != Some(false)),
            config.log_file_path@ == log_file_path@,
            config.open_weather_api_key@ == open_weather_api_key@,
            config.temperature_scale == match temperature_scale {
                Some(letter) => letter,
                None => 'F',
            },
    {
        Config {
            log_ip: match log_ip {
                Some(choice) => choice,
                None => Config::default_bool_false(),
            },
            log_geolocation: match log_geolocation {
                Some(choice) => choice,
                None => Config::default_bool_false(),
            },
            log_weather_report: match log_weather_report {
                Some(choice) => choice,
                None => Config::default_bool_false(),
            },
            check_connection: match check_connection {
                Some(choice) => choice,
                None => Config::default_bool_true(),
            },
            log_file_path,
            open_weather_api_key,
            temperature_scale: match temperature_scale {
                Some(letter) => letter,
                None => Config::default_temperature_scale(),
            },
        }
    }

    /// Checks the options once the log is open. `connected` says whether
    /// the network was reached; it counts only where the options ask for
    /// the network to be tried. The scale's letter is then made a capital
    /// letter, and must name a scale.
    pub fn checked(self, connected: bool) -> (config: Result<Config, WeatherError>)
        ensures
            match config {
                Ok(checked) => {
                    &&& !self.check_connection || connected
                    &&& scale_of(self.temperature_scale) == Some(checked.temperature_scale)
                    &&& checked.log_ip == self.log_ip
                    &&& checked.log_geolocation == self.log_geolocation
                    &&& checked.log_weather_report == self.log_weather_report
                    &&& checked.check_connection == self.check_connection
                    &&& checked.log_file_path == self.log_file_path
                    &&& checked.open_weather_api_key == self.open_weather_api_key
                },
                Err(error) => if self.check_connection && !connected {
                    error == WeatherError::Offline
                } else {
                    scale_of(self.temperature_scale) is None && error == WeatherError::Other
                },
            },
    {
        if self.check_connection && !connected {
            return Err(WeatherError::Offline);
        }
        let letter: char = self.temperature_scale;
        let scale: char = if letter == 'F' || letter == 'f' {
            'F'
        } else if letter == 'C' || letter == 'c' {
            'C'
        } else if letter == 'K' || letter == 'k' {
            'K'
        } else {
            return Err(WeatherError::Other);
        };
        Ok(
            Config {
                log_ip: self.log_ip,
                log_geolocation: self.log_geolocation,
                log_weather_report: self.log_weather_report,
                check_connection: self.check_connection,
                log_file_path: self.log_file_path,
                open_weather_api_key: self.open_weather_api_key,
                temperature_scale: scale,
            },
        )
    }
}

/// The address of one of the thirteen root servers of the domain name
/// system, as it is looked up.
pub open spec fn root_server(place: int) -> Seq<char> {
    if place == 0 {
        "a.root-servers.net:80"@
    } else if place == 1 {
        "b.root-servers.net:80"@
    } else if place == 2 {
        "c.root-servers.net:80"@
    } else if place == 3 {
        "d.root-servers.net:80"@
    } else if place == 4 {
        "e.root-servers.net:80"@
    } else if place == 5 {
        "f.root-servers.net:80"@
    } else if place == 6 {
        "g.root-servers.net:80"@
    } else if place == 7 {
        "h.root-servers.net:80"@
    } else if place == 8 {
        "i.root-servers.net:80"@
    } else if place == 9 {
        "j.root-servers.net:80"@
    } else if place == 10 {
        "k.root-servers.net:80"@
    } else if place == 11 {
        "l.root-servers.net:80"@
    } else {
        "m.root-servers.net:80"@
    }
}

/// The addresses to try, in order, to learn whether the network is there:
/// it is there as soon as one of them can be looked up.
pub fn root_servers() -> (addresses: Vec<&'static str>)
    ensures
        addresses@.len() == 13,
        forall|i: int| 0 <= i < 13 ==> (#[trigger] addresses@[i])@ == root_server(i),
{
    vec![
        "a.root-servers.net:80",
        "b.root-servers.net:80",
        "c.root-servers.net:80",
        "d.root-servers.net:80",
        "e.root-servers.net:80",
        "f.root-servers.net:80",
        "g.root-servers.net:80",
        "h.root-servers.net:80",
        "i.root-servers.net:80",
        "j.root-servers.net:80",
        "k.root-servers.net:80",
        "l.root-servers.net:80",
        "m.root-servers.net:80",
    ]
}

/// The machine's address as the world sees it.
pub struct IPv4(pub String);

/// The address that tells where `ip` is.
pub open spec fn geolocation_address(ip: Seq<char>) -> Seq<char> {
    "http://ip-api.com/json/"@ + ip + "?fields=status,message,lat,lon"@
}

/// The address that tells the weather at a place, asked with a key.
pub open spec fn weather_address(lat: Seq<char>, lon: Seq<char>, key: Seq<char>) -> Seq<char> {
    "https://api.openweathermap.org/data/2.5/weather?lat="@ + lat + "&lon="@ + lon + "&appid="@
        + key
}

impl IPv4 {
    /// The address that tells the machine's own address.
    pub open spec fn lookup_address() -> Seq<char> {
        "https://api.ipify.org"@
    }

    /// The address that tells the machine's own address.
    pub fn lookup_url() -> (url: &'static str)
        ensures
            url@ == IPv4::lookup_address(),
    {
        "https://api.ipify.org"
    }

    /// The address as the service answered it.
    pub fn new(answer: String) -> (ip: IPv4)
        ensures
            ip.0@ == answer@,
    {
        IPv4(answer)
    }

    /// The address in text.
    pub fn to_string(&self) -> (text: String)
        ensures
            text@ == self.0@,
    {
        self.0.clone()
    }

    /// The address that tells where this machine is.
    pub fn geolocation_url(&self) -> (url: String)
        ensures
            url@ == geolocation_address(self.0@),
    {
        let mut url = String::from_str("http://ip-api.com/json/");
        url.append(self.0.as_str());
        url.append("?fields=status,message,lat,lon");
        url
    }
}

/// Tells whether the answer of the place service is a failure.
pub fn lookup_failed(status: &str) -> (failed: bool)
    ensures
        failed == (status@ == "fail"@),
{
    str_eq(status, "fail")
}

/// The address that tells the weather at the place of the given latitude
/// and longitude, both in text.
pub fn weather_url(lat: &str, lon: &str, api_key: &str) -> (url: String)
    ensures
        url@ == weather_address(lat@, lon@, api_key@),
{
    let mut url = String::from_str("https://api.openweathermap.org/data/2.5/weather?lat=");
    url.append(lat);
    url.append("&lon=");
    url.append(lon);
    url.append("&appid=");
    url.append(api_key);
    url
}

/// One condition of the sky in a weather report.
pub struct OpenWeatherWeather {
    pub main: String,
}

/// `c`, or its small letter where `c` is an ASCII capital letter.
pub open spec fn ascii_lowered(c: char) -> char {
    if 0x41 <= c as u32 <= 0x5A {
        ((c as u32 + 0x20) as u32) as char
    } else {
        c
    }
}

/// `text` with its ASCII capital letters made small.
pub open spec fn lowered(text: Seq<char>) -> Seq<char> {
    text.map_values(|c: char| ascii_lowered(c))
}

/// `str::to_ascii_lowercase`: a copy in which the ASCII letters `A` to `Z`
/// are `a` to `z`, and every other character is as it was.
#[verifier::external_body]
fn to_lowercase(text: &str) -> (lower: String)
    ensures
        lower@ == lowered(text@),
{
    text.to_ascii_lowercase()
}

/// `String::from` on a character: the text of that one character.
#[verifier::external_body]
fn char_text(c: char) -> (text: String)
    ensures
        text@ == seq![c],
{
    String::from(c)
}

impl OpenWeatherWeather {
    /// The condition in small letters.
    pub fn description(&self) -> (text: String)
        ensures
            text@ == lowered(self.main@),
    {
        to_lowercase(self.main.as_str())
    }
}

/// The short text of a report: the temperature and the letter of its scale.
pub open spec fn report_short(temperature: Seq<char>, scale: char) -> Seq<char> {
    "WTR "@ + temperature + "\u{b0}"@ + seq![scale]
}

/// The three lines of a report: the short text followed by the condition
/// of the sky in small letters, the short text, and white.
pub open spec fn report_text(temperature: Seq<char>, scale: char, sky: Seq<char>) -> Seq<char> {
    report_short(temperature, scale) + ", "@ + lowered(sky) + "\n"@ + report_short(
        temperature,
        scale,
    ) + "\n"@ + "#FFFFFF"@
}

/// The three lines of a report, of a temperature already in text.
pub fn format_report(temperature: &str, scale: char, sky: &OpenWeatherWeather) -> (text: String)
    ensures
        text@ == report_text(temperature@, scale, sky.main@),
{
    let letter = char_text(scale);
    let mut short = String::from_str("WTR ");
    short.append(temperature);
    short.append("\u{b0}");
    short.append(letter.as_str());
    assert(short@ =~= report_short(temperature@, scale));
    let mut text = short.clone();
    text.append(", ");
    text.append(sky.description().as_str());
    text.append("\n");
    text.append(short.as_str());
    text.append("\n");
    text.append("#FFFFFF");
    assert(text@ =~= report_text(temperature@, scale, sky.main@));
    text
}

} // verus!
