//! The rules of the game: its settings, its colours, what the board shows,
//! and how a round is judged.

use crate::simon::i3blocks::{I3BlocksOutput, I3ClickEvent};
use crate::simon::menu::{ButtonItem, Menu, MenuAction, MenuItem, SelectItem, SelectItemOption};
use vstd::prelude::*;
use vstd::string::*;

verus! {

/// The milliseconds for which the empty board is shown before a turn.
pub const TURN_PAUSE_MS: u64 = 800;

/// The milliseconds for which a pressed button stays lit.
pub const PULSE_MS: u64 = 250;

/// The milliseconds of darkness between two colours of the sequence.
pub const OFF_PERIOD_MS: u64 = 100;

/// How many turns win a game.
#[derive(Debug, Clone, Copy, PartialEq, Eq, Structural)]
pub enum Turns {
    Eight,
    Fourteen,
    Twenty,
    ThirtyOne,
    Infinity,
}

impl Turns {
    /// The number of turns; without end, it is the largest number there is.
    pub open spec fn count(self) -> nat {
        match self {
            Turns::Eight => 8,
            Turns::Fourteen => 14,
            Turns::Twenty => 20,
            Turns::ThirtyOne => 31,
            Turns::Infinity => usize::MAX as nat,
        }
    }

    /// The number of turns.
    pub fn limit(self) -> (limit: usize)
        ensures
            limit == self.count(),
    {
        match self {
            Turns::Eight => 8,
            Turns::Fourteen => 14,
            Turns::Twenty => 20,
            Turns::ThirtyOne => 31,
            Turns::Infinity => usize::MAX,
        }
    }
}

impl SelectItemOption for Turns {
    open spec fn shown(&self) -> Seq<char> {
        match self {
            Turns::Eight => "8"@,
            Turns::Fourteen => "14"@,
            Turns::Twenty => "20"@,
            Turns::ThirtyOne => "31"@,
            Turns::Infinity => "\u{221e}"@,
        }
    }

    fn to_string(&self) -> (text: String) {
        match self {
            Turns::Eight => String::from_str("8"),
            Turns::Fourteen => String::from_str("14"),
            Turns::Twenty => String::from_str("20"),
            Turns::ThirtyOne => String::from_str("31"),
            Turns::Infinity => String::from_str("\u{221e}"),
        }
    }
}

impl SelectItemOption for bool {
    open spec fn shown(&self) -> Seq<char> {
        if *self {
            "Y"@
        } else {
            "N"@
        }
    }

    fn to_string(&self) -> (text: String) {
        if *self {
            String::from_str("Y")
        } else {
            String::from_str("N")
        }
    }
}

/// The step at which setting the game up failed.
#[derive(Debug, Clone, Copy, PartialEq, Eq, Structural)]
pub enum ConfigurationError {
    /// The command line does not hold exactly the program and one file.
    Args,
    /// The options file cannot be opened.
    ConfigFile,
    /// The options file cannot be understood.
    Parse,
    /// The log file cannot be opened.
    LogFile,
    /// The logger cannot be started.
    Logger,
}

impl ConfigurationError {
    /// The few letters that name the failure.
    pub open spec fn detail(self) -> Seq<char> {
        match self {
            ConfigurationError::Args => "# arg"@,
            ConfigurationError::ConfigFile => "cfg /"@,
            ConfigurationError::Parse => "parse"@,
            ConfigurationError::LogFile => "log /"@,
            ConfigurationError::Logger => "log"@,
        }
    }

    /// What the block shows for the failure: its name, in red.
    pub open spec fn text(self) -> Seq<char> {
        "<span foreground=\"#FF0000\">E: "@ + self.detail() + "</span>"@
    }

    /// The block that shows the failure.
    pub fn output(&self) -> (output: I3BlocksOutput)
        ensures
            output.full_text@ == self.text(),
    {
        let mut full_text = String::from_str("<span foreground=\"#FF0000\">E: ");
        full_text.append(
            match self {
                ConfigurationError::Args => "# arg",
                ConfigurationError::ConfigFile => "cfg /",
                ConfigurationError::Parse => "parse",
                ConfigurationError::LogFile => "log /",
                ConfigurationError::Logger => "log",
            },
        );
        full_text.append("</span>");
        I3BlocksOutput { full_text }
    }
}

/// The options of the game.
pub struct Configuration {
    /// Where the log is written.
    pub log_file_path: String,
}

impl Configuration {
    /// The options as the file gives them.
    pub fn new(log_file_path: String) -> (configuration: Configuration)
        ensures
            configuration.log_file_path@ == log_file_path@,
    {
        Configuration { log_file_path }
    }

    /// The options file that the command line names: the one argument after
    /// the program's name. Any other number of arguments is an error.
    pub fn file_argument(args: &[String]) -> (path: Result<String, ConfigurationError>)
        ensures
            match path {
                Ok(name) => args@.len() == 2 && name@ == args@[1]@,
                Err(error) => args@.len() != 2 && error == ConfigurationError::Args,
            },
    {
        if args.len() != 2 {
            return Err(ConfigurationError::Args);
        }
        Ok(args[1].clone())
    }
}

/// The colours of the four buttons, and none of them.
#[derive(Debug, Clone, Copy, PartialEq, Eq, Structural)]
pub enum Color {
    Green,
    Red,
    Blue,
    Yellow,
    /// No button at all.
    Off,
}

/// The colour of the button at `place`, counted from the left and from zero.
pub open spec fn color_at(place: int) -> Color {
    if place == 0 {
        Color::Green
    } else if place == 1 {
        Color::Red
    } else if place == 2 {
        Color::Blue
    } else if place == 3 {
        Color::Yellow
    } else {
        Color::Off
    }
}

/// `rand::Rng::gen_range` over `0..=3` on the thread's generator: a number
/// from zero to three, and no more is known of it.
#[verifier::external_body]
fn random_place() -> (place: i32)
    ensures
        0 <= place <= 3,
{
    rand::Rng::gen_range(&mut rand::thread_rng(), 0..=3)
}

/// The quotient of `a` by `b`, rounded towards zero.
pub open spec fn quotient(a: int, b: int) -> int {
    if b == 0 {
        0
    } else if a >= 0 && b > 0 {
        a / b
    } else if a >= 0 {
        -(a / (-b))
    } else if b > 0 {
        -((-a) / b)
    } else {
        (-a) / (-b)
    }
}

/// Divides, rounding towards zero.
pub fn divide(a: i32, b: i32) -> (q: i32)
    requires
        b != 0,
        !(a == i32::MIN && b == -1),
    ensures
        q == quotient(a as int, b as int),
{
    if b == 1 {
        return a;
    }
    if b == -1 {
        return -a;
    }
    let wide_a: i64 = a as i64;
    let wide_b: i64 = b as i64;
    let size_a: i64 = if wide_a >= 0 {
        wide_a
    } else {
        -wide_a
    };
    let size_b: i64 = if wide_b > 0 {
        wide_b
    } else {
        -wide_b
    };
    let size_q: i64 = size_a / size_b;
    assert(0 <= size_q <= 0x4000_0000) by (nonlinear_arith)
        requires
            size_q == size_a / size_b,
            0 <= size_a <= 0x8000_0000,
            size_b >= 2,
    ;
    if (wide_a >= 0) == (wide_b > 0) {
        size_q as i32
    } else {
        (-size_q) as i32
    }
}

impl Color {
    /// The colour's name in small letters.
    pub open spec fn name(self) -> Seq<char> {
        match self {
            Color::Green => "green"@,
            Color::Red => "red"@,
            Color::Blue => "blue"@,
            Color::Yellow => "yellow"@,
            Color::Off => "none"@,
        }
    }

    /// The colour's name in small letters.
    pub fn to_string(&self) -> (text: &'static str)
        ensures
            text@ == self.name(),
    {
        match self {
            Color::Green => "green",
            Color::Red => "red",
            Color::Blue => "blue",
            Color::Yellow => "yellow",
            Color::Off => "none",
        }
    }

    /// The colour of the button at `place`.
    pub fn from_place(place: i32) -> (color: Color)
        ensures
            color == color_at(place as int),
    {
        if place == 0 {
            Color::Green
        } else if place == 1 {
            Color::Red
        } else if place == 2 {
            Color::Blue
        } else if place == 3 {
            Color::Yellow
        } else {
            Color::Off
        }
    }

    /// One of the four colours, picked at random.
    pub fn random() -> (color: Color)
        ensures
            color != Color::Off,
    {
        Color::from_place(random_place())
    }

    /// The colour of the button under a click: the block is four buttons
    /// wide, each a quarter of the width. A click beside them is no colour.
    pub fn from_click(click: &I3ClickEvent) -> (color: Color)
        requires
            quotient(click.width as int, 4) != 0,
            !(click.relative_x == i32::MIN && quotient(click.width as int, 4) == -1),
        ensures
            color == color_at(
                quotient(click.relative_x as int, quotient(click.width as int, 4)),
            ),
    {
        let button_width: i32 = divide(click.width, 4);
        Color::from_place(divide(click.relative_x, button_width))
    }

    /// The colour code of the button of this colour, lit or not.
    pub open spec fn paint(self, lit: bool) -> Seq<char> {
        match self {
            Color::Green => if lit {
                "00FF00"@
            } else {
                "93C47D"@
            },
            Color::Red => if lit {
                "FF0000"@
            } else {
                "E06666"@
            },
            Color::Blue => if lit {
                "0000FF"@
            } else {
                "6FA8DE"@
            },
            Color::Yellow => if lit {
                "FF9900"@
            } else {
                "F6B26B"@
            },
            Color::Off => Seq::empty(),
        }
    }

    /// The colour code of the button of this colour, lit or not.
    pub fn paint_text(&self, lit: bool) -> (code: &'static str)
        ensures
            code@ == self.paint(lit),
    {
        let code: &'static str = match self {
            Color::Green => if lit {
                "00FF00"
            } else {
                "93C47D"
            },
            Color::Red => if lit {
                "FF0000"
            } else {
                "E06666"
            },
            Color::Blue => if lit {
                "0000FF"
            } else {
                "6FA8DE"
            },
            Color::Yellow => if lit {
                "FF9900"
            } else {
                "F6B26B"
            },
            Color::Off => {
                proof {
                    reveal_strlit("");
                }
                ""
            },
        };
        assert(code@ =~= self.paint(lit));
        code
    }
}

/// One button of the board while `lit` is the colour that is lit.
pub open spec fn button_text(button: Color, lit: Color) -> Seq<char> {
    "<span foreground=\"#"@ + button.paint(button == lit) + "\">\u{2588}\u{2588}</span>"@
}

/// The board while `lit` is lit: the green, the red, the blue and the yellow
/// button, side by side.
pub open spec fn board_text(lit: Color) -> Seq<char> {
    button_text(Color::Green, lit) + button_text(Color::Red, lit) + button_text(Color::Blue, lit)
        + button_text(Color::Yellow, lit)
}

/// Appends one button of the board.
fn push_button(out: &mut String, button: Color, lit: Color)
    ensures
        final(out)@ == old(out)@ + button_text(button, lit),
{
    out.append("<span foreground=\"#");
    out.append(button.paint_text(button == lit));
    out.append("\">\u{2588}\u{2588}</span>");
    assert(out@ =~= old(out)@ + button_text(button, lit));
}

/// The block that shows the board while `lit` is lit.
pub fn board(lit: &Color) -> (output: I3BlocksOutput)
    ensures
        output.full_text@ == board_text(*lit),
{
    let mut full_text = String::new();
    push_button(&mut full_text, Color::Green, *lit);
    push_button(&mut full_text, Color::Red, *lit);
    push_button(&mut full_text, Color::Blue, *lit);
    push_button(&mut full_text, Color::Yellow, *lit);
    assert(full_text@ =~= board_text(*lit));
    I3BlocksOutput { full_text }
}

/// The milliseconds for which each colour of a sequence of `len` colours is
/// shown: the longer the sequence, the faster it goes.
pub open spec fn on_period(len: nat) -> nat {
    if len <= 5 {
        420
    } else if len <= 13 {
        320
    } else if len <= 31 {
        220
    } else {
        170
    }
}

/// The names of the colours, with a blank between two of them.
pub open spec fn joined(colors: Seq<Color>) -> Seq<char>
    decreases colors.len(),
{
    if colors.len() == 0 {
        Seq::empty()
    } else if colors.len() == 1 {
        colors[0].name()
    } else {
        joined(colors.drop_last()) + " "@ + colors.last().name()
    }
}

/// How the game stands after a guess.
#[derive(Debug, Clone, Copy, PartialEq, Eq, Structural)]
pub enum Progress {
    /// The guess was right, and the sequence goes on.
    Guessing,
    /// The whole sequence was repeated: it grows by one colour.
    NextTurn,
    /// The whole sequence was repeated, and it was the last turn.
    Victory,
    /// The guess was wrong.
    Defeat,
}

/// The verdict on `guess` for the colour at `place` of `sequence`, in a
/// game of `limit` turns.
pub open spec fn judged(sequence: Seq<Color>, place: int, limit: nat, guess: Color) -> Progress {
    if guess != sequence[place] {
        Progress::Defeat
    } else if place + 1 < sequence.len() {
        Progress::Guessing
    } else if sequence.len() == limit {
        Progress::Victory
    } else {
        Progress::NextTurn
    }
}

/// An entry of the game's menu.
pub enum SimonItem {
    /// The button that starts a game.
    Start(ButtonItem),
    /// Whether the sequence is written to the log.
    Cheat(SelectItem<bool>),
    /// How many turns win.
    Rounds(SelectItem<Turns>),
}

impl MenuItem for SimonItem {
    open spec fn valid(&self) -> bool {
        match self {
            SimonItem::Start(item) => item.valid(),
            SimonItem::Cheat(item) => item.valid(),
            SimonItem::Rounds(item) => item.valid(),
        }
    }

    open spec fn text(&self) -> Seq<char> {
        match self {
            SimonItem::Start(item) => item.text(),
            SimonItem::Cheat(item) => item.text(),
            SimonItem::Rounds(item) => item.text(),
        }
    }

    open spec fn action(&self, button: i32) -> MenuAction {
        match self {
            SimonItem::Start(item) => item.action(button),
            SimonItem::Cheat(item) => item.action(button),
            SimonItem::Rounds(item) => item.action(button),
        }
    }

    open spec fn clicked(&self, button: i32) -> Self {
        match self {
            SimonItem::Start(item) => SimonItem::Start(item.clicked(button)),
            SimonItem::Cheat(item) => SimonItem::Cheat(item.clicked(button)),
            SimonItem::Rounds(item) => SimonItem::Rounds(item.clicked(button)),
        }
    }

    fn to_output(&mut self) -> (output: I3BlocksOutput) {
        match self {
            SimonItem::Start(item) => item.to_output(),
            SimonItem::Cheat(item) => item.to_output(),
            SimonItem::Rounds(item) => item.to_output(),
        }
    }

    fn handle_click(&mut self, click: &I3ClickEvent) -> (action: MenuAction) {
        match self {
            SimonItem::Start(item) => item.handle_click(click),
            SimonItem::Cheat(item) => item.handle_click(click),
            SimonItem::Rounds(item) => item.handle_click(click),
        }
    }
}

impl Progress {
    /// The line that ends a game, in words for the bar.
    pub open spec fn verdict(self) -> Option<Seq<char>> {
        match self {
            Progress::Victory => Some("{\"full_text\": \"Victory!\"}"@),
            Progress::Defeat => Some("{\"full_text\": \"Defeat!\"}"@),
            _ => None,
        }
    }

    /// The line to write where the guess ended the game.
    pub fn line(&self) -> (line: Option<&'static str>)
        ensures
            match line {
                Some(text) => self.verdict() == Some(text@),
                None => self.verdict() is None,
            },
    {
        match self {
            Progress::Victory => Some("{\"full_text\": \"Victory!\"}"),
            Progress::Defeat => Some("{\"full_text\": \"Defeat!\"}"),
            _ => None,
        }
    }
}

/// The game: the sequence to repeat, how far the player has come in it, and
/// the menu of settings.
pub struct Simon {
    sequence: Vec<Color>,
    position: usize,
    menu: Menu<SimonItem>,
}

impl Simon {
    /// The sequence of colours to repeat.
    pub closed spec fn colors(&self) -> Seq<Color> {
        self.sequence@
    }

    /// How many colours of the sequence the player has repeated.
    pub closed spec fn place(&self) -> nat {
        self.position as nat
    }

    /// The entries of the menu.
    pub closed spec fn entries(&self) -> Seq<SimonItem> {
        self.menu.items()
    }

    /// The place of the entry that the menu shows.
    pub closed spec fn shown(&self) -> nat {
        self.menu.position()
    }

    /// What holds of every game: its menu is the start button, the cheat
    /// setting and the turns setting, and the player is within the sequence.
    pub closed spec fn well_formed(&self) -> bool {
        &&& self.menu.well_formed()
        &&& self.menu.items().len() == 3
        &&& self.menu.items()[0] is Start
        &&& self.menu.items()[1] is Cheat
        &&& self.menu.items()[2] is Rounds
        &&& self.position <= self.sequence@.len()
    }

    /// In a well-formed game the menu has its three entries, in their
    /// order, and shows one of them.
    pub proof fn lemma_well_formed(&self)
        requires
            self.well_formed(),
        ensures
            self.entries().len() == 3,
            self.entries()[0] is Start,
            self.entries()[1] is Cheat,
            self.entries()[2] is Rounds,
            forall|i: int| 0 <= i < 3 ==> (#[trigger] self.entries()[i]).valid(),
            self.shown() < 3,
            self.place() <= self.colors().len(),
    {
        self.menu.lemma_well_formed();
    }

    /// Whether the menu says that the sequence is written to the log.
    pub open spec fn cheating(&self) -> bool {
        self.entries()[1]->Cheat_0.chosen()
    }

    /// The number of turns that the menu says.
    pub open spec fn turns_chosen(&self) -> Turns {
        self.entries()[2]->Rounds_0.chosen()
    }

    /// A game before its first round. The command line holds the program
    /// and the options file: with any other number of arguments the answer
    /// is the block that says so.
    pub fn new(args: &[String]) -> (game: Result<Simon, I3BlocksOutput>)
        ensures
            match game {
                Ok(simon) => {
                    &&& args@.len() == 2
                    &&& simon.well_formed()
                    &&& simon.colors() == Seq::<Color>::empty()
                    &&& simon.place() == 0
                    &&& simon.shown() == 0
                    &&& simon.entries().len() == 3
                    &&& simon.entries()[0] matches SimonItem::Start(start) && start.label@
                        == "Simon!"@
                    &&& simon.entries()[1] matches SimonItem::Cheat(cheat) && cheat.label@
                        == "Cheat"@ && cheat.options@ == seq![false, true] && cheat.index == 0
                    &&& simon.entries()[2] matches SimonItem::Rounds(rounds) && rounds.label@
                        == "Turns"@ && rounds.options@ == seq![
                        Turns::Eight,
                        Turns::Fourteen,
                        Turns::Twenty,
                        Turns::ThirtyOne,
                        Turns::Infinity,
                    ] && rounds.index == 0
                },
                Err(output) => args@.len() != 2 && output.full_text@
                    == ConfigurationError::Args.text(),
            },
    {
        if args.len() != 2 {
            return Err(ConfigurationError::Args.output());
        }
        let mut menu: Menu<SimonItem> = Menu::new();
        menu.add_menu_item(SimonItem::Start(ButtonItem { label: "Simon!" }));
        menu.add_menu_item(
            SimonItem::Cheat(SelectItem { label: "Cheat", options: vec![false, true], index: 0 }),
        );
        menu.add_menu_item(
            SimonItem::Rounds(
                SelectItem {
                    label: "Turns",
                    options: vec![
                        Turns::Eight,
                        Turns::Fourteen,
                        Turns::Twenty,
                        Turns::ThirtyOne,
                        Turns::Infinity,
                    ],
                    index: 0,
                },
            ),
        );
        Ok(Simon { sequence: Vec::new(), position: 0, menu })
    }

    /// Whether the sequence is written to the log.
    pub fn cheat(&self) -> (cheat: bool)
        requires
            self.well_formed(),
        ensures
            cheat == self.cheating(),
    {
        match self.menu.item(1) {
            SimonItem::Cheat(item) => item.value(),
            _ => false,
        }
    }

    /// The number of turns that win a game.
    pub fn turns(&self) -> (turns: Turns)
        requires
            self.well_formed(),
        ensures
            turns == self.turns_chosen(),
    {
        match self.menu.item(2) {
            SimonItem::Rounds(item) => item.value(),
            _ => Turns::Eight,
        }
    }

    /// The block of the menu entry that is shown.
    pub fn show_menu(&mut self) -> (output: I3BlocksOutput)
        requires
            old(self).well_formed(),
        ensures
            final(self).well_formed(),
            output.full_text@ == old(self).entries()[old(self).shown() as int].text(),
            final(self).entries() == old(self).entries(),
            final(self).shown() == old(self).shown(),
            final(self).colors() == old(self).colors(),
            final(self).place() == old(self).place(),
    {
        self.menu.show()
    }

    /// Hands a click to the menu. `Exit` says that a game is to begin.
    pub fn click_menu(&mut self, click: &I3ClickEvent) -> (action: MenuAction)
        requires
            old(self).well_formed(),
        ensures
            final(self).well_formed(),
            action == old(self).entries()[old(self).shown() as int].action(click.button),
            final(self).entries() == old(self).entries().update(
                old(self).shown() as int,
                old(self).entries()[old(self).shown() as int].clicked(click.button),
            ),
            final(self).shown() == crate::simon::menu::moved(old(self).shown() as int, 3, action),
            final(self).colors() == old(self).colors(),
            final(self).place() == old(self).place(),
    {
        proof {
            self.menu.lemma_well_formed();
        }
        self.menu.click(click)
    }

    /// Begins a game: the sequence is empty again.
    pub fn start(&mut self)
        requires
            old(self).well_formed(),
        ensures
            final(self).well_formed(),
            final(self).colors() == Seq::<Color>::empty(),
            final(self).place() == 0,
            final(self).entries() == old(self).entries(),
            final(self).shown() == old(self).shown(),
    {
        self.sequence.clear();
        self.position = 0;
    }

    /// Begins a turn: the sequence grows by `color`, and the player starts
    /// at its beginning.
    pub fn extend(&mut self, color: Color)
        requires
            old(self).well_formed(),
        ensures
            final(self).well_formed(),
            final(self).colors() == old(self).colors().push(color),
            final(self).place() == 0,
            final(self).entries() == old(self).entries(),
            final(self).shown() == old(self).shown(),
    {
        self.sequence.push(color);
        self.position = 0;
    }

    /// Judges the player's next guess. After a right guess within the
    /// sequence the player stands one colour further; after any other the
    /// turn is over.
    pub fn guess(&mut self, color: Color) -> (progress: Progress)
        requires
            old(self).well_formed(),
            old(self).place() < old(self).colors().len(),
        ensures
            final(self).well_formed(),
            progress == judged(
                old(self).colors(),
                old(self).place() as int,
                old(self).turns_chosen().count(),
                color,
            ),
            final(self).place() == if progress == Progress::Guessing {
                old(self).place() + 1
            } else {
                old(self).colors().len()
            },
            final(self).colors() == old(self).colors(),
            final(self).entries() == old(self).entries(),
            final(self).shown() == old(self).shown(),
    {
        let len: usize = self.sequence.len();
        let limit: usize = self.turns().limit();
        let expected: Color = self.sequence[self.position];
        if color != expected {
            self.position = len;
            Progress::Defeat
        } else if self.position + 1 < len {
            self.position = self.position + 1;
            Progress::Guessing
        } else {
            self.position = len;
            if len == limit {
                Progress::Victory
            } else {
                Progress::NextTurn
            }
        }
    }

    /// The sequence of colours to repeat.
    pub fn sequence(&self) -> (sequence: &Vec<Color>)
        ensures
            sequence@ == self.colors(),
    {
        &self.sequence
    }

    /// The names of the colours of the sequence, for the log.
    pub fn sequence_text(&self) -> (text: String)
        ensures
            text@ == joined(self.colors()),
    {
        let mut text = String::new();
        let mut i: usize = 0;
        assert(self.sequence@.take(0) =~= Seq::<Color>::empty());
        while i < self.sequence.len()
            invariant
                i <= self.sequence@.len(),
                text@ == joined(self.sequence@.take(i as int)),
            decreases self.sequence@.len() - i,
        {
            proof {
                let after = self.sequence@.take(i + 1);
                assert(after.drop_last() =~= self.sequence@.take(i as int));
                assert(after.last() == self.sequence@[i as int]);
                if i == 0 {
                    assert(after[0] == self.sequence@[0]);
                }
            }
            if i > 0 {
                text.append(" ");
            }
            text.append(self.sequence[i].to_string());
            proof {
                if i == 0 {
                    assert(text@ =~= self.sequence@[0].name());
                }
            }
            i = i + 1;
        }
        assert(self.sequence@.take(self.sequence@.len() as int) =~= self.sequence@);
        text
    }

    /// The milliseconds for which each colour of the sequence is shown, or
    /// nothing where there is no sequence to show.
    pub fn on_period_ms(&self) -> (period: Option<u64>)
        ensures
            match period {
                Some(ms) => self.colors().len() > 0 && ms == on_period(self.colors().len()),
                None => self.colors().len() == 0,
            },
    {
        let len: usize = self.sequence.len();
        if len == 0 {
            None
        } else if len <= 5 {
            Some(420)
        } else if len <= 13 {
            Some(320)
        } else if len <= 31 {
            Some(220)
        } else {
            Some(170)
        }
    }
}

} // verus!
