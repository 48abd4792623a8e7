use blocklets::simon::game::{board, divide, ConfigurationError};
use blocklets::simon::menu::{ring_next, ring_previous};
use blocklets::simon::{
    ButtonItem, Color, Configuration, I3BlocksOutput, I3ClickEvent, Menu, MenuAction, MenuItem,
    Progress, SelectItem, SelectItemOption, Simon, Turns,
};

fn click(button: i32) -> I3ClickEvent {
    I3ClickEvent { name: String::from("simon"), button, relative_x: 0, width: 80 }
}

fn click_at(relative_x: i32, width: i32) -> I3ClickEvent {
    I3ClickEvent { name: String::from("simon"), button: 1, relative_x, width }
}

fn arguments(list: &[&str]) -> Vec<String> {
    list.iter().map(|a| String::from(*a)).collect()
}

fn new_game() -> Simon {
    Simon::new(&arguments(&["simon", "simon.yml"])).ok().unwrap()
}

#[test]
fn test_output_as_json() {
    let plain = I3BlocksOutput { full_text: String::from("Simon!") };
    assert_eq!(plain.to_json(), Some(String::from("{\"full_text\":\"Simon!\"}")));
    let quoted = I3BlocksOutput { full_text: String::from("<span foreground=\"#FF0000\">E</span>") };
    assert_eq!(
        quoted.to_json(),
        Some(String::from("{\"full_text\":\"<span foreground=\\\"#FF0000\\\">E</span>\"}"))
    );
    let parsed: serde_json::Value = serde_json::from_str(&quoted.to_json().unwrap()).unwrap();
    assert_eq!(parsed["full_text"].as_str(), Some(quoted.full_text.as_str()));
    assert_eq!(I3BlocksOutput::frame("\"x\""), "{\"full_text\":\"x\"}");
    assert_eq!(
        I3BlocksOutput::line_of(Ok(String::from("\"x\""))),
        Some(String::from("{\"full_text\":\"x\"}"))
    );
    let failure = serde_json::from_str::<i32>("x").unwrap_err();
    assert_eq!(I3BlocksOutput::line_of(Err(failure)), None);
}

#[test]
fn test_button_item() {
    let mut button = ButtonItem { label: "Simon!" };
    assert_eq!(button.to_output().full_text, "Simon!");
    assert_eq!(button.handle_click(&click(1)), MenuAction::Exit);
    assert_eq!(button.handle_click(&click(4)), MenuAction::NextItem);
    assert_eq!(button.handle_click(&click(5)), MenuAction::PreviousItem);
    assert_eq!(button.handle_click(&click(2)), MenuAction::Noop);
    assert_eq!(button.handle_click(&click(3)), MenuAction::Noop);
    assert_eq!(button.handle_click(&click(0)), MenuAction::Noop);
    assert_eq!(button.handle_click(&click(-1)), MenuAction::Noop);
    assert_eq!(button.label, "Simon!");
}

#[test]
fn test_select_item() {
    let mut select = SelectItem {
        label: "Turns",
        options: vec![Turns::Eight, Turns::Fourteen, Turns::Infinity],
        index: 0,
    };
    assert_eq!(select.to_output().full_text, "Turns 8");
    assert_eq!(select.handle_click(&click(1)), MenuAction::Noop);
    assert_eq!(select.index, 1);
    assert_eq!(select.value(), Turns::Fourteen);
    assert_eq!(select.to_output().full_text, "Turns 14");
    assert_eq!(select.handle_click(&click(1)), MenuAction::Noop);
    assert_eq!(select.to_output().full_text, "Turns \u{221e}");
    assert_eq!(select.handle_click(&click(1)), MenuAction::Noop);
    assert_eq!(select.index, 0);
    assert_eq!(select.handle_click(&click(3)), MenuAction::Noop);
    assert_eq!(select.index, 2);
    assert_eq!(select.handle_click(&click(3)), MenuAction::Noop);
    assert_eq!(select.index, 1);
    assert_eq!(select.handle_click(&click(4)), MenuAction::NextItem);
    assert_eq!(select.handle_click(&click(5)), MenuAction::PreviousItem);
    assert_eq!(select.handle_click(&click(2)), MenuAction::Noop);
    assert_eq!(select.index, 1);
    let mut single = SelectItem { label: "Cheat", options: vec![true], index: 0 };
    assert_eq!(single.handle_click(&click(1)), MenuAction::Noop);
    assert_eq!(single.index, 0);
    assert_eq!(single.handle_click(&click(3)), MenuAction::Noop);
    assert_eq!(single.index, 0);
    assert_eq!(single.to_output().full_text, "Cheat Y");
}

#[test]
fn test_ring() {
    assert_eq!(ring_next(0, 3), 1);
    assert_eq!(ring_next(1, 3), 2);
    assert_eq!(ring_next(2, 3), 0);
    assert_eq!(ring_next(0, 1), 0);
    assert_eq!(ring_previous(0, 3), 2);
    assert_eq!(ring_previous(2, 3), 1);
    assert_eq!(ring_previous(1, 3), 0);
    assert_eq!(ring_previous(0, 1), 0);
    assert_eq!(ring_next(usize::MAX - 1, usize::MAX), 0);
    for len in 1usize..6 {
        for index in 0..len {
            assert_eq!(ring_next(index, len), (index + 1).rem_euclid(len));
            assert_eq!(
                ring_previous(index, len),
                ((index as isize) - 1).rem_euclid(len as isize) as usize
            );
        }
    }
}

#[test]
fn test_options_as_text() {
    assert_eq!(SelectItemOption::to_string(&false), "N");
    assert_eq!(SelectItemOption::to_string(&true), "Y");
    assert_eq!(SelectItemOption::to_string(&Turns::Eight), "8");
    assert_eq!(SelectItemOption::to_string(&Turns::Fourteen), "14");
    assert_eq!(SelectItemOption::to_string(&Turns::Twenty), "20");
    assert_eq!(SelectItemOption::to_string(&Turns::ThirtyOne), "31");
    assert_eq!(SelectItemOption::to_string(&Turns::Infinity), "\u{221e}");
    assert_eq!(Turns::Eight.limit(), 8);
    assert_eq!(Turns::Fourteen.limit(), 14);
    assert_eq!(Turns::Twenty.limit(), 20);
    assert_eq!(Turns::ThirtyOne.limit(), 31);
    assert_eq!(Turns::Infinity.limit(), usize::MAX);
}

#[test]
fn test_menu_walks_in_a_ring() {
    let mut menu: Menu<ButtonItem> = Menu::new();
    assert_eq!(menu.len(), 0);
    assert_eq!(menu.index(), 0);
    menu.add_menu_item(ButtonItem { label: "one" });
    menu.add_menu_item(ButtonItem { label: "two" });
    menu.add_menu_item(ButtonItem { label: "three" });
    assert_eq!(menu.len(), 3);
    assert_eq!(menu.index(), 0);
    assert_eq!(menu.item(2).label, "three");
    assert_eq!(menu.show().full_text, "one");
    assert_eq!(menu.click(&click(4)), MenuAction::NextItem);
    assert_eq!(menu.show().full_text, "two");
    assert_eq!(menu.click(&click(2)), MenuAction::Noop);
    assert_eq!(menu.index(), 1);
    assert_eq!(menu.click(&click(4)), MenuAction::NextItem);
    assert_eq!(menu.click(&click(4)), MenuAction::NextItem);
    assert_eq!(menu.show().full_text, "one");
    assert_eq!(menu.click(&click(5)), MenuAction::PreviousItem);
    assert_eq!(menu.show().full_text, "three");
    assert_eq!(menu.click(&click(1)), MenuAction::Exit);
    assert_eq!(menu.index(), 2);
}

#[test]
fn test_configuration() {
    assert_eq!(Configuration::file_argument(&arguments(&["simon"])), Err(ConfigurationError::Args));
    assert_eq!(
        Configuration::file_argument(&arguments(&["simon", "a", "b"])),
        Err(ConfigurationError::Args)
    );
    assert_eq!(
        Configuration::file_argument(&arguments(&["simon", "simon.yml"])),
        Ok(String::from("simon.yml"))
    );
    assert_eq!(Configuration::new(String::from("/tmp/simon.log")).log_file_path, "/tmp/simon.log");
    let text = |error: ConfigurationError| error.output().full_text;
    assert_eq!(text(ConfigurationError::Args), "<span foreground=\"#FF0000\">E: # arg</span>");
    assert_eq!(text(ConfigurationError::ConfigFile), "<span foreground=\"#FF0000\">E: cfg /</span>");
    assert_eq!(text(ConfigurationError::Parse), "<span foreground=\"#FF0000\">E: parse</span>");
    assert_eq!(text(ConfigurationError::LogFile), "<span foreground=\"#FF0000\">E: log /</span>");
    assert_eq!(text(ConfigurationError::Logger), "<span foreground=\"#FF0000\">E: log</span>");
}

#[test]
fn test_new_game() {
    let refused = Simon::new(&arguments(&["simon"]));
    assert_eq!(
        refused.err().map(|output| output.full_text),
        Some(String::from("<span foreground=\"#FF0000\">E: # arg</span>"))
    );
    assert!(Simon::new(&arguments(&["simon", "a", "b"])).is_err());
    let mut simon = new_game();
    assert_eq!(simon.cheat(), false);
    assert_eq!(simon.turns(), Turns::Eight);
    assert_eq!(simon.sequence().len(), 0);
    assert_eq!(simon.on_period_ms(), None);
    assert_eq!(simon.show_menu().full_text, "Simon!");
    assert_eq!(simon.click_menu(&click(4)), MenuAction::NextItem);
    assert_eq!(simon.show_menu().full_text, "Cheat N");
    assert_eq!(simon.click_menu(&click(1)), MenuAction::Noop);
    assert_eq!(simon.show_menu().full_text, "Cheat Y");
    assert_eq!(simon.cheat(), true);
    assert_eq!(simon.click_menu(&click(4)), MenuAction::NextItem);
    assert_eq!(simon.show_menu().full_text, "Turns 8");
    assert_eq!(simon.click_menu(&click(3)), MenuAction::Noop);
    assert_eq!(simon.turns(), Turns::Infinity);
    assert_eq!(simon.click_menu(&click(1)), MenuAction::Noop);
    assert_eq!(simon.click_menu(&click(1)), MenuAction::Noop);
    assert_eq!(simon.turns(), Turns::Fourteen);
    assert_eq!(simon.show_menu().full_text, "Turns 14");
    assert_eq!(simon.click_menu(&click(4)), MenuAction::NextItem);
    assert_eq!(simon.show_menu().full_text, "Simon!");
    assert_eq!(simon.click_menu(&click(1)), MenuAction::Exit);
}

#[test]
fn test_game_is_judged() {
    let mut simon = new_game();
    let colors = [
        Color::Green,
        Color::Red,
        Color::Blue,
        Color::Yellow,
        Color::Green,
        Color::Green,
        Color::Yellow,
        Color::Red,
    ];
    simon.start();
    for turn in 0..8 {
        simon.extend(colors[turn]);
        assert_eq!(simon.sequence().len(), turn + 1);
        for place in 0..=turn {
            let progress = simon.guess(colors[place]);
            let expected = if place < turn {
                Progress::Guessing
            } else if turn == 7 {
                Progress::Victory
            } else {
                Progress::NextTurn
            };
            assert_eq!(progress, expected);
        }
    }
    assert_eq!(simon.sequence_text(), "green red blue yellow green green yellow red");
    // A wrong guess ends the game at once.
    simon.start();
    assert_eq!(simon.sequence().len(), 0);
    assert_eq!(simon.sequence_text(), "");
    simon.extend(Color::Blue);
    assert_eq!(simon.sequence_text(), "blue");
    assert_eq!(simon.guess(Color::Blue), Progress::NextTurn);
    simon.extend(Color::Red);
    assert_eq!(simon.guess(Color::Blue), Progress::Guessing);
    assert_eq!(simon.guess(Color::Off), Progress::Defeat);
    assert_eq!(Progress::Defeat.line(), Some("{\"full_text\": \"Defeat!\"}"));
    assert_eq!(Progress::Victory.line(), Some("{\"full_text\": \"Victory!\"}"));
    assert_eq!(Progress::Guessing.line(), None);
    assert_eq!(Progress::NextTurn.line(), None);
}

#[test]
fn test_sequence_speeds_up() {
    let mut simon = new_game();
    simon.start();
    let mut periods = Vec::new();
    for _ in 0..33 {
        simon.extend(Color::Green);
        periods.push(simon.on_period_ms().unwrap());
    }
    assert_eq!(periods[0], 420);
    assert_eq!(periods[4], 420);
    assert_eq!(periods[5], 320);
    assert_eq!(periods[12], 320);
    assert_eq!(periods[13], 220);
    assert_eq!(periods[30], 220);
    assert_eq!(periods[31], 170);
    assert_eq!(periods[32], 170);
}

#[test]
fn test_colors() {
    assert_eq!(Color::from_place(0), Color::Green);
    assert_eq!(Color::from_place(1), Color::Red);
    assert_eq!(Color::from_place(2), Color::Blue);
    assert_eq!(Color::from_place(3), Color::Yellow);
    assert_eq!(Color::from_place(4), Color::Off);
    assert_eq!(Color::from_place(-1), Color::Off);
    assert_eq!(Color::Green.to_string(), "green");
    assert_eq!(Color::Red.to_string(), "red");
    assert_eq!(Color::Blue.to_string(), "blue");
    assert_eq!(Color::Yellow.to_string(), "yellow");
    assert_eq!(Color::Off.to_string(), "none");
    let mut seen = [false; 4];
    for _ in 0..400 {
        match Color::random() {
            Color::Green => seen[0] = true,
            Color::Red => seen[1] = true,
            Color::Blue => seen[2] = true,
            Color::Yellow => seen[3] = true,
            Color::Off => panic!("no colour"),
        }
    }
    assert_eq!(seen, [true; 4]);
}

#[test]
fn test_pressed_button() {
    assert_eq!(Color::from_click(&click_at(0, 80)), Color::Green);
    assert_eq!(Color::from_click(&click_at(19, 80)), Color::Green);
    assert_eq!(Color::from_click(&click_at(20, 80)), Color::Red);
    assert_eq!(Color::from_click(&click_at(39, 80)), Color::Red);
    assert_eq!(Color::from_click(&click_at(40, 80)), Color::Blue);
    assert_eq!(Color::from_click(&click_at(60, 80)), Color::Yellow);
    assert_eq!(Color::from_click(&click_at(79, 80)), Color::Yellow);
    assert_eq!(Color::from_click(&click_at(80, 80)), Color::Off);
    assert_eq!(Color::from_click(&click_at(80, 83)), Color::Off);
    assert_eq!(Color::from_click(&click_at(-1, 80)), Color::Green);
    assert_eq!(Color::from_click(&click_at(-20, 80)), Color::Off);
    assert_eq!(Color::from_click(&click_at(-20, -80)), Color::Red);
    for a in [i32::MIN, -81, -80, -7, -1, 0, 1, 7, 80, 81, i32::MAX] {
        for b in [i32::MIN, -80, -3, -2, -1, 1, 2, 3, 80, i32::MAX] {
            if !(a == i32::MIN && b == -1) {
                assert_eq!(divide(a, b), a / b);
            }
        }
    }
}

#[test]
fn test_board() {
    let dark = "<span foreground=\"#93C47D\">\u{2588}\u{2588}</span>\
                <span foreground=\"#E06666\">\u{2588}\u{2588}</span>\
                <span foreground=\"#6FA8DE\">\u{2588}\u{2588}</span>\
                <span foreground=\"#F6B26B\">\u{2588}\u{2588}</span>";
    assert_eq!(board(&Color::Off).full_text, dark);
    assert_eq!(board(&Color::Green).full_text, dark.replace("93C47D", "00FF00"));
    assert_eq!(board(&Color::Red).full_text, dark.replace("E06666", "FF0000"));
    assert_eq!(board(&Color::Blue).full_text, dark.replace("6FA8DE", "0000FF"));
    assert_eq!(board(&Color::Yellow).full_text, dark.replace("F6B26B", "FF9900"));
}
