use cloudbit::command::{parse_commands, same_text};
use cloudbit::LEDCommand;

const ALL: [LEDCommand; 12] = [
    LEDCommand::Red,
    LEDCommand::Green,
    LEDCommand::Blue,
    LEDCommand::Purple,
    LEDCommand::Violet,
    LEDCommand::Teal,
    LEDCommand::Yellow,
    LEDCommand::White,
    LEDCommand::Off,
    LEDCommand::Clownbarf,
    LEDCommand::Blink,
    LEDCommand::Hold,
];

#[test]
fn names_are_the_lowercase_tokens() {
    let names: Vec<&str> = ALL.iter().map(|c| c.name()).collect();
    assert_eq!(
        names,
        vec![
            "red",
            "green",
            "blue",
            "purple",
            "violet",
            "teal",
            "yellow",
            "white",
            "off",
            "clownbarf",
            "blink",
            "hold"
        ]
    );
}

#[test]
fn every_command_is_found_from_its_name() {
    for command in ALL {
        assert_eq!(LEDCommand::from_token(command.name()), Some(command));
        assert_eq!(LEDCommand::try_from(command.name().to_string()), Ok(command));
    }
}

#[test]
fn try_from_ignores_letter_case() {
    assert_eq!(LEDCommand::try_from("RED".to_string()), Ok(LEDCommand::Red));
    assert_eq!(LEDCommand::try_from("Violet".to_string()), Ok(LEDCommand::Violet));
    assert_eq!(LEDCommand::try_from("cLoWnBaRf".to_string()), Ok(LEDCommand::Clownbarf));
    assert_eq!(LEDCommand::try_from("HOLD".to_string()), Ok(LEDCommand::Hold));
}

#[test]
fn from_token_wants_lower_case() {
    assert_eq!(LEDCommand::from_token("RED"), None);
    assert_eq!(LEDCommand::from_token("red"), Some(LEDCommand::Red));
}

#[test]
fn unknown_text_is_unrecognised() {
    assert_eq!(LEDCommand::try_from("".to_string()), Err(()));
    assert_eq!(LEDCommand::try_from("orange".to_string()), Err(()));
    assert_eq!(LEDCommand::try_from("red ".to_string()), Err(()));
    assert_eq!(LEDCommand::try_from("reds".to_string()), Err(()));
    assert_eq!(LEDCommand::try_from("re".to_string()), Err(()));
    assert_eq!(LEDCommand::from_token("black"), None);
}

#[test]
fn directives_and_colours_are_told_apart() {
    for command in ALL {
        let expected = matches!(
            command,
            LEDCommand::Off | LEDCommand::Blink | LEDCommand::Hold
        );
        assert_eq!(command.directive(), expected);
    }
}

#[test]
fn same_text_compares_characters() {
    assert!(same_text("teal", "teal"));
    assert!(!same_text("teal", "tea"));
    assert!(!same_text("teal", "Teal"));
    assert!(same_text("", ""));
}

#[test]
fn commands_are_split_at_spaces_and_commas() {
    assert_eq!(
        parse_commands("green hold"),
        vec![LEDCommand::Green, LEDCommand::Hold]
    );
    assert_eq!(
        parse_commands("red,blink"),
        vec![LEDCommand::Red, LEDCommand::Blink]
    );
    assert_eq!(
        parse_commands("Teal, Blink"),
        vec![LEDCommand::Teal, LEDCommand::Blink]
    );
    assert_eq!(
        parse_commands("blue,,  ,off"),
        vec![LEDCommand::Blue, LEDCommand::Off]
    );
}

#[test]
fn pieces_that_name_nothing_are_passed_over() {
    assert_eq!(parse_commands(""), Vec::<LEDCommand>::new());
    assert_eq!(parse_commands(" , "), Vec::<LEDCommand>::new());
    assert_eq!(parse_commands("bogus"), Vec::<LEDCommand>::new());
    assert_eq!(parse_commands("bogus green nonsense"), vec![LEDCommand::Green]);
    assert_eq!(parse_commands("green;hold"), Vec::<LEDCommand>::new());
    assert_eq!(parse_commands("grün white"), vec![LEDCommand::White]);
}

#[test]
fn a_separator_splits_the_text_in_two() {
    let before = "red bogus";
    let after = "hold,green";
    let mut expected = parse_commands(before);
    expected.extend(parse_commands(after));
    assert_eq!(parse_commands(&format!("{before},{after}")), expected);
    assert_eq!(parse_commands(&format!("{before} {after}")), expected);
}
