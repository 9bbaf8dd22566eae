use pokemon_counter::command::{command_for, parse_command, same_chars, Command, State};

fn arg(c: &Command) -> Option<String> {
    match c {
        Command::Add(a) | Command::Load(a) => a.clone(),
        _ => panic!("no argument in {:?}", c),
    }
}

#[test]
fn help_list_exit() {
    assert!(matches!(parse_command("help\r\n"), Command::Help));
    assert!(matches!(parse_command("list\r\n"), Command::List));
    assert!(matches!(parse_command("exit\r\n"), Command::Exit));
}

#[test]
fn command_word_is_case_insensitive() {
    assert!(matches!(parse_command("HELP\r\n"), Command::Help));
    assert!(matches!(parse_command("Exit"), Command::Exit));
    assert!(matches!(parse_command("LiSt extra words\r\n"), Command::List));
}

#[test]
fn add_and_load_take_the_second_word() {
    let c = parse_command("add Pikachu\r\n");
    assert!(matches!(c, Command::Add(_)));
    assert_eq!(arg(&c), Some("Pikachu".to_owned()));
    let c = parse_command("LOAD Ralts and more\r\n");
    assert!(matches!(c, Command::Load(_)));
    assert_eq!(arg(&c), Some("Ralts".to_owned()));
}

#[test]
fn add_without_name() {
    let c = parse_command("add\r\n");
    assert!(matches!(c, Command::Add(_)));
    assert_eq!(arg(&c), None);
}

#[test]
fn double_space_gives_empty_name() {
    let c = parse_command("load  Ralts\r\n");
    assert_eq!(arg(&c), Some(String::new()));
}

#[test]
fn empty_line_increments() {
    assert!(matches!(parse_command("\r\n"), Command::Increment));
    assert!(matches!(parse_command(""), Command::Increment));
    assert!(matches!(parse_command(" x"), Command::Increment));
}

#[test]
fn only_the_first_line_counts() {
    assert!(matches!(parse_command("exit\r\nhelp\r\n"), Command::Exit));
    let c = parse_command("add A\r\nB C");
    assert_eq!(arg(&c), Some("A".to_owned()));
}

#[test]
fn unknown_word_is_kept_as_written() {
    match parse_command("Hello world\r\n") {
        Command::Unknown(w) => assert_eq!(w, "Hello"),
        other => panic!("unexpected {:?}", other),
    }
    match parse_command("help\n") {
        Command::Unknown(w) => assert_eq!(w, "help\n"),
        other => panic!("unexpected {:?}", other),
    }
}

#[test]
fn command_for_maps_keywords() {
    assert!(matches!(command_for("help", "HeLp".to_owned(), None), Command::Help));
    assert!(matches!(command_for("", String::new(), None), Command::Increment));
    match command_for("add", "ADD".to_owned(), Some("Eevee".to_owned())) {
        Command::Add(a) => assert_eq!(a, Some("Eevee".to_owned())),
        other => panic!("unexpected {:?}", other),
    }
    match command_for("quit", "Quit".to_owned(), None) {
        Command::Unknown(w) => assert_eq!(w, "Quit"),
        other => panic!("unexpected {:?}", other),
    }
}

#[test]
fn same_chars_compares_characters() {
    assert!(same_chars("abc", "abc"));
    assert!(!same_chars("abc", "abd"));
    assert!(!same_chars("abc", "ab"));
    assert!(same_chars("", ""));
}

#[test]
fn states_compare() {
    assert_eq!(State::Load(3), State::Load(3));
    assert_ne!(State::Load(3), State::Cont);
    assert_ne!(State::Exit, State::Cont);
}
