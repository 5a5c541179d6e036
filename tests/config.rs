use rum_player::config::{parse_action_name, parse_event_name, Config, Error, TomlItem, UnknownEvent};
use rum_player::event::{Event, Key};
use rum_player::key::{Action, Context};

#[test]
fn parse_toml() {
    let sample_toml = r#"
[hotkey]
"PointerUp" = "ArrowUp"
"PointerDown" = "ArrowDown"
"NextTrack" = "+"
"PrevTrack" = "-"
"Forward5" = "Ctrl++"
"Backward5" = "Ctrl+-"

[hotkey.search]
"PointerUp" = "ArrowDown"
"PointerDown" = "ArrowUp"

[hotkey.tracklist]
"Select" = "Alt+0"
"#
    .to_string();

    // `Select` names no action, which refuses the whole configuration
    match sample_toml.parse_config() {
        Err(Error::IncorrectAction { value }) => assert_eq!(value, "Select"),
        other => panic!("unexpected {:?}", other),
    }
    let without_select = sample_toml.replace("\"Select\" = \"Alt+0\"\n", "");
    let config = without_select.parse_config().unwrap();
    println!("{:?}", config);
    let b = &config.binding;
    assert_eq!(b.action(Context::search(), &Event::Key(Key::Down)), Some(Action::PointerUp));
    assert_eq!(b.action(Context::playlist(), &Event::Key(Key::Down)), Some(Action::PointerDown));
    assert_eq!(b.action(Context::tracklist(), &Event::Key(Key::Char('+'))), Some(Action::NextTrack));
    assert_eq!(b.action(Context::tracklist(), &Event::Key(Key::Ctrl('+'))), Some(Action::Forward5));
    assert_eq!(b.action(Context::tracklist(), &Event::Key(Key::Ctrl('-'))), Some(Action::Backward5));
}

trait ParseConfig {
    fn parse_config(&self) -> Result<Config, Error>;
}

impl ParseConfig for String {
    fn parse_config(&self) -> Result<Config, Error> {
        Config::from_str(self)
    }
}

#[test]
fn scoped_binding_overrides_only_its_mode() {
    let text = "[hotkey]\n\"PointerUp\" = \"ArrowUp\"\n\n[hotkey.search]\n\"PointerUp\" = \"ArrowDown\"\n";
    let config = Config::from_str(text).unwrap();
    let b = &config.binding;
    assert_eq!(b.action(Context::search(), &Event::Key(Key::Down)), Some(Action::PointerUp));
    assert_eq!(b.action(Context::tracklist(), &Event::Key(Key::Down)), Some(Action::PointerDown));
    assert_eq!(b.action(Context::tracklist(), &Event::Key(Key::Up)), Some(Action::PointerUp));
}

#[test]
fn configuration_errors() {
    assert!(matches!(Config::from_str("[hotkey"), Err(Error::IncorrectToml { .. })));
    match Config::from_str("[other]\n") {
        Err(Error::UnsupportedKey { key }) => assert_eq!(key, "other"),
        other => panic!("unexpected {:?}", other),
    }
    match Config::from_str("[hotkey]\n\"Quit\" = \"NoSuchKey\"\n") {
        Err(Error::IncorrectEvent { value }) => assert_eq!(value, "NoSuchKey"),
        other => panic!("unexpected {:?}", other),
    }
    assert!(matches!(Config::from_str("[hotkey]\n\"Quit\" = 3\n"), Err(Error::UnsupportedTomlItem)));
    assert!(matches!(Config::from_str("hotkey = 3\n"), Err(Error::UnsupportedTomlItem)));
    assert!(matches!(Config::from_str("[hotkey]\nsearch = \"q\"\n"), Err(Error::UnsupportedTomlItem)));
    match Config::from_str("[hotkey]\n\"Char\" = \"q\"\n") {
        Err(Error::IncorrectAction { value }) => assert_eq!(value, "Char"),
        other => panic!("unexpected {:?}", other),
    }
}

#[test]
fn empty_configuration_binds_nothing() {
    let config = Config::from_str("").unwrap();
    assert_eq!(config.binding.action(Context::search(), &Event::Key(Key::Up)), Some(Action::PointerUp));
    let config = Config::default();
    assert_eq!(config.binding.action(Context::search(), &Event::Key(Key::Char('z'))), Some(Action::Char('z')));
}

#[test]
fn document_tree_is_read() {
    let doc = TomlItem::Table(vec![(
        "hotkey".to_string(),
        TomlItem::Table(vec![
            ("Quit".to_string(), TomlItem::Str("q".to_string())),
            (
                "playlist".to_string(),
                TomlItem::Table(vec![("Stop".to_string(), TomlItem::Str("q".to_string()))]),
            ),
        ]),
    )]);
    let config = Config::from_document(&doc).unwrap();
    let q = Event::Key(Key::Char('q'));
    assert_eq!(config.binding.action(Context::playlist(), &q), Some(Action::Stop));
    assert_eq!(config.binding.action(Context::search(), &q), Some(Action::Quit));
    assert!(matches!(Config::from_document(&TomlItem::Other), Err(Error::UnsupportedTomlItem)));
}

#[test]
fn event_names() {
    assert_eq!(parse_event_name("ArrowUp"), Ok(Event::Key(Key::Up)));
    assert_eq!(parse_event_name("ArrowDown"), Ok(Event::Key(Key::Down)));
    assert_eq!(parse_event_name("ArrowRight"), Ok(Event::Key(Key::Right)));
    assert_eq!(parse_event_name("ArrowLeft"), Ok(Event::Key(Key::Left)));
    assert_eq!(parse_event_name("Del"), Ok(Event::Key(Key::Delete)));
    assert_eq!(parse_event_name("Backspace"), Ok(Event::Key(Key::Backspace)));
    assert_eq!(parse_event_name("Home"), Ok(Event::Key(Key::Home)));
    assert_eq!(parse_event_name("End"), Ok(Event::Key(Key::End)));
    assert_eq!(parse_event_name("PageUp"), Ok(Event::Key(Key::PageUp)));
    assert_eq!(parse_event_name("PageDown"), Ok(Event::Key(Key::PageDown)));
    assert_eq!(parse_event_name("Insert"), Ok(Event::Key(Key::Insert)));
    assert_eq!(parse_event_name("Esc"), Ok(Event::Key(Key::Esc)));
    assert_eq!(parse_event_name("Ctrl+x"), Ok(Event::Key(Key::Ctrl('x'))));
    assert_eq!(parse_event_name("Alt+é"), Ok(Event::Key(Key::Alt('é'))));
    assert_eq!(parse_event_name("Fn+5"), Ok(Event::Key(Key::F(5))));
    assert_eq!(parse_event_name("ß"), Ok(Event::Key(Key::Char('ß'))));
    assert_eq!(parse_event_name("Fn+x"), Err(UnknownEvent));
    assert_eq!(parse_event_name("Ctrl+"), Err(UnknownEvent));
    assert_eq!(parse_event_name("Ctrl+ab"), Err(UnknownEvent));
    assert_eq!(parse_event_name("ab"), Err(UnknownEvent));
    assert_eq!(parse_event_name(""), Err(UnknownEvent));
}

#[test]
fn action_names() {
    assert_eq!(parse_action_name("Quit"), Some(Action::Quit));
    assert_eq!(parse_action_name("SwitchToArtists"), Some(Action::SwitchToArtists));
    assert_eq!(parse_action_name("Backspace"), Some(Action::Backspace));
    assert_eq!(parse_action_name("Forward5"), Some(Action::Forward5));
    assert_eq!(parse_action_name("quit"), None);
    assert_eq!(parse_action_name("Char"), None);
}
