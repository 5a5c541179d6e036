use rum_player::event::{Event, Key, MouseEvent};
use rum_player::key::{normalize, Action, BindingConfig, Context, ContextedAction};

fn ctx(bits: u8) -> Context {
    Context { is_search: bits & 0b001 > 0, is_tracklist: bits & 0b010 > 0, is_playlist: bits & 0b100 > 0 }
}

#[test]
fn test_context_order() {
    let mut contexts: Vec<Context> = (1u8..=7).map(ctx).collect();
    contexts.sort();
    assert_eq!(contexts[0], Context { is_search: false, is_tracklist: false, is_playlist: true });
    assert_eq!(
        *contexts.last().unwrap(),
        Context { is_search: true, is_tracklist: true, is_playlist: true }
    );
}

#[test]
fn context_constructors() {
    assert_eq!(Context::new(false, false, false), None);
    assert_eq!(Context::new(true, false, false), Some(Context::search()));
    assert!(Context::search().is_valid());
    assert!(!ctx(0).is_valid());
    assert_eq!(Context::search().bitor(Context::tracklist()).bitor(Context::playlist()), Context::all());
}

#[test]
fn sub_is_antisymmetric_on_valid_contexts() {
    for a in 1u8..=7 {
        for b in 1u8..=7 {
            let (ca, cb) = (ctx(a), ctx(b));
            assert_eq!(ca.is_sub(cb) && cb.is_sub(ca), ca == cb);
        }
    }
}

#[test]
fn every_context_is_sub_of_all() {
    for a in 1u8..=7 {
        assert!(ctx(a).is_sub(Context::all()));
    }
    assert!(!Context::all().is_sub(Context::search()));
}

#[test]
fn specific_search_binding_wins_over_all() {
    let event = Event::Key(Key::Up);
    let config = BindingConfig::from_raw(vec![(
        event,
        vec![
            ContextedAction { context: Context::search(), action: Action::Enter },
            ContextedAction { context: Context::all(), action: Action::Quit },
        ],
    )]);
    assert_eq!(config.action(Context::search(), &event), Some(Action::Enter));
    assert_eq!(config.action(Context::tracklist(), &event), Some(Action::Quit));
}

#[test]
fn test_context_search() {
    // the binding of the current context wins over any other that contains it
    let event = Event::Key(Key::Up);
    for search in 1u8..=7 {
        let entries: Vec<ContextedAction> = (1u8..=7)
            .rev()
            .map(|b| ContextedAction {
                context: ctx(b),
                action: if b == search { Action::Enter } else { Action::Quit },
            })
            .collect();
        let config = BindingConfig::from_raw(vec![(event, entries)]);
        assert_eq!(config.action(ctx(search), &event), Some(Action::Enter));
    }
}

#[test]
fn normalize_sorts_filters_and_dedups() {
    let entries = vec![
        ContextedAction { context: Context::all(), action: Action::Quit },
        ContextedAction { context: ctx(0), action: Action::Stop },
        ContextedAction { context: Context::playlist(), action: Action::Enter },
        ContextedAction { context: Context::all(), action: Action::Quit },
        ContextedAction { context: Context::search(), action: Action::Refresh },
    ];
    assert_eq!(
        normalize(&entries),
        vec![
            ContextedAction { context: Context::playlist(), action: Action::Enter },
            ContextedAction { context: Context::search(), action: Action::Refresh },
            ContextedAction { context: Context::all(), action: Action::Quit },
        ]
    );
    assert_eq!(normalize(&vec![ContextedAction { context: ctx(0), action: Action::Stop }]), vec![]);
}

#[test]
fn rows_left_empty_are_dropped() {
    let event = Event::Key(Key::Char('x'));
    let config =
        BindingConfig::from_raw(vec![(event, vec![ContextedAction { context: ctx(0), action: Action::Quit }])]);
    assert_eq!(config.action(Context::search(), &event), Some(Action::Char('x')));
}

#[test]
fn unmatched_binding_falls_back_to_default() {
    let event = Event::Key(Key::Down);
    let config = BindingConfig::from_raw(vec![(
        event,
        vec![ContextedAction { context: Context::search(), action: Action::PointerUp }],
    )]);
    assert_eq!(config.action(Context::search(), &event), Some(Action::PointerUp));
    assert_eq!(config.action(Context::playlist(), &event), Some(Action::PointerDown));
    let none = Event::Mouse(MouseEvent::Release(1, 1));
    assert_eq!(config.action(Context::search(), &none), None);
}

#[test]
fn default_actions() {
    let d = |k: Key| BindingConfig::default_action(&Event::Key(k));
    assert_eq!(d(Key::Up), Some(Action::PointerUp));
    assert_eq!(d(Key::Down), Some(Action::PointerDown));
    assert_eq!(d(Key::Right), Some(Action::NextTrack));
    assert_eq!(d(Key::Left), Some(Action::PrevTrack));
    assert_eq!(d(Key::Delete), Some(Action::Quit));
    assert_eq!(d(Key::Ctrl('c')), Some(Action::Quit));
    assert_eq!(d(Key::Ctrl('p')), Some(Action::FlipPause));
    assert_eq!(d(Key::Char(']')), Some(Action::Forward5));
    assert_eq!(d(Key::Char('[')), Some(Action::Backward5));
    assert_eq!(d(Key::Ctrl('r')), Some(Action::Refresh));
    assert_eq!(d(Key::Ctrl('s')), Some(Action::Stop));
    assert_eq!(d(Key::Ctrl('a')), Some(Action::AddAll));
    assert_eq!(d(Key::Alt('p')), Some(Action::ShowPlaylist));
    assert_eq!(d(Key::Alt('a')), Some(Action::SwitchToAlbums));
    assert_eq!(d(Key::Alt('t')), Some(Action::SwitchToTracks));
    assert_eq!(d(Key::Alt('s')), Some(Action::SwitchToArtists));
    assert_eq!(d(Key::Char('\n')), Some(Action::Enter));
    assert_eq!(d(Key::Char('\t')), Some(Action::SwitchView));
    assert_eq!(d(Key::Char('q')), Some(Action::Char('q')));
    assert_eq!(d(Key::Backspace), Some(Action::Backspace));
    assert_eq!(d(Key::Ctrl('x')), None);
    assert_eq!(d(Key::Alt('x')), None);
    assert_eq!(d(Key::Home), None);
}

#[test]
fn rebuilding_gives_the_same_resolution() {
    let raw = || {
        vec![
            (
                Event::Key(Key::Up),
                vec![
                    ContextedAction { context: Context::all(), action: Action::Quit },
                    ContextedAction { context: Context::tracklist(), action: Action::Stop },
                ],
            ),
            (Event::Key(Key::Char('k')), vec![ContextedAction { context: Context::search(), action: Action::PointerUp }]),
        ]
    };
    let (a, b) = (BindingConfig::from_raw(raw()), BindingConfig::from_raw(raw()));
    for bits in 1u8..=7 {
        for e in [Event::Key(Key::Up), Event::Key(Key::Char('k')), Event::Key(Key::Down)] {
            assert_eq!(a.action(ctx(bits), &e), b.action(ctx(bits), &e));
        }
    }
}
