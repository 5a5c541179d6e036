use vstd::prelude::*;

use crate::event::{Event, Key};
use crate::key::{Action, BindingConfig, Context, ContextedAction, raw_view, table_of};

verus! {

/// A TOML value, as far as the configuration reads it.
#[derive(Debug)]
pub enum TomlItem {
    Str(String),
    /// A table, its entries in the order the parser gives them.
    Table(Vec<(String, TomlItem)>),
    /// Any other kind of value.
    Other,
}

/// An event description in a configuration that names no event.
#[derive(Debug, Clone, Copy, PartialEq, Eq, Structural)]
pub struct UnknownEvent;

/// Why a configuration was refused.
#[derive(Debug)]
pub enum Error {
    /// The text is no TOML document; the parser's message.
    IncorrectToml { message: String },
    /// A name that is no configurable action.
    IncorrectAction { value: String },
    /// A description that names no event.
    IncorrectEvent { value: String },
    /// A top-level key other than `hotkey`.
    UnsupportedKey { key: String },
    /// A value of another kind than the place requires.
    UnsupportedTomlItem,
}

/// What an [`Error`] says, with its texts as character sequences.
pub enum ConfigFault {
    Toml,
    Action(Seq<char>),
    Event(Seq<char>),
    Key(Seq<char>),
    Item,
}

impl View for Error {
    type V = ConfigFault;

    open spec fn view(&self) -> ConfigFault {
        match self {
            Error::IncorrectToml { .. } => ConfigFault::Toml,
            Error::IncorrectAction { value } => ConfigFault::Action(value@),
            Error::IncorrectEvent { value } => ConfigFault::Event(value@),
            Error::UnsupportedKey { key } => ConfigFault::Key(key@),
            Error::UnsupportedTomlItem => ConfigFault::Item,
        }
    }
}

/// `s` begins with `p`.
pub open spec fn has_prefix(s: Seq<char>, p: Seq<char>) -> bool {
    p.len() <= s.len() && s.subrange(0, p.len() as int) == p
}

/// The event that a configuration names with `s`.
pub open spec fn event_named(s: Seq<char>) -> Option<Event> {
    if s == "ArrowUp"@ {
        Some(Event::Key(Key::Up))
    } else if s == "ArrowDown"@ {
        Some(Event::Key(Key::Down))
    } else if s == "ArrowRight"@ {
        Some(Event::Key(Key::Right))
    } else if s == "ArrowLeft"@ {
        Some(Event::Key(Key::Left))
    } else if s == "Del"@ {
        Some(Event::Key(Key::Delete))
    } else if s == "Backspace"@ {
        Some(Event::Key(Key::Backspace))
    } else if s == "Home"@ {
        Some(Event::Key(Key::Home))
    } else if s == "End"@ {
        Some(Event::Key(Key::End))
    } else if s == "PageUp"@ {
        Some(Event::Key(Key::PageUp))
    } else if s == "PageDown"@ {
        Some(Event::Key(Key::PageDown))
    } else if s == "Insert"@ {
        Some(Event::Key(Key::Insert))
    } else if s == "Esc"@ {
        Some(Event::Key(Key::Esc))
    } else if has_prefix(s, "Ctrl+"@) {
        if s.len() == 6 {
            Some(Event::Key(Key::Ctrl(s[5])))
        } else {
            None
        }
    } else if has_prefix(s, "Alt+"@) {
        if s.len() == 5 {
            Some(Event::Key(Key::Alt(s[4])))
        } else {
            None
        }
    } else if has_prefix(s, "Fn+"@) {
        if s.len() == 4 && '0' <= s[3] <= '9' {
            Some(Event::Key(Key::F((s[3] as u32 - '0' as u32) as u8)))
        } else {
            None
        }
    } else if s.len() == 1 {
        Some(Event::Key(Key::Char(s[0])))
    } else {
        None
    }
}

/// The action that a configuration names with `s` (every variant but `Char`).
pub open spec fn action_named(s: Seq<char>) -> Option<Action> {
    if s == "Quit"@ {
        Some(Action::Quit)
    } else if s == "PointerUp"@ {
        Some(Action::PointerUp)
    } else if s == "PointerDown"@ {
        Some(Action::PointerDown)
    } else if s == "NextTrack"@ {
        Some(Action::NextTrack)
    } else if s == "PrevTrack"@ {
        Some(Action::PrevTrack)
    } else if s == "FlipPause"@ {
        Some(Action::FlipPause)
    } else if s == "Stop"@ {
        Some(Action::Stop)
    } else if s == "Forward5"@ {
        Some(Action::Forward5)
    } else if s == "Backward5"@ {
        Some(Action::Backward5)
    } else if s == "Refresh"@ {
        Some(Action::Refresh)
    } else if s == "AddAll"@ {
        Some(Action::AddAll)
    } else if s == "ShowPlaylist"@ {
        Some(Action::ShowPlaylist)
    } else if s == "SwitchToAlbums"@ {
        Some(Action::SwitchToAlbums)
    } else if s == "SwitchToTracks"@ {
        Some(Action::SwitchToTracks)
    } else if s == "SwitchToArtists"@ {
        Some(Action::SwitchToArtists)
    } else if s == "Enter"@ {
        Some(Action::Enter)
    } else if s == "SwitchView"@ {
        Some(Action::SwitchView)
    } else if s == "Backspace"@ {
        Some(Action::Backspace)
    } else {
        None
    }
}

/// Index of the first row for event `e`.
pub open spec fn first_position(rows: Seq<(Event, Seq<ContextedAction>)>, e: Event) -> Option<int>
    decreases rows.len(),
{
    if rows.len() == 0 {
        None
    } else if rows[0].0 == e {
        Some(0)
    } else {
        match first_position(rows.drop_first(), e) {
            Some(k) => Some(k + 1),
            None => None,
        }
    }
}

/// `rows` with `ca` appended to the row of `e`, or with a new row for `e`.
pub open spec fn add_binding(
    rows: Seq<(Event, Seq<ContextedAction>)>,
    e: Event,
    ca: ContextedAction,
) -> Seq<(Event, Seq<ContextedAction>)> {
    match first_position(rows, e) {
        Some(i) => rows.update(i, (e, rows[i].1.push(ca))),
        None => rows.push((e, seq![ca])),
    }
}

/// One `"<Action>" = "<Event>"` entry bound in context `c`.
pub open spec fn add_entry(
    rows: Seq<(Event, Seq<ContextedAction>)>,
    name: String,
    value: TomlItem,
    c: Context,
) -> Result<Seq<(Event, Seq<ContextedAction>)>, ConfigFault> {
    match action_named(name@) {
        None => Err(ConfigFault::Action(name@)),
        Some(a) => match value {
            TomlItem::Str(v) => match event_named(v@) {
                None => Err(ConfigFault::Event(v@)),
                Some(e) => Ok(add_binding(rows, e, ContextedAction { context: c, action: a })),
            },
            _ => Err(ConfigFault::Item),
        },
    }
}

/// The entries of a table, in order, bound in context `c`; the first
/// entry that fails decides the error.
pub open spec fn add_entries(
    rows: Seq<(Event, Seq<ContextedAction>)>,
    m: Seq<(String, TomlItem)>,
    c: Context,
) -> Result<Seq<(Event, Seq<ContextedAction>)>, ConfigFault>
    decreases m.len(),
{
    if m.len() == 0 {
        Ok(rows)
    } else {
        match add_entry(rows, m[0].0, m[0].1, c) {
            Err(f) => Err(f),
            Ok(r) => add_entries(r, m.drop_first(), c),
        }
    }
}

/// One entry of the `hotkey` table: a table of one mode, or an entry for all modes.
pub open spec fn add_hotkey(
    rows: Seq<(Event, Seq<ContextedAction>)>,
    key: String,
    value: TomlItem,
) -> Result<Seq<(Event, Seq<ContextedAction>)>, ConfigFault> {
    if key@ == "search"@ || key@ == "tracklist"@ || key@ == "playlist"@ {
        let c = Context::of_flags(key@ == "search"@, key@ == "tracklist"@, key@ == "playlist"@);
        match value {
            TomlItem::Table(m) => add_entries(rows, m@, c),
            _ => Err(ConfigFault::Item),
        }
    } else {
        add_entry(rows, key, value, Context::of_flags(true, true, true))
    }
}

/// The raw bindings of the entries of the `hotkey` table, added to `rows`.
pub open spec fn hotkey_rows(rows: Seq<(Event, Seq<ContextedAction>)>, t: Seq<(String, TomlItem)>) -> Result<
    Seq<(Event, Seq<ContextedAction>)>,
    ConfigFault,
>
    decreases t.len(),
{
    if t.len() == 0 {
        Ok(rows)
    } else {
        match add_hotkey(rows, t[0].0, t[0].1) {
            Err(f) => Err(f),
            Ok(r) => hotkey_rows(r, t.drop_first()),
        }
    }
}

/// The binding table that a hotkey table configures.
pub open spec fn hotkey_table(t: Seq<(String, TomlItem)>) -> Result<
    Seq<(Event, Seq<ContextedAction>)>,
    ConfigFault,
> {
    match hotkey_rows(Seq::empty(), t) {
        Ok(raw) => Ok(table_of(raw)),
        Err(f) => Err(f),
    }
}

/// The binding table that the top-level entries configure, `table` being
/// the one configured so far: `hotkey` is the only key allowed, and its value
/// must be a table.
pub open spec fn document_entries(
    table: Seq<(Event, Seq<ContextedAction>)>,
    entries: Seq<(String, TomlItem)>,
) -> Result<Seq<(Event, Seq<ContextedAction>)>, ConfigFault>
    decreases entries.len(),
{
    if entries.len() == 0 {
        Ok(table)
    } else if entries[0].0@ == "hotkey"@ {
        match entries[0].1 {
            TomlItem::Table(t) => match hotkey_table(t@) {
                Err(f) => Err(f),
                Ok(next) => document_entries(next, entries.drop_first()),
            },
            _ => Err(ConfigFault::Item),
        }
    } else {
        Err(ConfigFault::Key(entries[0].0@))
    }
}

/// The binding table that a TOML document configures.
pub open spec fn document_table(doc: TomlItem) -> Result<
    Seq<(Event, Seq<ContextedAction>)>,
    ConfigFault,
> {
    match doc {
        TomlItem::Table(entries) => document_entries(Seq::empty(), entries@),
        _ => Err(ConfigFault::Item),
    }
}


/// The characters of `s`.
fn chars_of(s: &str) -> (r: Vec<char>)
    ensures
        r@ == s@,
{
    let mut r: Vec<char> = Vec::new();
    for c in it: s.chars()
        invariant
            r@ == it.seq().subrange(0, it.index() as int),
    {
        r.push(c);
    }
    r
}

/// Whether `v` starts with the characters of `p`.
fn starts_with(v: &Vec<char>, p: &str) -> (r: bool)
    ensures
        r == has_prefix(v@, p@),
{
    let pc = chars_of(p);
    if pc.len() > v.len() {
        return false;
    }
    let mut i: usize = 0;
    while i < pc.len()
        invariant
            i <= pc@.len() <= v@.len(),
            pc@ == p@,
            forall|k: int| 0 <= k < i ==> v@[k] == pc@[k],
        decreases pc.len() - i,
    {
        if v[i] != pc[i] {
            assert(v@.subrange(0, pc@.len() as int)[i as int] != pc@[i as int]);
            return false;
        }
        i += 1;
    }
    assert(v@.subrange(0, pc@.len() as int) =~= pc@);
    true
}

/// Whether `v` holds exactly the characters of `p`.
fn same_text(v: &Vec<char>, p: &str) -> (r: bool)
    ensures
        r == (v@ == p@),
{
    let pc = chars_of(p);
    if pc.len() != v.len() {
        return false;
    }
    let r = starts_with(v, p);
    assert(v@.subrange(0, v@.len() as int) =~= v@);
    assert(p@.len() == v@.len());
    r
}


/// Reads the description of an event: a key name (`ArrowUp`, `Del`, `Esc`,
/// ...), `Ctrl+c`, `Alt+c`, `Fn+d` with one digit, or a single character.
pub fn parse_event_name(s: &str) -> (r: Result<Event, UnknownEvent>)
    ensures
        match r {
            Ok(e) => event_named(s@) == Some(e),
            Err(_) => event_named(s@) is None,
        },
{
    let v = chars_of(s);
    if same_text(&v, "ArrowUp") {
        return Ok(Event::Key(Key::Up));
    }
    if same_text(&v, "ArrowDown") {
        return Ok(Event::Key(Key::Down));
    }
    if same_text(&v, "ArrowRight") {
        return Ok(Event::Key(Key::Right));
    }
    if same_text(&v, "ArrowLeft") {
        return Ok(Event::Key(Key::Left));
    }
    if same_text(&v, "Del") {
        return Ok(Event::Key(Key::Delete));
    }
    if same_text(&v, "Backspace") {
        return Ok(Event::Key(Key::Backspace));
    }
    if same_text(&v, "Home") {
        return Ok(Event::Key(Key::Home));
    }
    if same_text(&v, "End") {
        return Ok(Event::Key(Key::End));
    }
    if same_text(&v, "PageUp") {
        return Ok(Event::Key(Key::PageUp));
    }
    if same_text(&v, "PageDown") {
        return Ok(Event::Key(Key::PageDown));
    }
    if same_text(&v, "Insert") {
        return Ok(Event::Key(Key::Insert));
    }
    if same_text(&v, "Esc") {
        return Ok(Event::Key(Key::Esc));
    }
    proof {
        reveal_strlit("Ctrl+");
        reveal_strlit("Alt+");
        reveal_strlit("Fn+");
    }
    if starts_with(&v, "Ctrl+") {
        if v.len() == 6 {
            return Ok(Event::Key(Key::Ctrl(v[5])));
        }
        return Err(UnknownEvent);
    }
    if starts_with(&v, "Alt+") {
        if v.len() == 5 {
            return Ok(Event::Key(Key::Alt(v[4])));
        }
        return Err(UnknownEvent);
    }
    if starts_with(&v, "Fn+") {
        if v.len() == 4 && '0' <= v[3] && v[3] <= '9' {
            return Ok(Event::Key(Key::F((v[3] as u32 - '0' as u32) as u8)));
        }
        return Err(UnknownEvent);
    }
    if v.len() == 1 {
        return Ok(Event::Key(Key::Char(v[0])));
    }
    Err(UnknownEvent)
}

/// The configurable action with the name `s`.
pub fn parse_action_name(s: &str) -> (r: Option<Action>)
    ensures
        r == action_named(s@),
{
    let v = chars_of(s);
    if same_text(&v, "Quit") {
        return Some(Action::Quit);
    }
    if same_text(&v, "PointerUp") {
        return Some(Action::PointerUp);
    }
    if same_text(&v, "PointerDown") {
        return Some(Action::PointerDown);
    }
    if same_text(&v, "NextTrack") {
        return Some(Action::NextTrack);
    }
    if same_text(&v, "PrevTrack") {
        return Some(Action::PrevTrack);
    }
    if same_text(&v, "FlipPause") {
        return Some(Action::FlipPause);
    }
    if same_text(&v, "Stop") {
        return Some(Action::Stop);
    }
    if same_text(&v, "Forward5") {
        return Some(Action::Forward5);
    }
    if same_text(&v, "Backward5") {
        return Some(Action::Backward5);
    }
    if same_text(&v, "Refresh") {
        return Some(Action::Refresh);
    }
    if same_text(&v, "AddAll") {
        return Some(Action::AddAll);
    }
    if same_text(&v, "ShowPlaylist") {
        return Some(Action::ShowPlaylist);
    }
    if same_text(&v, "SwitchToAlbums") {
        return Some(Action::SwitchToAlbums);
    }
    if same_text(&v, "SwitchToTracks") {
        return Some(Action::SwitchToTracks);
    }
    if same_text(&v, "SwitchToArtists") {
        return Some(Action::SwitchToArtists);
    }
    if same_text(&v, "Enter") {
        return Some(Action::Enter);
    }
    if same_text(&v, "SwitchView") {
        return Some(Action::SwitchView);
    }
    if same_text(&v, "Backspace") {
        return Some(Action::Backspace);
    }
    None
}


proof fn lemma_first_position(rows: Seq<(Event, Seq<ContextedAction>)>, e: Event, i: int)
    requires
        0 <= i <= rows.len(),
        forall|j: int| 0 <= j < i ==> rows[j].0 != e,
    ensures
        i < rows.len() && rows[i].0 == e ==> first_position(rows, e) == Some(i),
        i == rows.len() ==> first_position(rows, e) is None,
    decreases i,
{
    if i > 0 {
        lemma_first_position(rows.drop_first(), e, i - 1);
    }
}

fn position_of(rows: &Vec<(Event, Vec<ContextedAction>)>, e: Event) -> (r: Option<usize>)
    ensures
        match r {
            Some(i) => first_position(raw_view(rows@), e) == Some(i as int) && i < rows@.len()
                && rows@[i as int].0 == e,
            None => first_position(raw_view(rows@), e) is None,
        },
{
    let ghost rv = raw_view(rows@);
    let mut i: usize = 0;
    while i < rows.len()
        invariant
            i <= rows@.len(),
            rv == raw_view(rows@),
            forall|j: int| 0 <= j < i ==> rv[j].0 != e,
        decreases rows.len() - i,
    {
        if rows[i].0 == e {
            proof {
                lemma_first_position(rv, e, i as int);
            }
            return Some(i);
        }
        i += 1;
    }
    proof {
        lemma_first_position(rv, e, i as int);
    }
    None
}

/// Appends `ca` to the row of `e`, or adds a row for `e`.
fn push_binding(rows: &mut Vec<(Event, Vec<ContextedAction>)>, e: Event, ca: ContextedAction)
    ensures
        raw_view(final(rows)@) == add_binding(raw_view(old(rows)@), e, ca),
{
    let ghost before = raw_view(rows@);
    match position_of(rows, e) {
        Some(i) => {
            let ghost old_rows = rows@;
            let (ev, mut row) = rows.remove(i);
            assert(ev == e && row@ == before[i as int].1);
            row.push(ca);
            let ghost new_row = (ev, row);
            rows.insert(i, (ev, row));
            assert(rows@ =~= old_rows.update(i as int, new_row));
            assert(raw_view(rows@) =~= before.update(i as int, (e, before[i as int].1.push(ca))));
        },
        None => {
            let mut row: Vec<ContextedAction> = Vec::new();
            row.push(ca);
            rows.push((e, row));
            assert(raw_view(rows@) =~= before.push((e, seq![ca])));
        },
    }
}

fn push_entry(
    rows: &mut Vec<(Event, Vec<ContextedAction>)>,
    name: &String,
    value: &TomlItem,
    c: Context,
) -> (r: Result<(), Error>)
    ensures
        match r {
            Ok(()) => add_entry(raw_view(old(rows)@), *name, *value, c) == Ok::<
                Seq<(Event, Seq<ContextedAction>)>,
                ConfigFault,
            >(raw_view(final(rows)@)),
            Err(e) => add_entry(raw_view(old(rows)@), *name, *value, c) == Err::<
                Seq<(Event, Seq<ContextedAction>)>,
                ConfigFault,
            >(e@),
        },
{
    match parse_action_name(name.as_str()) {
        None => Err(Error::IncorrectAction { value: name.clone() }),
        Some(a) => match value {
            TomlItem::Str(v) => match parse_event_name(v.as_str()) {
                Err(_) => Err(Error::IncorrectEvent { value: v.clone() }),
                Ok(e) => {
                    push_binding(rows, e, ContextedAction { context: c, action: a });
                    Ok(())
                },
            },
            _ => Err(Error::UnsupportedTomlItem),
        },
    }
}

fn push_entries(
    rows: &mut Vec<(Event, Vec<ContextedAction>)>,
    m: &Vec<(String, TomlItem)>,
    c: Context,
) -> (r: Result<(), Error>)
    ensures
        match r {
            Ok(()) => add_entries(raw_view(old(rows)@), m@, c) == Ok::<
                Seq<(Event, Seq<ContextedAction>)>,
                ConfigFault,
            >(raw_view(final(rows)@)),
            Err(e) => add_entries(raw_view(old(rows)@), m@, c) == Err::<
                Seq<(Event, Seq<ContextedAction>)>,
                ConfigFault,
            >(e@),
        },
{
    let ghost goal = add_entries(raw_view(rows@), m@, c);
    let mut i: usize = 0;
    assert(m@.subrange(0, m@.len() as int) =~= m@);
    while i < m.len()
        invariant
            i <= m@.len(),
            goal == add_entries(raw_view(old(rows)@), m@, c),
            goal == add_entries(raw_view(rows@), m@.subrange(i as int, m@.len() as int), c),
        decreases m.len() - i,
    {
        assert(m@.subrange(i as int, m@.len() as int).drop_first() =~= m@.subrange(
            i + 1,
            m@.len() as int,
        ));
        assert(m@.subrange(i as int, m@.len() as int)[0] == m@[i as int]);
        let r = push_entry(rows, &m[i].0, &m[i].1, c);
        if r.is_err() {
            return r;
        }
        i += 1;
    }
    Ok(())
}

fn push_hotkey(rows: &mut Vec<(Event, Vec<ContextedAction>)>, key: &String, value: &TomlItem) -> (r:
    Result<(), Error>)
    ensures
        match r {
            Ok(()) => add_hotkey(raw_view(old(rows)@), *key, *value) == Ok::<
                Seq<(Event, Seq<ContextedAction>)>,
                ConfigFault,
            >(raw_view(final(rows)@)),
            Err(e) => add_hotkey(raw_view(old(rows)@), *key, *value) == Err::<
                Seq<(Event, Seq<ContextedAction>)>,
                ConfigFault,
            >(e@),
        },
{
    let k = chars_of(key.as_str());
    let is_search = same_text(&k, "search");
    let is_tracklist = same_text(&k, "tracklist");
    let is_playlist = same_text(&k, "playlist");
    if is_search || is_tracklist || is_playlist {
        let c = Context { is_search, is_tracklist, is_playlist };
        match value {
            TomlItem::Table(m) => push_entries(rows, m, c),
            _ => Err(Error::UnsupportedTomlItem),
        }
    } else {
        push_entry(rows, key, value, Context::all())
    }
}

/// Reads the `hotkey` table into a binding table.
pub fn parse_binding_config(table: &Vec<(String, TomlItem)>) -> (r: Result<BindingConfig, Error>)
    ensures
        match r {
            Ok(b) => hotkey_table(table@) == Ok::<
                Seq<(Event, Seq<ContextedAction>)>,
                ConfigFault,
            >(b@),
            Err(e) => hotkey_table(table@) == Err::<Seq<(Event, Seq<ContextedAction>)>, ConfigFault>(
                e@,
            ),
        },
        r matches Ok(b) ==> b.wf(),
{
    let mut rows: Vec<(Event, Vec<ContextedAction>)> = Vec::new();
    let ghost goal = hotkey_rows(Seq::empty(), table@);
    assert(raw_view(rows@) =~= Seq::<(Event, Seq<ContextedAction>)>::empty());
    assert(table@.subrange(0, table@.len() as int) =~= table@);
    let mut i: usize = 0;
    while i < table.len()
        invariant
            i <= table@.len(),
            goal == hotkey_rows(Seq::empty(), table@),
            goal == hotkey_rows(raw_view(rows@), table@.subrange(i as int, table@.len() as int)),
        decreases table.len() - i,
    {
        assert(table@.subrange(i as int, table@.len() as int).drop_first() =~= table@.subrange(
            i + 1,
            table@.len() as int,
        ));
        assert(table@.subrange(i as int, table@.len() as int)[0] == table@[i as int]);
        let r = push_hotkey(&mut rows, &table[i].0, &table[i].1);
        match r {
            Err(e) => {
                return Err(e);
            },
            Ok(()) => {},
        }
        i += 1;
    }
    Ok(BindingConfig::from_raw(rows))
}


/// The configuration of the application.
#[derive(Debug)]
pub struct Config {
    pub binding: BindingConfig,
}

impl Default for Config {
    fn default() -> (r: Config)
        ensures
            r.binding@ == Seq::<(Event, Seq<ContextedAction>)>::empty(),
            r.binding.wf(),
    {
        Config { binding: BindingConfig::default() }
    }
}

impl Config {
    /// Reads the configuration from a TOML document.
    pub fn from_document(doc: &TomlItem) -> (r: Result<Config, Error>)
        ensures
            match r {
                Ok(c) => document_table(*doc) == Ok::<
                    Seq<(Event, Seq<ContextedAction>)>,
                    ConfigFault,
                >(c.binding@),
                Err(e) => document_table(*doc) == Err::<
                    Seq<(Event, Seq<ContextedAction>)>,
                    ConfigFault,
                >(e@),
            },
            r matches Ok(c) ==> c.binding.wf(),
    {
        let entries = match doc {
            TomlItem::Table(entries) => entries,
            _ => {
                return Err(Error::UnsupportedTomlItem);
            },
        };
        let mut binding = BindingConfig::default();
        let ghost goal = document_entries(Seq::empty(), entries@);
        assert(entries@.subrange(0, entries@.len() as int) =~= entries@);
        let mut i: usize = 0;
        while i < entries.len()
            invariant
                i <= entries@.len(),
                goal == document_table(*doc),
                binding.wf(),
                goal == document_entries(binding@, entries@.subrange(i as int, entries@.len() as int)),
            decreases entries.len() - i,
        {
            let ghost rest = entries@.subrange(i as int, entries@.len() as int);
            assert(rest.drop_first() =~= entries@.subrange(i + 1, entries@.len() as int));
            assert(rest[0] == entries@[i as int]);
            let key = chars_of(entries[i].0.as_str());
            if !same_text(&key, "hotkey") {
                return Err(Error::UnsupportedKey { key: entries[i].0.clone() });
            }
            match &entries[i].1 {
                TomlItem::Table(t) => {
                    binding = parse_binding_config(t)?;
                },
                _ => {
                    return Err(Error::UnsupportedTomlItem);
                },
            }
            i += 1;
        }
        Ok(Config { binding })
    }

    /// Reads the configuration from its text.
    pub fn from_str(s: &str) -> (r: Result<Config, Error>)
        ensures
            match toml_document(s@) {
                None => r matches Err(Error::IncorrectToml { .. }),
                Some(doc) => match r {
                    Ok(c) => document_table(doc) == Ok::<
                        Seq<(Event, Seq<ContextedAction>)>,
                        ConfigFault,
                    >(c.binding@),
                    Err(e) => document_table(doc) == Err::<
                        Seq<(Event, Seq<ContextedAction>)>,
                        ConfigFault,
                    >(e@),
                },
            },
            r matches Ok(c) ==> c.binding.wf(),
    {
        match parse_toml(s) {
            Ok(doc) => Config::from_document(&doc),
            Err(message) => Err(Error::IncorrectToml { message }),
        }
    }
}

/// The value type of the toml crate, which only the conversion below reads.
#[verifier::external_type_specification]
#[verifier::external_body]
pub struct ExTomlValue(toml::Value);

/// The tree of the TOML document that `s` holds, if it holds one.
pub uninterp spec fn toml_document(s: Seq<char>) -> Option<TomlItem>;

/// Relies on `toml::from_str::<toml::Value>`: it accepts the text as a TOML
/// document or refuses it, and what it reads depends on the text alone.
#[verifier::external_body]
fn parse_toml(s: &str) -> (r: Result<TomlItem, String>)
    ensures
        match r {
            Ok(t) => toml_document(s@) == Some(t),
            Err(_) => toml_document(s@) is None,
        },
{
    toml::from_str::<toml::Value>(s).map(toml_item).map_err(|e| e.to_string())
}

/// Converts a value of the toml crate, variant for variant, keeping the order
/// of the entries of each table; the tree that `parse_toml` hands out.
#[verifier::external_body]
fn toml_item(v: toml::Value) -> TomlItem {
    match v {
        toml::Value::String(s) => TomlItem::Str(s),
        toml::Value::Table(t) => TomlItem::Table(t.into_iter().map(|(k, v)| (k, toml_item(v))).collect()),
        _ => TomlItem::Other,
    }
}

} // verus!
