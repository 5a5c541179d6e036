use vstd::prelude::*;

use crate::event::{Event, Key};

verus! {

/// The interaction modes that a binding belongs to, or the mode the
/// application is currently in.
#[derive(Debug, Clone, Copy, PartialEq, Eq, Structural, PartialOrd, Ord, Hash)]
pub struct Context {
    pub is_search: bool,
    pub is_tracklist: bool,
    pub is_playlist: bool,
}

impl Context {
    /// At least one mode is set.
    pub open spec fn valid(self) -> bool {
        self.is_search || self.is_tracklist || self.is_playlist
    }

    /// Every mode set in `self` is also set in `other`.
    pub open spec fn sub_of(self, other: Context) -> bool {
        &&& (self.is_search ==> other.is_search)
        &&& (self.is_tracklist ==> other.is_tracklist)
        &&& (self.is_playlist ==> other.is_playlist)
    }

    /// Position in the fixed order of contexts: the search flag weighs most,
    /// then the tracklist flag, then the playlist flag (false before true).
    pub open spec fn rank(self) -> int {
        (if self.is_search { 4int } else { 0int }) + (if self.is_tracklist { 2int } else { 0int })
            + (if self.is_playlist { 1int } else { 0int })
    }

    pub open spec fn of_flags(is_search: bool, is_tracklist: bool, is_playlist: bool) -> Context {
        Context { is_search, is_tracklist, is_playlist }
    }

    /// The context whose rank is `k`, for `0 <= k < 8`.
    pub open spec fn of_rank(k: int) -> Context {
        Context { is_search: k >= 4, is_tracklist: k % 4 >= 2, is_playlist: k % 2 == 1 }
    }

    /// A context with the given flags; `None` when no flag is set.
    pub fn new(is_search: bool, is_tracklist: bool, is_playlist: bool) -> (r: Option<Context>)
        ensures
            r == (if is_search || is_tracklist || is_playlist {
                Some(Context::of_flags(is_search, is_tracklist, is_playlist))
            } else {
                None
            }),
    {
        if is_search || is_tracklist || is_playlist {
            Some(Context { is_search, is_tracklist, is_playlist })
        } else {
            None
        }
    }

    pub fn is_valid(self) -> (r: bool)
        ensures
            r == self.valid(),
    {
        self.is_search || self.is_tracklist || self.is_playlist
    }

    pub fn is_sub(self, other: Context) -> (r: bool)
        ensures
            r == self.sub_of(other),
    {
        (!self.is_search || other.is_search) && (!self.is_tracklist || other.is_tracklist) && (
        !self.is_playlist || other.is_playlist)
    }

    pub fn search() -> (r: Context)
        ensures
            r == Context::of_flags(true, false, false),
    {
        Context { is_search: true, is_tracklist: false, is_playlist: false }
    }

    pub fn tracklist() -> (r: Context)
        ensures
            r == Context::of_flags(false, true, false),
    {
        Context { is_search: false, is_tracklist: true, is_playlist: false }
    }

    pub fn playlist() -> (r: Context)
        ensures
            r == Context::of_flags(false, false, true),
    {
        Context { is_search: false, is_tracklist: false, is_playlist: true }
    }

    pub fn all() -> (r: Context)
        ensures
            r == Context::of_flags(true, true, true),
    {
        Context { is_search: true, is_tracklist: true, is_playlist: true }
    }

    /// The union of the modes of both contexts.
    pub fn bitor(self, rhs: Context) -> (r: Context)
        ensures
            r == Context::of_flags(
                self.is_search || rhs.is_search,
                self.is_tracklist || rhs.is_tracklist,
                self.is_playlist || rhs.is_playlist,
            ),
    {
        Context {
            is_search: self.is_search || rhs.is_search,
            is_tracklist: self.is_tracklist || rhs.is_tracklist,
            is_playlist: self.is_playlist || rhs.is_playlist,
        }
    }

    fn of_rank_exec(k: u8) -> (r: Context)
        requires
            k < 8,
        ensures
            r == Context::of_rank(k as int),
    {
        Context { is_search: k >= 4, is_tracklist: k % 4 >= 2, is_playlist: k % 2 == 1 }
    }
}

/// Two valid contexts that contain each other are equal, and only then.
pub proof fn lemma_sub_antisymmetric(a: Context, b: Context)
    requires
        a.valid(),
        b.valid(),
    ensures
        (a.sub_of(b) && b.sub_of(a)) <==> a == b,
{
}

/// Every valid context is contained in the context of all modes.
pub proof fn lemma_sub_all(a: Context)
    requires
        a.valid(),
    ensures
        a.sub_of(Context::of_flags(true, true, true)),
{
}

/// A command of the application.
#[derive(Debug, Clone, Copy, PartialEq, Eq, Structural, Hash)]
pub enum Action {
    Quit,
    PointerUp,
    PointerDown,
    NextTrack,
    PrevTrack,
    FlipPause,
    Stop,
    Forward5,
    Backward5,
    Refresh,
    AddAll,
    ShowPlaylist,
    SwitchToAlbums,
    SwitchToTracks,
    SwitchToArtists,
    Enter,
    SwitchView,
    /// A typed character; never bound by configuration.
    Char(char),
    Backspace,
}

/// An action together with the contexts it applies in.
#[derive(Debug, Clone, Copy, PartialEq, Eq, Structural, Hash)]
pub struct ContextedAction {
    pub context: Context,
    pub action: Action,
}

/// The entries of `s` whose context is `c`, each distinct entry once, in the
/// order of their first occurrence.
pub open spec fn context_group(s: Seq<ContextedAction>, c: Context) -> Seq<ContextedAction>
    decreases s.len(),
{
    if s.len() == 0 {
        Seq::empty()
    } else {
        let g = context_group(s.drop_last(), c);
        let x = s.last();
        if x.context == c && !g.contains(x) {
            g.push(x)
        } else {
            g
        }
    }
}

/// The groups of the contexts of rank `1..=k`, one after the other.
pub open spec fn groups_upto(s: Seq<ContextedAction>, k: int) -> Seq<ContextedAction>
    decreases k,
{
    if k <= 0 {
        Seq::empty()
    } else {
        groups_upto(s, k - 1) + context_group(s, Context::of_rank(k))
    }
}

/// A row of the binding table: the entries with a valid context, sorted by
/// the rank of their context (stably), duplicates removed.
pub open spec fn normalized(s: Seq<ContextedAction>) -> Seq<ContextedAction> {
    groups_upto(s, 7)
}

/// The table built from raw rows: each row normalized, empty rows dropped.
pub open spec fn table_of(raw: Seq<(Event, Seq<ContextedAction>)>) -> Seq<
    (Event, Seq<ContextedAction>),
>
    decreases raw.len(),
{
    if raw.len() == 0 {
        Seq::empty()
    } else {
        let t = table_of(raw.drop_last());
        let n = normalized(raw.last().1);
        if n.len() > 0 {
            t.push((raw.last().0, n))
        } else {
            t
        }
    }
}

/// Raw rows with each list of entries seen as a sequence.
pub open spec fn raw_view(raw: Seq<(Event, Vec<ContextedAction>)>) -> Seq<
    (Event, Seq<ContextedAction>),
> {
    raw.map_values(|p: (Event, Vec<ContextedAction>)| (p.0, p.1@))
}

/// The row of the first entry of `rows` for `e`.
pub open spec fn lookup(rows: Seq<(Event, Seq<ContextedAction>)>, e: Event) -> Option<
    Seq<ContextedAction>,
>
    decreases rows.len(),
{
    if rows.len() == 0 {
        None
    } else if rows[0].0 == e {
        Some(rows[0].1)
    } else {
        lookup(rows.drop_first(), e)
    }
}

/// The action of the first entry of `row` whose context contains `c`.
pub open spec fn first_match(row: Seq<ContextedAction>, c: Context) -> Option<Action>
    decreases row.len(),
{
    if row.len() == 0 {
        None
    } else if c.sub_of(row[0].context) {
        Some(row[0].action)
    } else {
        first_match(row.drop_first(), c)
    }
}

/// The built-in action of an event, whatever the context.
pub open spec fn default_action_of(e: Event) -> Option<Action> {
    match e {
        Event::Key(k) => match k {
            Key::Up => Some(Action::PointerUp),
            Key::Down => Some(Action::PointerDown),
            Key::Right => Some(Action::NextTrack),
            Key::Left => Some(Action::PrevTrack),
            Key::Delete => Some(Action::Quit),
            Key::Ctrl(c) => if c == 'c' {
                Some(Action::Quit)
            } else if c == 'p' {
                Some(Action::FlipPause)
            } else if c == 'r' {
                Some(Action::Refresh)
            } else if c == 's' {
                Some(Action::Stop)
            } else if c == 'a' {
                Some(Action::AddAll)
            } else {
                None
            },
            Key::Alt(c) => if c == 'p' {
                Some(Action::ShowPlaylist)
            } else if c == 'a' {
                Some(Action::SwitchToAlbums)
            } else if c == 't' {
                Some(Action::SwitchToTracks)
            } else if c == 's' {
                Some(Action::SwitchToArtists)
            } else {
                None
            },
            Key::Char(c) => if c == ']' {
                Some(Action::Forward5)
            } else if c == '[' {
                Some(Action::Backward5)
            } else if c == '\n' {
                Some(Action::Enter)
            } else if c == '\t' {
                Some(Action::SwitchView)
            } else {
                Some(Action::Char(c))
            },
            Key::Backspace => Some(Action::Backspace),
            _ => None,
        },
        _ => None,
    }
}

/// What the table resolves `e` to in context `c`: the first bound entry whose
/// context contains `c`, else the built-in action.
pub open spec fn resolve(rows: Seq<(Event, Seq<ContextedAction>)>, c: Context, e: Event) -> Option<
    Action,
> {
    match lookup(rows, e) {
        Some(row) => match first_match(row, c) {
            Some(a) => Some(a),
            None => default_action_of(e),
        },
        None => default_action_of(e),
    }
}

/// A row of a built table: not empty, every context valid, sorted by the
/// rank of the contexts, no entry twice.
pub open spec fn row_ok(row: Seq<ContextedAction>) -> bool {
    &&& row.len() > 0
    &&& forall|i: int| 0 <= i < row.len() ==> (#[trigger] row[i]).context.valid()
    &&& forall|i: int, j: int|
        0 <= i < j < row.len() ==> (#[trigger] row[i]).context.rank() <= (#[trigger] row[j]).context.rank()
    &&& row.no_duplicates()
}

pub open spec fn table_ok(rows: Seq<(Event, Seq<ContextedAction>)>) -> bool {
    forall|i: int| 0 <= i < rows.len() ==> row_ok(#[trigger] rows[i].1)
}

proof fn lemma_rank_of_rank_inverse(k: int)
    requires
        0 <= k < 8,
    ensures
        Context::of_rank(k).rank() == k,
{
}

proof fn lemma_group(s: Seq<ContextedAction>, c: Context)
    ensures
        forall|i: int|
            0 <= i < context_group(s, c).len() ==> (#[trigger] context_group(s, c)[i]).context == c,
        context_group(s, c).no_duplicates(),
    decreases s.len(),
{
    if s.len() > 0 {
        lemma_group(s.drop_last(), c);
    }
}

proof fn lemma_groups_upto(s: Seq<ContextedAction>, k: int)
    requires
        0 <= k <= 7,
    ensures
        forall|i: int|
            0 <= i < groups_upto(s, k).len() ==> 1 <= (#[trigger] groups_upto(s, k)[i]).context.rank()
                <= k,
        forall|i: int|
            0 <= i < groups_upto(s, k).len() ==> (#[trigger] groups_upto(s, k)[i]).context.valid(),
        forall|i: int, j: int|
            0 <= i < j < groups_upto(s, k).len() ==> (#[trigger] groups_upto(s, k)[i]).context.rank()
                <= (#[trigger] groups_upto(s, k)[j]).context.rank(),
        groups_upto(s, k).no_duplicates(),
    decreases k,
{
    if k > 0 {
        lemma_groups_upto(s, k - 1);
        lemma_group(s, Context::of_rank(k));
        lemma_rank_of_rank_inverse(k);
        let a = groups_upto(s, k - 1);
        let g = context_group(s, Context::of_rank(k));
        assert(groups_upto(s, k) == a + g);
        assert forall|i: int| 0 <= i < (a + g).len() implies 1 <= (#[trigger] (a + g)[i]).context.rank()
            <= k && (a + g)[i].context.valid() by {
            if i >= a.len() {
                assert((a + g)[i] == g[i - a.len()]);
            }
        }
        assert forall|i: int, j: int|
            0 <= i < j < (a + g).len() implies (#[trigger] (a + g)[i]).context.rank() <= (
            #[trigger] (a + g)[j]).context.rank() by {
            if j >= a.len() {
                assert((a + g)[j] == g[j - a.len()]);
                if i >= a.len() {
                    assert((a + g)[i] == g[i - a.len()]);
                }
            }
        }
        assert forall|i: int, j: int|
            0 <= i < (a + g).len() && 0 <= j < (a + g).len() && i != j implies (a + g)[i] != (a
                + g)[j] by {
            if i >= a.len() {
                assert((a + g)[i] == g[i - a.len()]);
            }
            if j >= a.len() {
                assert((a + g)[j] == g[j - a.len()]);
            }
        }
    }
}

/// Every row of a built table is well formed.
proof fn lemma_table_ok(raw: Seq<(Event, Seq<ContextedAction>)>)
    ensures
        table_ok(table_of(raw)),
    decreases raw.len(),
{
    if raw.len() > 0 {
        lemma_table_ok(raw.drop_last());
        lemma_groups_upto(raw.last().1, 7);
    }
}

/// The bindings of events to actions, by context.
#[derive(Debug)]
pub struct BindingConfig {
    bindings: Vec<(Event, Vec<ContextedAction>)>,
}

impl BindingConfig {
    pub open spec fn wf(&self) -> bool {
        table_ok(self@)
    }
}

impl View for BindingConfig {
    type V = Seq<(Event, Seq<ContextedAction>)>;

    closed spec fn view(&self) -> Seq<(Event, Seq<ContextedAction>)> {
        raw_view(self.bindings@)
    }
}

impl Default for BindingConfig {
    fn default() -> (r: BindingConfig)
        ensures
            r@ == Seq::<(Event, Seq<ContextedAction>)>::empty(),
            r.wf(),
    {
        let r = BindingConfig { bindings: Vec::new() };
        assert(r@ =~= Seq::<(Event, Seq<ContextedAction>)>::empty());
        r
    }
}

fn contains_entry(v: &Vec<ContextedAction>, x: ContextedAction) -> (r: bool)
    ensures
        r == v@.contains(x),
{
    let mut j: usize = 0;
    while j < v.len()
        invariant
            j <= v.len(),
            forall|k: int| 0 <= k < j ==> v@[k] != x,
        decreases v.len() - j,
    {
        if v[j] == x {
            return true;
        }
        j += 1;
    }
    false
}

fn group_of(entries: &Vec<ContextedAction>, c: Context) -> (r: Vec<ContextedAction>)
    ensures
        r@ == context_group(entries@, c),
{
    let mut r: Vec<ContextedAction> = Vec::new();
    let mut i: usize = 0;
    while i < entries.len()
        invariant
            i <= entries.len(),
            r@ == context_group(entries@.subrange(0, i as int), c),
        decreases entries.len() - i,
    {
        let x = entries[i];
        assert(entries@.subrange(0, i + 1).drop_last() =~= entries@.subrange(0, i as int));
        if x.context == c && !contains_entry(&r, x) {
            r.push(x);
        }
        i += 1;
    }
    assert(entries@.subrange(0, entries@.len() as int) =~= entries@);
    r
}

/// Sorts the entries by the rank of their context, drops those with no mode
/// and removes duplicates.
pub fn normalize(entries: &Vec<ContextedAction>) -> (r: Vec<ContextedAction>)
    ensures
        r@ == normalized(entries@),
{
    let mut r: Vec<ContextedAction> = Vec::new();
    let mut k: u8 = 1;
    while k <= 7
        invariant
            1 <= k <= 8,
            r@ == groups_upto(entries@, k - 1),
        decreases 8 - k,
    {
        let c = Context::of_rank_exec(k);
        let mut g = group_of(entries, c);
        r.append(&mut g);
        k += 1;
    }
    r
}

impl BindingConfig {
    /// Builds the table: every row normalized, rows left empty dropped.
    pub fn from_raw(raw: Vec<(Event, Vec<ContextedAction>)>) -> (r: BindingConfig)
        ensures
            r@ == table_of(raw_view(raw@)),
            r.wf(),
    {
        proof {
            lemma_table_ok(raw_view(raw@));
        }
        let mut bindings: Vec<(Event, Vec<ContextedAction>)> = Vec::new();
        let mut i: usize = 0;
        while i < raw.len()
            invariant
                i <= raw.len(),
                raw_view(bindings@) == table_of(raw_view(raw@).subrange(0, i as int)),
            decreases raw.len() - i,
        {
            let n = normalize(&raw[i].1);
            assert(raw_view(raw@).subrange(0, i + 1).drop_last() =~= raw_view(raw@).subrange(
                0,
                i as int,
            ));
            if n.len() > 0 {
                let ghost before = bindings@;
                bindings.push((raw[i].0, n));
                assert(raw_view(bindings@) =~= raw_view(before).push((raw@[i as int].0, n@)));
            }
            i += 1;
        }
        assert(raw_view(raw@).subrange(0, raw@.len() as int) =~= raw_view(raw@));
        BindingConfig { bindings }
    }

    /// The action that `event` resolves to in `context`.
    pub fn action(&self, context: Context, event: &Event) -> (r: Option<Action>)
        ensures
            r == resolve(self@, context, *event),
    {
        let mut i: usize = 0;
        assert(self@.subrange(0, self@.len() as int) =~= self@);
        while i < self.bindings.len()
            invariant
                i <= self.bindings.len(),
                lookup(self@, *event) == lookup(self@.subrange(i as int, self@.len() as int), *event),
            decreases self.bindings.len() - i,
        {
            assert(self@.subrange(i as int, self@.len() as int).drop_first() =~= self@.subrange(
                i + 1,
                self@.len() as int,
            ));
            if self.bindings[i].0 == *event {
                let row = &self.bindings[i].1;
                let mut j: usize = 0;
                assert(row@.subrange(0, row@.len() as int) =~= row@);
                while j < row.len()
                    invariant
                        j <= row.len(),
                        lookup(self@, *event) == Some(row@),
                        first_match(row@, context) == first_match(
                            row@.subrange(j as int, row@.len() as int),
                            context,
                        ),
                    decreases row.len() - j,
                {
                    assert(row@.subrange(j as int, row@.len() as int).drop_first() =~= row@.subrange(
                        j + 1,
                        row@.len() as int,
                    ));
                    if context.is_sub(row[j].context) {
                        return Some(row[j].action);
                    }
                    j += 1;
                }
                return BindingConfig::default_action(event);
            }
            i += 1;
        }
        BindingConfig::default_action(event)
    }

    /// The built-in action of `event`, used when no binding matches.
    pub fn default_action(event: &Event) -> (r: Option<Action>)
        ensures
            r == default_action_of(*event),
    {
        let key = match event {
            Event::Key(k) => *k,
            _ => {
                return None;
            },
        };
        match key {
            Key::Up => Some(Action::PointerUp),
            Key::Down => Some(Action::PointerDown),
            Key::Right => Some(Action::NextTrack),
            Key::Left => Some(Action::PrevTrack),
            Key::Delete => Some(Action::Quit),
            Key::Ctrl('c') => Some(Action::Quit),
            Key::Ctrl('p') => Some(Action::FlipPause),
            Key::Char(']') => Some(Action::Forward5),
            Key::Char('[') => Some(Action::Backward5),
            Key::Ctrl('r') => Some(Action::Refresh),
            Key::Ctrl('s') => Some(Action::Stop),
            Key::Ctrl('a') => Some(Action::AddAll),
            Key::Alt('p') => Some(Action::ShowPlaylist),
            Key::Alt('a') => Some(Action::SwitchToAlbums),
            Key::Alt('t') => Some(Action::SwitchToTracks),
            Key::Alt('s') => Some(Action::SwitchToArtists),
            Key::Char('\n') => Some(Action::Enter),
            Key::Char('\t') => Some(Action::SwitchView),
            Key::Char(c) => Some(Action::Char(c)),
            Key::Backspace => Some(Action::Backspace),
            _ => None,
        }
    }
}

/// Building a table twice from the same raw rows gives tables that resolve
/// every event in every context alike.
pub proof fn lemma_rebuild_resolves_alike(
    raw: Seq<(Event, Seq<ContextedAction>)>,
    t1: Seq<(Event, Seq<ContextedAction>)>,
    t2: Seq<(Event, Seq<ContextedAction>)>,
)
    requires
        t1 == table_of(raw),
        t2 == table_of(raw),
    ensures
        forall|c: Context, e: Event| resolve(t1, c, e) == resolve(t2, c, e),
{
}

} // verus!
