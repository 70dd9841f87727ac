//! Application settings, the layout of the configuration directory, and the
//! naming of sessions after their working directory.
use vstd::prelude::*;
use crate::i18n::Lang;
use crate::text::{nat_decimal, str_eq};
use crate::trusted::{lower_of, lowercase};
use crate::types::{opt_str_view, opt_view};

verus! {

/// Settings of the status dashboard.
#[derive(Clone, Copy, Debug)]
pub struct DashboardConfig {
    pub poll_interval_secs: u64,
    pub stale_threshold_secs: i64,
}

/// The dashboard polls every two seconds by default.
pub fn default_poll_interval_secs() -> (r: u64)
    ensures
        r == 2,
{
    2
}

/// A working role is stale after five minutes by default.
pub fn default_stale_threshold_secs() -> (r: i64)
    ensures
        r == 300,
{
    300
}

impl Default for DashboardConfig {
    fn default() -> (r: DashboardConfig)
        ensures
            r.poll_interval_secs == 2,
            r.stale_threshold_secs == 300,
    {
        DashboardConfig {
            poll_interval_secs: default_poll_interval_secs(),
            stale_threshold_secs: default_stale_threshold_secs(),
        }
    }
}

/// The application settings.
#[derive(Clone, Copy, Debug)]
pub struct AppConfig {
    pub lang: Lang,
    pub dashboard: DashboardConfig,
}

impl Default for AppConfig {
    fn default() -> (r: AppConfig)
        ensures
            r.lang == Lang::En,
            r.dashboard.poll_interval_secs == 2,
            r.dashboard.stale_threshold_secs == 300,
    {
        AppConfig { lang: Lang::En, dashboard: DashboardConfig::default() }
    }
}

/// `dir` joined with `name`.
pub open spec fn joined(dir: Seq<char>, name: Seq<char>) -> Seq<char> {
    dir + seq!['/'] + name
}

fn join(dir: &str, name: &str) -> (r: String)
    ensures
        r@ == joined(dir@, name@),
{
    let mut s = dir.to_owned();
    s.append("/");
    proof {
        reveal_strlit("/");
    }
    s.append(name);
    assert(s@ =~= joined(dir@, name@));
    s
}

/// The directory of a session: `<config>/sessions/<name>`.
pub fn session_dir(config_dir: &str, session_name: &str) -> (r: String)
    ensures
        r@ == joined(joined(config_dir@, "sessions"@), session_name@),
{
    let sessions = join(config_dir, "sessions");
    join(sessions.as_str(), session_name)
}

/// The relay directory of a session: `<config>/sessions/<name>/relay`.
pub fn relay_dir(config_dir: &str, session_name: &str) -> (r: String)
    ensures
        r@ == joined(joined(joined(config_dir@, "sessions"@), session_name@), "relay"@),
{
    let dir = session_dir(config_dir, session_name);
    join(dir.as_str(), "relay")
}

/// The knowledge directory, shared by every session: `<config>/knowledge`.
pub fn knowledge_dir(config_dir: &str) -> (r: String)
    ensures
        r@ == joined(config_dir@, "knowledge"@),
{
    join(config_dir, "knowledge")
}

/// The directory of the notification plugin: `<config>/plugins`.
pub fn plugin_dir(config_dir: &str) -> (r: String)
    ensures
        r@ == joined(config_dir@, "plugins"@),
{
    join(config_dir, "plugins")
}

/// The session registry file: `<config>/registry.json`.
pub fn registry_path(config_dir: &str) -> (r: String)
    ensures
        r@ == joined(config_dir@, "registry.json"@),
{
    join(config_dir, "registry.json")
}

/// The characters a session name keeps: ASCII letters and digits, `-`, `_`.
pub open spec fn name_char(c: char) -> bool {
    ('a' <= c && c <= 'z') || ('A' <= c && c <= 'Z') || ('0' <= c && c <= '9') || c == '-' || c == '_'
}

/// The characters of `s` that a session name keeps, in order.
pub open spec fn kept(s: Seq<char>) -> Seq<char> {
    s.filter(|c: char| name_char(c))
}

/// The base session name for a directory name: `ovld-` and the kept
/// characters of the lower-cased name, or `ovld-unnamed` when none is kept
/// or the directory has no name.
pub open spec fn base_session_name(dirname: Option<Seq<char>>) -> Seq<char> {
    let k = match dirname {
        Some(d) => kept(lower_of(d)),
        None => Seq::empty(),
    };
    "ovld-"@ + if k.len() == 0 { "unnamed"@ } else { k }
}

/// Keeps the session-name characters of `s`.
pub fn keep_name_chars(s: &str) -> (r: String)
    ensures
        r@ == kept(s@),
{
    let n = s.unicode_len();
    let mut out = String::new();
    let mut i: usize = 0;
    while i < n
        invariant
            n == s@.len(),
            i <= n,
            out@ == kept(s@.subrange(0, i as int)),
        decreases n - i,
    {
        let c = s.get_char(i);
        proof {
            assert(s@.subrange(0, i + 1) =~= s@.subrange(0, i as int).push(c));
            s@.subrange(0, i as int).lemma_filter_push(c, |c: char| name_char(c));
        }
        let keep = ('a' <= c && c <= 'z') || ('A' <= c && c <= 'Z') || ('0' <= c && c <= '9') || c == '-'
            || c == '_';
        if keep {
            let piece = s.substring_char(i, i + 1);
            assert(piece@ =~= seq![c]);
            out.append(piece);
            assert(out@ =~= kept(s@.subrange(0, i as int)).push(c));
        }
        i = i + 1;
    }
    assert(s@.subrange(0, n as int) =~= s@);
    out
}

/// The base session name for a working directory's last component.
pub fn session_base_name(dirname: Option<&str>) -> (r: String)
    ensures
        r@ == base_session_name(opt_str_view(dirname)),
{
    let k = match dirname {
        Some(d) => {
            let lower = lowercase(d);
            keep_name_chars(lower.as_str())
        },
        None => String::new(),
    };
    let mut name = String::from_str("ovld-");
    if k.unicode_len() == 0 {
        name.append("unnamed");
    } else {
        name.append(k.as_str());
    }
    name
}

/// A registered session: its name, the working directory it runs in, and
/// when it started (milliseconds since the epoch).
pub struct SessionEntry {
    pub name: String,
    pub cwd: String,
    pub started_at: i64,
}

/// The value of a registered session.
pub open spec fn entry_view(e: SessionEntry) -> (Seq<char>, Seq<char>, i64) {
    (e.name@, e.cwd@, e.started_at)
}

/// The names, directories and start times of registered sessions.
pub open spec fn entries_view(v: Seq<SessionEntry>) -> Seq<(Seq<char>, Seq<char>, i64)> {
    v.map_values(|e: SessionEntry| entry_view(e))
}

/// Keeps the entries not named `name`.
pub open spec fn not_named(name: Seq<char>) -> spec_fn((Seq<char>, Seq<char>, i64)) -> bool {
    |e: (Seq<char>, Seq<char>, i64)| e.0 != name
}

/// No two entries share a name.
pub open spec fn names_unique(s: Seq<(Seq<char>, Seq<char>, i64)>) -> bool {
    forall|i: int, j: int| 0 <= i < j < s.len() ==> s[i].0 != s[j].0
}

/// The sessions that are registered, one entry per name.
pub struct SessionRegistry {
    sessions: Vec<SessionEntry>,
}

impl View for SessionRegistry {
    type V = Seq<(Seq<char>, Seq<char>, i64)>;

    closed spec fn view(&self) -> Seq<(Seq<char>, Seq<char>, i64)> {
        entries_view(self.sessions@)
    }
}

fn copy_entry(e: &SessionEntry) -> (r: SessionEntry)
    ensures
        entry_view(r) == entry_view(*e),
{
    SessionEntry { name: e.name.clone(), cwd: e.cwd.clone(), started_at: e.started_at }
}

impl SessionRegistry {
    /// An empty registry.
    pub fn new() -> (r: SessionRegistry)
        ensures
            r@ == Seq::<(Seq<char>, Seq<char>, i64)>::empty(),
    {
        let r = SessionRegistry { sessions: Vec::new() };
        assert(r@ =~= Seq::<(Seq<char>, Seq<char>, i64)>::empty());
        r
    }

    /// The registered sessions.
    pub fn entries(&self) -> (r: &Vec<SessionEntry>)
        ensures
            entries_view(r@) == self@,
    {
        &self.sessions
    }

    /// How many sessions are registered.
    pub fn len(&self) -> (r: usize)
        ensures
            r == self@.len(),
    {
        self.sessions.len()
    }

    /// Is a session named `name` registered?
    pub fn contains(&self, name: &str) -> (r: bool)
        ensures
            r == exists|i: int| 0 <= i < self@.len() && (#[trigger] self@[i]).0 == name@,
    {
        let mut i: usize = 0;
        while i < self.sessions.len()
            invariant
                i <= self@.len(),
                self@ == entries_view(self.sessions@),
                forall|k: int| 0 <= k < i ==> (#[trigger] self@[k]).0 != name@,
            decreases self@.len() - i,
        {
            if str_eq(self.sessions[i].name.as_str(), name) {
                assert(self@[i as int].0 == name@);
                return true;
            }
            i = i + 1;
        }
        false
    }

    /// Removes the session named `name`; nothing changes if there is none.
    pub fn unregister(&mut self, name: &str)
        requires
            names_unique(old(self)@),
        ensures
            final(self)@ == old(self)@.filter(not_named(name@)),
            names_unique(final(self)@),
    {
        let ghost all = self@;
        let mut kept: Vec<SessionEntry> = Vec::new();
        let mut i: usize = 0;
        while i < self.sessions.len()
            invariant
                i <= all.len(),
                all == entries_view(self.sessions@),
                all == old(self)@,
                entries_view(kept@) == all.subrange(0, i as int).filter(not_named(name@)),
            decreases all.len() - i,
        {
            let ghost before = all.subrange(0, i as int);
            proof {
                assert(all.subrange(0, i + 1) =~= before.push(all[i as int]));
                before.lemma_filter_push(all[i as int], not_named(name@));
            }
            if !str_eq(self.sessions[i].name.as_str(), name) {
                let ghost prev = kept@;
                kept.push(copy_entry(&self.sessions[i]));
                assert(entries_view(kept@) =~= entries_view(prev).push(all[i as int]));
            }
            i = i + 1;
        }
        assert(all.subrange(0, all.len() as int) =~= all);
        self.sessions = kept;
        proof {
            lemma_filter_keeps_unique(all, not_named(name@));
        }
    }

    /// Registers the session `name` for `cwd`, replacing any entry of that
    /// name.
    pub fn register(&mut self, name: &str, cwd: &str, started_at: i64)
        requires
            names_unique(old(self)@),
        ensures
            final(self)@ == old(self)@.filter(not_named(name@)).push((name@, cwd@, started_at)),
            names_unique(final(self)@),
    {
        self.unregister(name);
        let ghost prev = self@;
        self.sessions.push(SessionEntry { name: name.to_owned(), cwd: cwd.to_owned(), started_at });
        assert(self@ =~= prev.push((name@, cwd@, started_at)));
        assert forall|i: int| 0 <= i < prev.len() implies prev[i].0 != name@ by {
            assert(prev.contains(prev[i]));
        }
    }

    /// The first session registered for `cwd`, if any.
    pub fn find_by_cwd(&self, cwd: &str) -> (r: Option<SessionEntry>)
        ensures
            match r {
                Some(e) => exists|i: int|
                    0 <= i < self@.len() && self@[i] == entry_view(e) && self@[i].1 == cwd@ && forall|k: int|
                        0 <= k < i ==> (#[trigger] self@[k]).1 != cwd@,
                None => forall|k: int| 0 <= k < self@.len() ==> (#[trigger] self@[k]).1 != cwd@,
            },
    {
        let mut i: usize = 0;
        while i < self.sessions.len()
            invariant
                i <= self@.len(),
                self@ == entries_view(self.sessions@),
                forall|k: int| 0 <= k < i ==> (#[trigger] self@[k]).1 != cwd@,
            decreases self@.len() - i,
        {
            if str_eq(self.sessions[i].cwd.as_str(), cwd) {
                let e = copy_entry(&self.sessions[i]);
                assert(self@[i as int] == entry_view(e));
                return Some(e);
            }
            i = i + 1;
        }
        None
    }
}

/// Filtering keeps the names of a list unique.
pub proof fn lemma_filter_keeps_unique(
    s: Seq<(Seq<char>, Seq<char>, i64)>,
    p: spec_fn((Seq<char>, Seq<char>, i64)) -> bool,
)
    requires
        names_unique(s),
    ensures
        names_unique(s.filter(p)),
        forall|e: (Seq<char>, Seq<char>, i64)| #[trigger] s.filter(p).contains(e) ==> s.contains(e) && p(e),
    decreases s.len(),
{
    broadcast use vstd::seq_lib::group_filter_ensures;
    reveal(Seq::filter);
    if s.len() > 0 {
        let init = s.drop_last();
        assert(names_unique(init));
        lemma_filter_keeps_unique(init, p);
        assert forall|e: (Seq<char>, Seq<char>, i64)| #[trigger] s.filter(p).contains(e) implies s.contains(e) && p(e) by {
            if init.filter(p).contains(e) {
                let k = choose|k: int| 0 <= k < init.len() && init[k] == e;
                assert(s[k] == e);
            } else {
                assert(e == s.last());
            }
        }
        if p(s.last()) {
            let f = init.filter(p);
            assert forall|i: int, j: int| 0 <= i < j < f.push(s.last()).len() implies f.push(s.last())[i].0
                != f.push(s.last())[j].0 by {
                if j == f.len() {
                    assert(f.contains(f[i]));
                    let k = choose|k: int| 0 <= k < init.len() && init[k] == f[i];
                    assert(s[k] == init[k]);
                }
            }
        }
    }
}

/// `name` is held by a session registered for another directory than `cwd`.
pub open spec fn name_blocked(taken: Seq<(Seq<char>, Seq<char>, i64)>, name: Seq<char>, cwd: Seq<char>) -> bool {
    exists|j: int| 0 <= j < taken.len() && (#[trigger] taken[j]).0 == name && taken[j].1 != cwd
}

/// The `i`-th fallback name: `<base>-<i>`.
pub open spec fn suffixed(base: Seq<char>, i: nat) -> Seq<char> {
    base + seq!['-'] + nat_decimal(i)
}

/// `r` is the session name picked for `cwd` from `base`: `base` itself
/// unless a session for another directory holds it; else `<base>-<i>` for
/// the least `i >= 2` that no such session holds; `None` only if every
/// suffix up to the number of registered sessions plus two is held.
pub open spec fn picked_name(
    base: Seq<char>,
    taken: Seq<(Seq<char>, Seq<char>, i64)>,
    cwd: Seq<char>,
    r: Option<Seq<char>>,
) -> bool {
    &&& !name_blocked(taken, base, cwd) ==> r == Some(base)
    &&& name_blocked(taken, base, cwd) ==> match r {
        Some(name) => exists|i: nat|
            2 <= i && name == suffixed(base, i) && !name_blocked(taken, name, cwd) && forall|k: nat|
                2 <= k < i ==> name_blocked(taken, #[trigger] suffixed(base, k), cwd),
        None => forall|k: nat| 2 <= k <= taken.len() + 2 ==> name_blocked(taken, #[trigger] suffixed(base, k), cwd),
    }
}

fn blocked(taken: &Vec<SessionEntry>, name: &str, cwd: &str) -> (r: bool)
    ensures
        r == name_blocked(entries_view(taken@), name@, cwd@),
{
    let mut j: usize = 0;
    while j < taken.len()
        invariant
            j <= taken@.len(),
            forall|k: int|
                0 <= k < j ==> !((#[trigger] entries_view(taken@)[k]).0 == name@ && entries_view(taken@)[k].1 != cwd@),
        decreases taken@.len() - j,
    {
        if str_eq(taken[j].name.as_str(), name) && !str_eq(taken[j].cwd.as_str(), cwd) {
            assert(entries_view(taken@)[j as int].0 == name@);
            return true;
        }
        j = j + 1;
    }
    false
}

/// Picks the session name for `cwd` from `base`; see `picked_name`.
pub fn pick_session_name(base: &str, registry: &SessionRegistry, cwd: &str) -> (r: Option<String>)
    ensures
        picked_name(base@, registry@, cwd@, opt_view(r)),
{
    let taken = registry.entries();
    if !blocked(taken, base, cwd) {
        return Some(base.to_owned());
    }
    let n = taken.len();
    let mut k: usize = 0;
    while k <= n
        invariant
            n == taken@.len(),
            entries_view(taken@) == registry@,
            k <= n,
            name_blocked(entries_view(taken@), base@, cwd@),
            forall|m: nat| 2 <= m < k + 2 ==> name_blocked(entries_view(taken@), #[trigger] suffixed(base@, m), cwd@),
        decreases n - k,
    {
        let i: u128 = k as u128 + 2;
        let mut candidate = base.to_owned();
        candidate.append("-");
        proof {
            reveal_strlit("-");
        }
        let digits = crate::text::u128_decimal(i);
        candidate.append(digits.as_str());
        assert(candidate@ =~= suffixed(base@, i as nat));
        if !blocked(taken, candidate.as_str(), cwd) {
            return Some(candidate);
        }
        if k == n {
            return None;
        }
        k = k + 1;
    }
    None
}

/// The session name for the working directory `cwd`, whose last component
/// is `dirname`: its base name, or the first free suffixed form of it.
pub fn derive_session_name(dirname: Option<&str>, registry: &SessionRegistry, cwd: &str) -> (r: Option<String>)
    ensures
        picked_name(base_session_name(opt_str_view(dirname)), registry@, cwd@, opt_view(r)),
{
    let base = session_base_name(dirname);
    pick_session_name(base.as_str(), registry, cwd)
}

/// Removes the session named `name` from the registry.
pub fn unregister_session(registry: &mut SessionRegistry, name: &str)
    requires
        names_unique(old(registry)@),
    ensures
        final(registry)@ == old(registry)@.filter(not_named(name@)),
        names_unique(final(registry)@),
{
    registry.unregister(name);
}

/// The settings to run with: those read from the configuration file, or
/// the defaults when there are none.
pub fn load_config(parsed: Option<AppConfig>) -> (r: AppConfig)
    ensures
        parsed is Some ==> r == parsed->0,
        parsed is None ==> r.lang == Lang::En && r.dashboard.poll_interval_secs == 2
            && r.dashboard.stale_threshold_secs == 300,
{
    match parsed {
        Some(c) => c,
        None => AppConfig::default(),
    }
}

} // verus!
