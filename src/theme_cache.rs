use vstd::prelude::*;
use vstd::string::StringExecFns;
use crate::config::CacheConfig;
use crate::error::ThemeError;
use crate::text::str_equals;
use crate::theme::SysTheme;

verus! {

/// What a cache holds: the themes of its snapshot, when the snapshot was last
/// refreshed (`None` before the first refresh and after a full invalidation),
/// and its settings.
pub ghost struct CacheState {
    pub themes: Seq<SysTheme>,
    pub refreshed_at: Option<u64>,
    pub config: CacheConfig,
}

/// Which cached themes an invalidation removes.
#[derive(Debug, Clone)]
pub enum InvalidationScope {
    /// Every theme.
    All,
    /// The theme with this directory name.
    Theme(String),
    /// The themes with any of these directory names.
    Themes(Vec<String>),
    /// Every custom theme.
    AllCustom,
    /// Every system theme.
    AllSystem,
}

/// How long a snapshot stays valid, in milliseconds.
pub open spec fn ttl_ms(c: CacheConfig) -> int {
    c.cache_duration_minutes as int * 60000
}

/// A snapshot is valid at `now` iff it has been refreshed, holds at least one
/// theme, and is younger than the configured duration.
pub open spec fn cache_valid(s: CacheState, now: u64) -> bool {
    &&& s.refreshed_at is Some
    &&& s.themes.len() > 0
    &&& now - s.refreshed_at->0 < ttl_ms(s.config)
}

/// Whether `ids` names directory `d`.
pub open spec fn names(ids: Seq<String>, d: Seq<char>) -> bool {
    exists|i: int| 0 <= i < ids.len() && ids[i]@ == d
}

/// Whether some theme of `themes` lives in directory `d`.
pub open spec fn has_dir(themes: Seq<SysTheme>, d: Seq<char>) -> bool {
    exists|i: int| 0 <= i < themes.len() && themes[i].dir@ == d
}

/// Whether an invalidation of `scope` removes theme `t`.
pub open spec fn removes(scope: InvalidationScope, t: SysTheme) -> bool {
    match scope {
        InvalidationScope::All => true,
        InvalidationScope::Theme(id) => t.dir@ == id@,
        InvalidationScope::Themes(ids) => names(ids@, t.dir@),
        InvalidationScope::AllCustom => t.is_custom,
        InvalidationScope::AllSystem => t.is_system,
    }
}

/// The themes that survive an invalidation of `scope`, in their order.
pub open spec fn surviving(themes: Seq<SysTheme>, scope: InvalidationScope) -> Seq<SysTheme> {
    themes.filter(|t: SysTheme| !removes(scope, t))
}

/// The state after an invalidation of `scope`. A full invalidation also forgets
/// the refresh time; a scoped one keeps it.
pub open spec fn invalidated(s: CacheState, scope: InvalidationScope) -> CacheState {
    match scope {
        InvalidationScope::All => CacheState { themes: Seq::empty(), refreshed_at: None, ..s },
        _ => CacheState { themes: surviving(s.themes, scope), ..s },
    }
}

/// A partial update: the cached themes whose directory the update does not name,
/// followed by the update's themes.
pub open spec fn merged(cached: Seq<SysTheme>, update: Seq<SysTheme>) -> Seq<SysTheme> {
    cached.filter(|t: SysTheme| !has_dir(update, t.dir@)) + update
}

/// The themes a snapshot would hold after storing `update`.
pub open spec fn stored_themes(s: CacheState, update: Seq<SysTheme>, is_partial: bool) -> Seq<
    SysTheme,
> {
    if is_partial {
        merged(s.themes, update)
    } else {
        update
    }
}

/// Whether storing `update` keeps the snapshot within its configured size.
pub open spec fn fits(s: CacheState, update: Seq<SysTheme>, is_partial: bool) -> bool {
    stored_themes(s, update, is_partial).len() <= s.config.max_cache_size
}

/// The state after storing `update` at time `now`, when it fits.
pub open spec fn stored(s: CacheState, update: Seq<SysTheme>, is_partial: bool, now: u64) -> CacheState {
    CacheState { themes: stored_themes(s, update, is_partial), refreshed_at: Some(now), ..s }
}

/// The last known-good snapshot of all themes, with time-based validity and
/// scoped invalidation. Times are milliseconds on a clock of the caller's choice.
#[derive(Debug)]
pub struct ThemeCache {
    themes: Vec<SysTheme>,
    refreshed_at: Option<u64>,
    config: CacheConfig,
}

impl View for ThemeCache {
    type V = CacheState;

    closed spec fn view(&self) -> CacheState {
        CacheState { themes: self.themes@, refreshed_at: self.refreshed_at, config: self.config }
    }
}

fn copy_themes(themes: &Vec<SysTheme>) -> (r: Vec<SysTheme>)
    ensures
        r@ == themes@,
{
    let mut out: Vec<SysTheme> = Vec::new();
    let mut i: usize = 0;
    while i < themes.len()
        invariant
            i <= themes@.len(),
            out@ == themes@.take(i as int),
        decreases themes@.len() - i,
    {
        out.push(themes[i].duplicate());
        assert(themes@.take(i + 1) =~= themes@.take(i as int).push(themes@[i as int]));
        i = i + 1;
    }
    assert(themes@.take(themes@.len() as int) =~= themes@);
    out
}

fn names_dir(ids: &Vec<String>, d: &str) -> (r: bool)
    ensures
        r == names(ids@, d@),
{
    let mut i: usize = 0;
    while i < ids.len()
        invariant
            i <= ids@.len(),
            forall|j: int| 0 <= j < i ==> ids@[j]@ != d@,
        decreases ids@.len() - i,
    {
        if str_equals(ids[i].as_str(), d) {
            return true;
        }
        i = i + 1;
    }
    false
}

fn scope_removes(scope: &InvalidationScope, t: &SysTheme) -> (r: bool)
    ensures
        r == removes(*scope, *t),
{
    match scope {
        InvalidationScope::All => true,
        InvalidationScope::Theme(id) => str_equals(t.dir.as_str(), id.as_str()),
        InvalidationScope::Themes(ids) => names_dir(ids, t.dir.as_str()),
        InvalidationScope::AllCustom => t.is_custom,
        InvalidationScope::AllSystem => t.is_system,
    }
}

/// The themes of `themes` that an invalidation of `scope` keeps.
fn keep_surviving(themes: &Vec<SysTheme>, scope: &InvalidationScope) -> (r: Vec<SysTheme>)
    ensures
        r@ == surviving(themes@, *scope),
{
    let mut out: Vec<SysTheme> = Vec::new();
    let mut i: usize = 0;
    while i < themes.len()
        invariant
            i <= themes@.len(),
            out@ == surviving(themes@.take(i as int), *scope),
        decreases themes@.len() - i,
    {
        let t = &themes[i];
        let keep = !scope_removes(scope, t);
        if keep {
            out.push(t.duplicate());
        }
        proof {
            let pred = |t: SysTheme| !removes(*scope, t);
            let next = themes@.take(i + 1);
            assert(next.drop_last() =~= themes@.take(i as int));
            assert(next.last() == themes@[i as int]);
            assert(*t == themes@[i as int]);
            assert(removes(*scope, themes@[i as int]) == !keep);
            assert(pred(themes@[i as int]) == keep);
            reveal(Seq::filter);
            assert(next.filter(pred) == (if pred(next.last()) {
                next.drop_last().filter(pred).push(next.last())
            } else {
                next.drop_last().filter(pred)
            }));
        }
        i = i + 1;
    }
    assert(themes@.take(themes@.len() as int) =~= themes@);
    out
}

/// The directory names of `themes`, in order.
fn dir_names(themes: &Vec<SysTheme>) -> (r: Vec<String>)
    ensures
        forall|d: Seq<char>| names(r@, d) <==> has_dir(themes@, d),
{
    let mut out: Vec<String> = Vec::new();
    let mut i: usize = 0;
    while i < themes.len()
        invariant
            i <= themes@.len(),
            out@.len() == i,
            forall|j: int| 0 <= j < i ==> (#[trigger] out@[j])@ == themes@[j].dir@,
        decreases themes@.len() - i,
    {
        out.push(themes[i].dir.clone());
        i = i + 1;
    }
    assert forall|d: Seq<char>| names(out@, d) <==> has_dir(themes@, d) by {
        if names(out@, d) {
            let j = choose|j: int| 0 <= j < out@.len() && out@[j]@ == d;
            assert(themes@[j].dir@ == d);
        }
        if has_dir(themes@, d) {
            let j = choose|j: int| 0 <= j < themes@.len() && themes@[j].dir@ == d;
            assert(out@[j]@ == d);
        }
    }
    out
}

impl ThemeCache {
    /// An empty cache that has never been refreshed.
    pub fn new(config: CacheConfig) -> (r: ThemeCache)
        ensures
            r@ == (CacheState { themes: Seq::empty(), refreshed_at: None, config }),
    {
        ThemeCache { themes: Vec::new(), refreshed_at: None, config }
    }

    /// The cache's settings.
    pub fn config(&self) -> (r: CacheConfig)
        ensures
            r == self@.config,
    {
        self.config
    }

    /// Replaces the settings; the snapshot is kept.
    pub fn update_config(&mut self, config: CacheConfig)
        ensures
            final(self)@ == (CacheState { config, ..old(self)@ }),
    {
        self.config = config;
    }

    /// Whether the snapshot is valid at time `now_ms`.
    pub fn is_cache_valid(&self, now_ms: u64) -> (r: bool)
        ensures
            r == cache_valid(self@, now_ms),
    {
        match self.refreshed_at {
            None => false,
            Some(t) => {
                if self.themes.len() == 0 {
                    false
                } else if now_ms < t {
                    true
                } else {
                    ((now_ms - t) as u128) < (self.config.cache_duration_minutes as u128) * 60000
                }
            },
        }
    }

    /// Whether the snapshot holds no theme.
    pub fn is_empty(&self) -> (r: bool)
        ensures
            r == (self@.themes.len() == 0),
    {
        self.themes.len() == 0
    }

    /// The snapshot's themes as they are, stale or not.
    pub fn get_themes(&self) -> (r: Vec<SysTheme>)
        ensures
            r@ == self@.themes,
    {
        copy_themes(&self.themes)
    }

    /// Stores `themes` as the snapshot at time `now_ms`: in place of the old one,
    /// or, when `is_partial`, in place of the cached themes of the same directories
    /// only. A snapshot larger than the configured maximum is refused and the
    /// cache is left as it was.
    pub fn cache_themes(&mut self, themes: Vec<SysTheme>, is_partial: bool, now_ms: u64) -> (r:
        Result<(), ThemeError>)
        ensures
            r is Ok <==> fits(old(self)@, themes@, is_partial),
            r is Ok ==> final(self)@ == stored(old(self)@, themes@, is_partial, now_ms),
            r is Err ==> final(self)@ == old(self)@,
            r matches Err(e) ==> e == (ThemeError::CacheTooLarge {
                size: stored_themes(old(self)@, themes@, is_partial).len() as usize,
                max: old(self)@.config.max_cache_size,
            }),
    {
        let ghost update = themes@;
        let snapshot = if is_partial {
            let ids = dir_names(&themes);
            let mut kept = keep_surviving(&self.themes, &InvalidationScope::Themes(ids));
            let mut themes = themes;
            kept.append(&mut themes);
            proof {
                let p1 = |t: SysTheme| !removes(InvalidationScope::Themes(ids), t);
                let p2 = |t: SysTheme| !has_dir(update, t.dir@);
                assert(p1 =~= p2);
            }
            kept
        } else {
            themes
        };
        if snapshot.len() > self.config.max_cache_size as usize {
            return Err(ThemeError::CacheTooLarge { size: snapshot.len(), max: self.config.max_cache_size });
        }
        self.themes = snapshot;
        self.refreshed_at = Some(now_ms);
        Ok(())
    }

    /// Removes the themes that `scope` names; `All` also forgets the refresh time,
    /// so that the cache counts as empty and invalid until the next refresh.
    pub fn invalidate_scope(&mut self, scope: &InvalidationScope)
        ensures
            final(self)@ == invalidated(old(self)@, *scope),
    {
        match scope {
            InvalidationScope::All => {
                self.themes = Vec::new();
                self.refreshed_at = None;
            },
            _ => {
                self.themes = keep_surviving(&self.themes, scope);
            },
        }
    }

    /// Clears the whole snapshot.
    pub fn invalidate(&mut self)
        ensures
            final(self)@ == invalidated(old(self)@, InvalidationScope::All),
    {
        self.invalidate_scope(&InvalidationScope::All);
    }

    /// Removes the theme of directory `id`.
    pub fn invalidate_theme(&mut self, id: &str)
        ensures
            final(self)@ == (CacheState {
                themes: old(self)@.themes.filter(|t: SysTheme| t.dir@ != id@),
                ..old(self)@
            }),
    {
        let scope = InvalidationScope::Theme(String::from_str(id));
        self.invalidate_scope(&scope);
        proof {
            let p1 = |t: SysTheme| !removes(scope, t);
            let p2 = |t: SysTheme| t.dir@ != id@;
            assert(p1 =~= p2);
        }
    }

    /// Removes the themes of the directories `ids`.
    pub fn invalidate_themes(&mut self, ids: &Vec<String>)
        ensures
            final(self)@ == (CacheState {
                themes: old(self)@.themes.filter(|t: SysTheme| !names(ids@, t.dir@)),
                ..old(self)@
            }),
    {
        let scope = InvalidationScope::Themes(ids.clone());
        proof {
            assert(scope->Themes_0@ == ids@);
        }
        self.invalidate_scope(&scope);
        proof {
            let p1 = |t: SysTheme| !removes(scope, t);
            let p2 = |t: SysTheme| !names(ids@, t.dir@);
            assert(p1 =~= p2);
        }
    }

    /// Removes every custom theme.
    pub fn invalidate_custom_themes(&mut self)
        ensures
            final(self)@ == (CacheState {
                themes: old(self)@.themes.filter(|t: SysTheme| !t.is_custom),
                ..old(self)@
            }),
    {
        self.invalidate_scope(&InvalidationScope::AllCustom);
        proof {
            let p1 = |t: SysTheme| !removes(InvalidationScope::AllCustom, t);
            let p2 = |t: SysTheme| !t.is_custom;
            assert(p1 =~= p2);
        }
    }

    /// Removes every system theme.
    pub fn invalidate_system_themes(&mut self)
        ensures
            final(self)@ == (CacheState {
                themes: old(self)@.themes.filter(|t: SysTheme| !t.is_system),
                ..old(self)@
            }),
    {
        self.invalidate_scope(&InvalidationScope::AllSystem);
        proof {
            let p1 = |t: SysTheme| !removes(InvalidationScope::AllSystem, t);
            let p2 = |t: SysTheme| !t.is_system;
            assert(p1 =~= p2);
        }
    }

    /// Stores a freshly loaded theme list as the whole snapshot and hands it back.
    /// A failed load, or a list over the size limit, leaves the snapshot exactly
    /// as it was and is returned as the error.
    pub fn trigger_background_refresh(
        &mut self,
        loaded: Result<Vec<SysTheme>, ThemeError>,
        now_ms: u64,
    ) -> (r: Result<Vec<SysTheme>, ThemeError>)
        ensures
            loaded is Err ==> r == loaded && final(self)@ == old(self)@,
            loaded matches Ok(v) ==> (fits(old(self)@, v@, false) ==> (r matches Ok(w) && w@ == v@)),
            loaded matches Ok(v) ==> (fits(old(self)@, v@, false) ==> final(self)@ == stored(
                old(self)@,
                v@,
                false,
                now_ms,
            )),
            loaded matches Ok(v) ==> (!fits(old(self)@, v@, false) ==> r is Err && final(self)@
                == old(self)@),
    {
        match loaded {
            Err(e) => Err(e),
            Ok(themes) => {
                let copy = copy_themes(&themes);
                match self.cache_themes(themes, false, now_ms) {
                    Ok(()) => Ok(copy),
                    Err(e) => Err(e),
                }
            },
        }
    }

    /// The snapshot's themes when it can be served at `now_ms`, that is when it is
    /// valid; `None` when a fresh scan is needed.
    pub fn cached_themes(&self, now_ms: u64) -> (r: Option<Vec<SysTheme>>)
        ensures
            r is Some <==> cache_valid(self@, now_ms),
            r matches Some(v) ==> v@ == self@.themes,
    {
        if self.is_cache_valid(now_ms) && !self.is_empty() {
            Some(self.get_themes())
        } else {
            None
        }
    }

    /// Completes a cache miss with the result of a scan: a successful scan is
    /// stored as the snapshot when it fits and is returned in any case; a failed
    /// scan is answered with the stale snapshot when there is one, and otherwise
    /// with its error. A failed scan never changes the cache.
    pub fn serve_after_load(&mut self, loaded: Result<Vec<SysTheme>, ThemeError>, now_ms: u64) -> (r:
        Result<Vec<SysTheme>, ThemeError>)
        ensures
            loaded matches Ok(v) ==> (r matches Ok(w) && w@ == v@),
            loaded matches Ok(v) ==> (fits(old(self)@, v@, false) ==> final(self)@ == stored(
                old(self)@,
                v@,
                false,
                now_ms,
            )),
            loaded matches Ok(v) ==> (!fits(old(self)@, v@, false) ==> final(self)@ == old(self)@),
            loaded is Err ==> final(self)@ == old(self)@,
            loaded is Err ==> (if old(self)@.themes.len() > 0 {
                (r matches Ok(w) && w@ == old(self)@.themes)
            } else {
                r == loaded
            }),
    {
        match loaded {
            Ok(themes) => {
                let copy = copy_themes(&themes);
                let _ = self.cache_themes(themes, false, now_ms);
                Ok(copy)
            },
            Err(e) => {
                if self.is_empty() {
                    Err(e)
                } else {
                    Ok(self.get_themes())
                }
            },
        }
    }

    /// Stores the result of a preload: a loaded list becomes the snapshot, and a
    /// failed load or an oversized list is reported as the error.
    pub fn finish_preload(&mut self, loaded: Result<Vec<SysTheme>, ThemeError>, now_ms: u64) -> (r:
        Result<(), ThemeError>)
        ensures
            loaded is Err ==> r == Err::<(), ThemeError>(loaded->Err_0) && final(self)@ == old(
                self,
            )@,
            loaded matches Ok(v) ==> (r is Ok <==> fits(old(self)@, v@, false)),
            loaded matches Ok(v) ==> (fits(old(self)@, v@, false) ==> final(self)@ == stored(
                old(self)@,
                v@,
                false,
                now_ms,
            )),
            loaded matches Ok(v) ==> (!fits(old(self)@, v@, false) ==> final(self)@ == old(self)@),
    {
        match loaded {
            Err(e) => Err(e),
            Ok(themes) => self.cache_themes(themes, false, now_ms),
        }
    }

    /// The cache figures that monitoring reads.
    pub fn cache_stats(&self, color_cache_size: usize, now_ms: u64) -> (r: CacheStats)
        ensures
            r.color_cache_size == color_cache_size,
            r.theme_cache_populated == (self@.themes.len() > 0),
            r.theme_cache_valid == cache_valid(self@, now_ms),
    {
        CacheStats {
            color_cache_size,
            theme_cache_populated: !self.is_empty(),
            theme_cache_valid: self.is_cache_valid(now_ms),
        }
    }
}

/// Figures on both caches, for monitoring.
#[derive(Debug, Clone, Copy, PartialEq, Eq, Structural)]
pub struct CacheStats {
    /// How many theme directories have a memoized color answer.
    pub color_cache_size: usize,
    /// The theme snapshot holds at least one theme.
    pub theme_cache_populated: bool,
    /// The theme snapshot is valid.
    pub theme_cache_valid: bool,
}

/// Storing a list that fits as the whole snapshot and reading it back gives that
/// list exactly; right after, the snapshot is valid iff the list is non-empty and
/// the configured duration is positive.
pub proof fn lemma_cache_round_trip(s: CacheState, themes: Seq<SysTheme>, now: u64)
    requires
        themes.len() <= s.config.max_cache_size,
    ensures
        fits(s, themes, false),
        stored(s, themes, false, now).themes == themes,
        cache_valid(stored(s, themes, false, now), now) <==> (themes.len() > 0
            && s.config.cache_duration_minutes > 0),
{
}

/// Invalidating one theme removes exactly the themes of that directory: every
/// other cached theme stays, and the snapshot stops being valid only if it was
/// not valid before or is now empty.
pub proof fn lemma_invalidate_theme_keeps_others(s: CacheState, id: Seq<char>, now: u64)
    ensures
        ({
            let after = s.themes.filter(|t: SysTheme| t.dir@ != id);
            &&& forall|i: int|
                0 <= i < s.themes.len() && s.themes[i].dir@ != id ==> after.contains(
                    #[trigger] s.themes[i],
                )
            &&& forall|j: int| 0 <= j < after.len() ==> (#[trigger] after[j]).dir@ != id
            &&& cache_valid(CacheState { themes: after, ..s }, now) <==> (cache_valid(s, now)
                && after.len() > 0)
        }),
{
    let pred = |t: SysTheme| t.dir@ != id;
    let after = s.themes.filter(pred);
    assert forall|i: int| 0 <= i < s.themes.len() && s.themes[i].dir@ != id implies after.contains(
        #[trigger] s.themes[i],
    ) by {
        s.themes.lemma_filter_contains(pred, i);
    }
    assert forall|j: int| 0 <= j < after.len() implies (#[trigger] after[j]).dir@ != id by {
        s.themes.lemma_filter_pred(pred, j);
    }
    s.themes.lemma_filter_len(pred);
    if after.len() > 0 {
        assert(s.themes.len() > 0);
    }
}

} // verus!
