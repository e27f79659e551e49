use vstd::prelude::*;
use crate::color_cache::ColorCache;
use crate::palette::ThemeColors;
use crate::palette::duplicate_colors;
use crate::theme::SysTheme;
use crate::theme::ThemeDirFacts;
use crate::theme::classification;
use crate::theme::classify_theme_dir;
use crate::theme::description_of;
use crate::theme::theme_description;
use crate::title::dir_name_to_title;
use crate::title::title;

verus! {

/// Whether `t` is the theme that a scan builds for a directory with facts `f`,
/// palette `colors` and preview `image`.
pub open spec fn theme_matches(
    t: SysTheme,
    f: ThemeDirFacts,
    colors: Option<ThemeColors>,
    image: Seq<char>,
) -> bool {
    &&& t.dir@ == f.dir_name@
    &&& t.title@ == title(f.dir_name@)
    &&& t.description@ == description_of(f.dir_name@)
    &&& t.image@ == image
    &&& (t.is_custom, t.is_system) == classification(f.has_custom_metadata, f.is_symlink)
    &&& t.colors == colors
}

/// Builds the theme of one directory from what a scan found, its palette and its
/// preview data URL (empty when it has none).
pub fn generate_theme_from_directory(
    facts: &ThemeDirFacts,
    colors: Option<ThemeColors>,
    image: String,
) -> (r: SysTheme)
    ensures
        theme_matches(r, *facts, colors, image@),
{
    let (is_custom, is_system) = classify_theme_dir(facts.has_custom_metadata, facts.is_symlink);
    SysTheme {
        dir: facts.dir_name.clone(),
        title: dir_name_to_title(facts.dir_name.as_str()),
        description: theme_description(facts.dir_name.as_str()),
        image,
        is_system,
        is_custom,
        colors,
    }
}

/// Tries the palette sources in order: for a custom theme its metadata first, then
/// the structured color configuration. The first palette found wins; a source
/// that is not needed is not consulted.
pub fn extract_theme_colors_direct<F, G>(is_custom: bool, from_metadata: F, from_config: G) -> (r:
    Option<ThemeColors>) where F: FnOnce() -> Option<ThemeColors>, G: FnOnce() -> Option<ThemeColors>
    requires
        from_metadata.requires(()),
        from_config.requires(()),
    ensures
        (is_custom && r is Some && from_metadata.ensures((), r)) || ((!is_custom
            || from_metadata.ensures((), None::<ThemeColors>)) && from_config.ensures((), r)),
{
    if is_custom {
        let c = from_metadata();
        if c.is_some() {
            return c;
        }
    }
    from_config()
}

/// The palette of directory `dir_name`, memoized in `cache`: a cached answer
/// (also a cached "no palette") is returned as it is and `extract` is not
/// called; otherwise `extract(is_custom)` runs and its answer is stored.
pub fn extract_theme_colors_cached<F>(
    dir_name: &str,
    is_custom: bool,
    cache: &mut ColorCache,
    extract: F,
) -> (r: Option<ThemeColors>) where F: FnOnce(bool) -> Option<ThemeColors>
    requires
        old(cache).wf(),
        extract.requires((is_custom,)),
    ensures
        final(cache).wf(),
        old(cache)@.contains_key(dir_name@) ==> r == old(cache)@[dir_name@] && final(cache)@ == old(
            cache,
        )@,
        !old(cache)@.contains_key(dir_name@) ==> extract.ensures((is_custom,), r) && final(cache)@
            == old(cache)@.insert(dir_name@, r),
{
    match cache.get(dir_name) {
        Some(cached) => cached,
        None => {
            let colors = extract(is_custom);
            cache.set(dir_name.to_string(), duplicate_colors(&colors));
            colors
        },
    }
}

/// The successes of `outcomes`, in order.
pub open spec fn successes<T, E>(outcomes: Seq<Result<T, E>>) -> Seq<T>
    decreases outcomes.len(),
{
    if outcomes.len() == 0 {
        Seq::empty()
    } else {
        let rest = successes(outcomes.drop_last());
        match outcomes.last() {
            Ok(t) => rest.push(t),
            Err(_) => rest,
        }
    }
}

/// The failures of `outcomes`, in order.
pub open spec fn failures<T, E>(outcomes: Seq<Result<T, E>>) -> Seq<E>
    decreases outcomes.len(),
{
    if outcomes.len() == 0 {
        Seq::empty()
    } else {
        let rest = failures(outcomes.drop_last());
        match outcomes.last() {
            Ok(_) => rest,
            Err(e) => rest.push(e),
        }
    }
}

/// Splits the outcomes of a batch of per-theme units into the themes built and
/// the errors met, keeping the order of each; one failure drops only its unit.
pub fn partition_outcomes<T, E>(outcomes: Vec<Result<T, E>>) -> (r: (Vec<T>, Vec<E>))
    ensures
        r.0@ == successes(outcomes@),
        r.1@ == failures(outcomes@),
        r.0@.len() + r.1@.len() == outcomes@.len(),
{
    let ghost all = outcomes@;
    let mut oks: Vec<T> = Vec::new();
    let mut errs: Vec<E> = Vec::new();
    let mut i: usize = 0;
    let n = outcomes.len();
    let mut rest = outcomes;
    assert(rest@ =~= all.subrange(0, all.len() as int));
    while rest.len() > 0
        invariant
            i + rest@.len() == all.len(),
            all.len() == n,
            rest@ =~= all.subrange(i as int, all.len() as int),
            oks@ == successes(all.take(i as int)),
            errs@ == failures(all.take(i as int)),
            oks@.len() + errs@.len() == i,
        decreases rest@.len(),
    {
        let o = rest.remove(0);
        proof {
            assert(o == all[i as int]);
            assert(all.take(i + 1).drop_last() =~= all.take(i as int));
            assert(all.take(i + 1).last() == all[i as int]);
            assert(rest@ =~= all.subrange(i + 1, all.len() as int));
        }
        match o {
            Ok(t) => oks.push(t),
            Err(e) => errs.push(e),
        }
        i = i + 1;
    }
    assert(all.take(all.len() as int) =~= all);
    (oks, errs)
}

/// The theme loader: builds themes from scan results and memoizes their palettes.
#[derive(Debug, Clone)]
pub struct OptimizedThemeLoader {
    color_cache: ColorCache,
}

impl OptimizedThemeLoader {
    /// The memoized palettes, by theme directory name.
    pub closed spec fn colors(&self) -> Map<Seq<char>, Option<ThemeColors>> {
        self.color_cache@
    }

    /// The loader's internal invariant.
    pub closed spec fn wf(&self) -> bool {
        self.color_cache.wf()
    }

    /// A loader with nothing memoized.
    pub fn new() -> (r: OptimizedThemeLoader)
        ensures
            r.wf(),
            r.colors() == Map::<Seq<char>, Option<ThemeColors>>::empty(),
    {
        OptimizedThemeLoader { color_cache: ColorCache::new() }
    }

    /// Builds the full theme of one directory, taking its palette from the memo
    /// when there is an answer for the directory and from `extract` otherwise.
    pub fn generate_theme_from_directory_async<F>(
        &mut self,
        facts: &ThemeDirFacts,
        extract: F,
        image: String,
    ) -> (r: SysTheme) where F: FnOnce(bool) -> Option<ThemeColors>
        requires
            old(self).wf(),
            extract.requires((facts.has_custom_metadata,)),
        ensures
            final(self).wf(),
            old(self).colors().contains_key(facts.dir_name@) ==> theme_matches(
                r,
                *facts,
                old(self).colors()[facts.dir_name@],
                image@,
            ) && final(self).colors() == old(self).colors(),
            !old(self).colors().contains_key(facts.dir_name@) ==> extract.ensures(
                (facts.has_custom_metadata,),
                r.colors,
            ) && theme_matches(r, *facts, r.colors, image@) && final(self).colors() == old(
                self,
            ).colors().insert(facts.dir_name@, r.colors),
    {
        let (is_custom, _) = classify_theme_dir(facts.has_custom_metadata, facts.is_symlink);
        let colors = extract_theme_colors_cached(
            facts.dir_name.as_str(),
            is_custom,
            &mut self.color_cache,
            extract,
        );
        generate_theme_from_directory(facts, colors, image)
    }

    /// Records `colors` as the memoized answer for directory `dir_name`.
    pub fn remember_colors(&mut self, dir_name: String, colors: Option<ThemeColors>)
        requires
            old(self).wf(),
        ensures
            final(self).wf(),
            final(self).colors() == old(self).colors().insert(dir_name@, colors),
    {
        self.color_cache.set(dir_name, colors);
    }

    /// The memoized answer for directory `dir_name`, if any.
    pub fn cached_colors(&self, dir_name: &str) -> (r: Option<Option<ThemeColors>>)
        requires
            self.wf(),
        ensures
            r == (if self.colors().contains_key(dir_name@) {
                Some(self.colors()[dir_name@])
            } else {
                None::<Option<ThemeColors>>
            }),
    {
        self.color_cache.get(dir_name)
    }

    /// Forgets every memoized palette.
    pub fn clear_cache(&mut self)
        ensures
            final(self).wf(),
            final(self).colors() == Map::<Seq<char>, Option<ThemeColors>>::empty(),
    {
        self.color_cache.clear();
    }

    /// The number of directories with a memoized answer.
    pub fn get_cache_stats(&self) -> (r: (usize,))
        requires
            self.wf(),
        ensures
            self.colors().dom().finite(),
            r.0 == self.colors().len(),
    {
        (self.color_cache.size(),)
    }
}

/// The three answers of the color memo: nothing is cached for a key that was
/// never set; after `None` is stored for a key, the memo holds the answer "no
/// palette", which is not the same as holding nothing; after a clear the memo
/// is empty and holds nothing for any key.
pub proof fn lemma_color_cache_answers(
    m: Map<Seq<char>, Option<ThemeColors>>,
    k: Seq<char>,
    other: Seq<char>,
)
    ensures
        !Map::<Seq<char>, Option<ThemeColors>>::empty().contains_key(k),
        m.insert(k, None).contains_key(k),
        m.insert(k, None)[k] == None::<ThemeColors>,
        k != other ==> m.insert(k, None).contains_key(other) == m.contains_key(other),
        Map::<Seq<char>, Option<ThemeColors>>::empty().len() == 0,
{
}

} // verus!
