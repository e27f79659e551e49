use vstd::prelude::*;
use vstd::pervasive::VecAdditionalExecFns;
use crate::palette::ThemeColors;
use crate::palette::duplicate_colors;
use crate::text::str_equals;

verus! {

/// One memoized extraction result.
#[derive(Debug, Clone)]
pub struct ColorEntry {
    pub key: String,
    pub colors: Option<ThemeColors>,
}

/// Memoized color-extraction results, keyed by theme directory name.
///
/// A stored `None` is an answer of its own: extraction ran and found no palette.
#[derive(Debug, Clone)]
pub struct ColorCache {
    entries: Vec<ColorEntry>,
}

/// The map that a list of entries with distinct keys stands for.
pub open spec fn map_of(s: Seq<ColorEntry>) -> Map<Seq<char>, Option<ThemeColors>>
    decreases s.len(),
{
    if s.len() == 0 {
        Map::empty()
    } else {
        map_of(s.drop_last()).insert(s.last().key@, s.last().colors)
    }
}

/// No two entries share a key.
pub open spec fn distinct_keys(s: Seq<ColorEntry>) -> bool {
    forall|i: int, j: int| 0 <= i < s.len() && 0 <= j < s.len() && i != j ==> s[i].key@ != s[j].key@
}

proof fn lemma_map_of_dom(s: Seq<ColorEntry>, k: Seq<char>)
    ensures
        map_of(s).contains_key(k) <==> exists|i: int| 0 <= i < s.len() && s[i].key@ == k,
    decreases s.len(),
{
    if s.len() > 0 {
        let p = s.drop_last();
        lemma_map_of_dom(p, k);
        if map_of(s).contains_key(k) {
            if k == s.last().key@ {
                assert(s[s.len() - 1].key@ == k);
            } else {
                let i = choose|i: int| 0 <= i < p.len() && p[i].key@ == k;
                assert(s[i] == p[i]);
            }
        }
        if exists|i: int| 0 <= i < s.len() && s[i].key@ == k {
            let i = choose|i: int| 0 <= i < s.len() && s[i].key@ == k;
            if i < s.len() - 1 {
                assert(p[i] == s[i]);
            }
        }
    }
}

proof fn lemma_map_of_value(s: Seq<ColorEntry>, i: int)
    requires
        distinct_keys(s),
        0 <= i < s.len(),
    ensures
        map_of(s).contains_key(s[i].key@),
        map_of(s)[s[i].key@] == s[i].colors,
    decreases s.len(),
{
    let p = s.drop_last();
    if i < s.len() - 1 {
        assert(p[i] == s[i]);
        assert(distinct_keys(p)) by {
            assert forall|a: int, b: int|
                0 <= a < p.len() && 0 <= b < p.len() && a != b implies p[a].key@ != p[b].key@ by {
                assert(p[a] == s[a] && p[b] == s[b]);
            }
        }
        lemma_map_of_value(p, i);
        assert(s[i].key@ != s[s.len() - 1].key@);
    }
}

proof fn lemma_map_of_len(s: Seq<ColorEntry>)
    requires
        distinct_keys(s),
    ensures
        map_of(s).dom().finite(),
        map_of(s).dom().len() == s.len(),
    decreases s.len(),
{
    if s.len() > 0 {
        let p = s.drop_last();
        assert(distinct_keys(p)) by {
            assert forall|a: int, b: int|
                0 <= a < p.len() && 0 <= b < p.len() && a != b implies p[a].key@ != p[b].key@ by {
                assert(p[a] == s[a] && p[b] == s[b]);
            }
        }
        lemma_map_of_len(p);
        lemma_map_of_dom(p, s.last().key@);
        if map_of(p).contains_key(s.last().key@) {
            let i = choose|i: int| 0 <= i < p.len() && p[i].key@ == s.last().key@;
            assert(s[i] == p[i]);
            assert(false);
        }
    }
}

impl View for ColorCache {
    type V = Map<Seq<char>, Option<ThemeColors>>;

    closed spec fn view(&self) -> Map<Seq<char>, Option<ThemeColors>> {
        map_of(self.entries@)
    }
}

impl ColorCache {
    /// The cache's internal invariant: no key is stored twice.
    pub closed spec fn wf(&self) -> bool {
        distinct_keys(self.entries@)
    }

    /// An empty cache.
    pub fn new() -> (r: ColorCache)
        ensures
            r.wf(),
            r@ == Map::<Seq<char>, Option<ThemeColors>>::empty(),
    {
        ColorCache { entries: Vec::new() }
    }

    fn position(&self, key: &str) -> (r: Option<usize>)
        requires
            self.wf(),
        ensures
            match r {
                Some(i) => i < self.entries@.len() && self.entries@[i as int].key@ == key@,
                None => !self@.contains_key(key@),
            },
    {
        let mut i: usize = 0;
        while i < self.entries.len()
            invariant
                i <= self.entries@.len(),
                forall|j: int| 0 <= j < i ==> self.entries@[j].key@ != key@,
            decreases self.entries@.len() - i,
        {
            if str_equals(self.entries[i].key.as_str(), key) {
                return Some(i);
            }
            i = i + 1;
        }
        proof {
            lemma_map_of_dom(self.entries@, key@);
        }
        None
    }

    /// The cached answer for `key`: `None` when nothing is cached, otherwise the
    /// stored extraction result (which may itself be `None`).
    pub fn get(&self, key: &str) -> (r: Option<Option<ThemeColors>>)
        requires
            self.wf(),
        ensures
            r == (if self@.contains_key(key@) {
                Some(self@[key@])
            } else {
                None::<Option<ThemeColors>>
            }),
    {
        match self.position(key) {
            Some(i) => {
                proof {
                    lemma_map_of_value(self.entries@, i as int);
                }
                Some(duplicate_colors(&self.entries[i].colors))
            },
            None => None,
        }
    }

    /// Stores `colors` as the answer for `key`, replacing any earlier one.
    pub fn set(&mut self, key: String, colors: Option<ThemeColors>)
        requires
            old(self).wf(),
        ensures
            final(self).wf(),
            final(self)@ == old(self)@.insert(key@, colors),
    {
        match self.position(key.as_str()) {
            Some(i) => {
                let ghost k = key@;
                let ghost before = self.entries@;
                self.entries.set(i, ColorEntry { key, colors });
                proof {
                    let after = self.entries@;
                    assert forall|a: int, b: int|
                        0 <= a < after.len() && 0 <= b < after.len() && a != b implies after[a].key@
                        != after[b].key@ by {
                        if a != i && b != i {
                            assert(after[a] == before[a] && after[b] == before[b]);
                        } else if a == i {
                            assert(after[b] == before[b]);
                        } else {
                            assert(after[a] == before[a]);
                        }
                    }
                    assert forall|q: Seq<char>|
                        #![auto]
                        map_of(after).contains_key(q) == map_of(before).insert(k, colors).contains_key(q)
                        by {
                        lemma_map_of_dom(after, q);
                        lemma_map_of_dom(before, q);
                        if exists|x: int| 0 <= x < before.len() && before[x].key@ == q {
                            let x = choose|x: int| 0 <= x < before.len() && before[x].key@ == q;
                            if x != i {
                                assert(after[x] == before[x]);
                            } else {
                                assert(after[x].key@ == k);
                            }
                        }
                        if exists|x: int| 0 <= x < after.len() && after[x].key@ == q {
                            let x = choose|x: int| 0 <= x < after.len() && after[x].key@ == q;
                            if x != i {
                                assert(after[x] == before[x]);
                            }
                        }
                        if q == k {
                            assert(after[i as int].key@ == q);
                        }
                    }
                    assert forall|q: Seq<char>|
                        #![auto]
                        map_of(after).contains_key(q) implies map_of(after)[q] == map_of(
                            before,
                        ).insert(k, colors)[q] by {
                        lemma_map_of_dom(after, q);
                        let x = choose|x: int| 0 <= x < after.len() && after[x].key@ == q;
                        lemma_map_of_value(after, x);
                        if x != i {
                            assert(after[x] == before[x]);
                            lemma_map_of_value(before, x);
                        }
                    }
                    assert(map_of(after) =~= map_of(before).insert(k, colors));
                }
            },
            None => {
                let ghost before = self.entries@;
                let ghost k = key@;
                self.entries.push(ColorEntry { key, colors });
                proof {
                    let after = self.entries@;
                    assert(after.drop_last() =~= before);
                    assert forall|a: int, b: int|
                        0 <= a < after.len() && 0 <= b < after.len() && a != b implies after[a].key@
                        != after[b].key@ by {
                        if a < before.len() && b < before.len() {
                            assert(after[a] == before[a] && after[b] == before[b]);
                        } else if a < before.len() {
                            assert(after[a] == before[a]);
                            lemma_map_of_dom(before, k);
                        } else {
                            assert(after[b] == before[b]);
                            lemma_map_of_dom(before, k);
                        }
                    }
                }
            },
        }
    }

    /// Forgets every cached answer.
    pub fn clear(&mut self)
        ensures
            final(self).wf(),
            final(self)@ == Map::<Seq<char>, Option<ThemeColors>>::empty(),
    {
        self.entries.clear();
    }

    /// The number of keys with a cached answer.
    pub fn size(&self) -> (r: usize)
        requires
            self.wf(),
        ensures
            self@.dom().finite(),
            r == self@.len(),
    {
        proof {
            lemma_map_of_len(self.entries@);
        }
        self.entries.len()
    }
}

} // verus!
