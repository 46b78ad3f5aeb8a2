//! Named colour schemes kept in the order of their names, as a sorted map
//! keeps them: lookups by name, replacement or ordered insertion, and
//! iteration from the least name up.

use crate::text::{
    chars_lt, compare_chars, lemma_chars_lt_asymmetric, lemma_chars_lt_irreflexive,
    lemma_chars_lt_transitive,
};
use crate::ui_config::ColorScheme;
use vstd::prelude::*;

verus! {

/// Every name comes strictly before the names after it.
pub open spec fn keys_increasing(s: Seq<(String, ColorScheme)>) -> bool {
    forall|i: int, j: int| 0 <= i < j < s.len() ==> chars_lt(#[trigger] s[i].0@, #[trigger] s[j].0@)
}

/// Whether some entry carries the name `k`.
pub open spec fn has_name(s: Seq<(String, ColorScheme)>, k: Seq<char>) -> bool {
    exists|i: int| 0 <= i < s.len() && #[trigger] s[i].0@ == k
}

/// The scheme stored under the name `k`, if any.
pub open spec fn scheme_named(s: Seq<(String, ColorScheme)>, k: Seq<char>) -> Option<ColorScheme> {
    if has_name(s, k) {
        Some(s[choose|i: int| 0 <= i < s.len() && #[trigger] s[i].0@ == k].1)
    } else {
        None
    }
}

/// With increasing names, the entry at `i` is the one `scheme_named` finds.
pub proof fn lemma_named_at(s: Seq<(String, ColorScheme)>, i: int)
    requires
        keys_increasing(s),
        0 <= i < s.len(),
    ensures
        has_name(s, s[i].0@),
        scheme_named(s, s[i].0@) == Some(s[i].1),
{
    let k = s[i].0@;
    assert(has_name(s, k));
    let j = choose|j: int| 0 <= j < s.len() && #[trigger] s[j].0@ == k;
    assert(0 <= j < s.len() && s[j].0@ == k);
    lemma_chars_lt_irreflexive(k);
    if i < j {
        assert(chars_lt(s[i].0@, s[j].0@));
    } else if j < i {
        assert(chars_lt(s[j].0@, s[i].0@));
    }
    assert(j == i);
}

/// A name that sorts strictly between the entries before `p` and those from
/// `p` on is carried by no entry.
pub proof fn lemma_name_absent(s: Seq<(String, ColorScheme)>, p: int, k: Seq<char>)
    requires
        0 <= p <= s.len(),
        forall|i: int| 0 <= i < p ==> chars_lt(#[trigger] s[i].0@, k),
        forall|i: int| p <= i < s.len() ==> chars_lt(k, #[trigger] s[i].0@),
    ensures
        !has_name(s, k),
{
    if has_name(s, k) {
        let j = choose|j: int| 0 <= j < s.len() && #[trigger] s[j].0@ == k;
        lemma_chars_lt_irreflexive(k);
        if j < p {
            assert(chars_lt(s[j].0@, k));
        } else {
            assert(chars_lt(k, s[j].0@));
        }
    }
}

/// Replacing the entry at `i`, or inserting one at `p`, with a name kept in
/// order: that name then finds the new scheme and every other name finds
/// what it found before.
proof fn lemma_store_then_lookup(
    before: Seq<(String, ColorScheme)>,
    after: Seq<(String, ColorScheme)>,
    name: String,
    scheme: ColorScheme,
    replaced: bool,
    at: int,
)
    requires
        keys_increasing(before),
        keys_increasing(after),
        replaced ==> 0 <= at < before.len() && before[at].0@ == name@ && after == before.update(at, (name, scheme)),
        !replaced ==> 0 <= at <= before.len() && after == before.insert(at, (name, scheme)),
    ensures
        scheme_named(after, name@) == Some(scheme),
        forall|k: Seq<char>| k != name@ ==> #[trigger] scheme_named(after, k) == scheme_named(before, k),
{
    lemma_named_at(after, at);
    assert forall|k: Seq<char>| k != name@ implies #[trigger] scheme_named(after, k) == scheme_named(before, k) by {
        if has_name(before, k) {
            let j = choose|j: int| 0 <= j < before.len() && #[trigger] before[j].0@ == k;
            lemma_named_at(before, j);
            let jj = if replaced || j < at {
                j
            } else {
                j + 1
            };
            if replaced {
                assert(j != at);
            }
            assert(after[jj] == before[j]);
            lemma_named_at(after, jj);
        } else if has_name(after, k) {
            let jj = choose|jj: int| 0 <= jj < after.len() && #[trigger] after[jj].0@ == k;
            assert(jj != at);
            let j = if replaced || jj < at {
                jj
            } else {
                jj - 1
            };
            assert(before[j] == after[jj]);
            assert(has_name(before, k));
        }
    }
}

/// Colour schemes by name, in increasing name order.
#[derive(Debug)]
pub struct SchemeMap {
    entries: Vec<(String, ColorScheme)>,
}

impl SchemeMap {
    #[verifier::type_invariant]
    spec fn names_increasing(self) -> bool {
        keys_increasing(self.entries@)
    }

    /// The entries, from the least name up.
    pub closed spec fn entries(self) -> Seq<(String, ColorScheme)> {
        self.entries@
    }

    pub fn new() -> (m: Self)
        ensures
            m.entries() == Seq::<(String, ColorScheme)>::empty(),
    {
        SchemeMap { entries: Vec::new() }
    }

    pub fn len(&self) -> (n: usize)
        ensures
            n == self.entries().len(),
            keys_increasing(self.entries()),
    {
        proof {
            use_type_invariant(self);
        }
        self.entries.len()
    }

    /// The entry at position `i`, counting from the least name.
    pub fn entry(&self, i: usize) -> (e: (&String, &ColorScheme))
        requires
            i < self.entries().len(),
        ensures
            *e.0 == self.entries()[i as int].0,
            *e.1 == self.entries()[i as int].1,
            keys_increasing(self.entries()),
    {
        proof {
            use_type_invariant(self);
        }
        let pair = &self.entries[i];
        (&pair.0, &pair.1)
    }

    /// The position of `name`, or where it would go.
    fn search(&self, name: &str) -> (r: (usize, bool))
        ensures
            r.0 <= self.entries().len(),
            r.1 ==> r.0 < self.entries().len() && self.entries()[r.0 as int].0@ == name@,
            forall|i: int| 0 <= i < r.0 ==> chars_lt(#[trigger] self.entries()[i].0@, name@),
            !r.1 ==> forall|i: int|
                r.0 <= i < self.entries().len() ==> chars_lt(name@, #[trigger] self.entries()[i].0@),
            keys_increasing(self.entries()),
    {
        proof {
            use_type_invariant(self);
        }
        let n = self.entries.len();
        let mut i: usize = 0;
        while i < n
            invariant
                n == self.entries@.len(),
                i <= n,
                keys_increasing(self.entries@),
                forall|j: int| 0 <= j < i ==> chars_lt(#[trigger] self.entries@[j].0@, name@),
            decreases n - i,
        {
            let c = compare_chars(self.entries[i].0.as_str(), name);
            if c == 0 {
                return (i, true);
            }
            if c == 1 {
                proof {
                    assert forall|j: int| i <= j < n implies chars_lt(name@, #[trigger] self.entries@[j].0@) by {
                        if j > i {
                            lemma_chars_lt_transitive(name@, self.entries@[i as int].0@, self.entries@[j].0@);
                        }
                    }
                }
                return (i, false);
            }
            i = i + 1;
        }
        (i, false)
    }

    pub fn contains_key(&self, name: &str) -> (b: bool)
        ensures
            b == has_name(self.entries(), name@),
            keys_increasing(self.entries()),
    {
        let (i, found) = self.search(name);
        proof {
            if !found {
                lemma_name_absent(self.entries(), i as int, name@);
            }
        }
        found
    }

    /// The scheme stored under `name`.
    pub fn get(&self, name: &str) -> (r: Option<&ColorScheme>)
        ensures
            match r {
                Some(s) => scheme_named(self.entries(), name@) == Some(*s),
                None => scheme_named(self.entries(), name@) is None,
            },
            keys_increasing(self.entries()),
    {
        let (i, found) = self.search(name);
        if !found {
            proof {
                lemma_name_absent(self.entries(), i as int, name@);
            }
            return None;
        }
        proof {
            lemma_named_at(self.entries(), i as int);
        }
        let (_, scheme) = self.entry(i);
        Some(scheme)
    }

    /// The scheme with the least name.
    pub fn first(&self) -> (r: Option<&ColorScheme>)
        ensures
            self.entries().len() == 0 ==> r is None,
            self.entries().len() > 0 ==> r == Some(&self.entries()[0].1),
    {
        if self.len() == 0 {
            None
        } else {
            let (_, scheme) = self.entry(0);
            Some(scheme)
        }
    }

    /// Store `scheme` under `name`: replaces the scheme of that name in its
    /// place and gives the old one back, or inserts a new entry where its
    /// name belongs.
    pub fn insert(&mut self, name: String, scheme: ColorScheme) -> (r: Option<ColorScheme>)
        ensures
            keys_increasing(final(self).entries()),
            match r {
                Some(prev) => exists|i: int|
                    0 <= i < old(self).entries().len() && #[trigger] old(self).entries()[i].0@ == name@
                        && prev == old(self).entries()[i].1 && final(self).entries()
                        == old(self).entries().update(i, (name, scheme)),
                None => !has_name(old(self).entries(), name@) && exists|p: int|
                    0 <= p <= old(self).entries().len() && final(self).entries()
                        == old(self).entries().insert(p, (name, scheme)),
            },
            scheme_named(final(self).entries(), name@) == Some(scheme),
            forall|k: Seq<char>|
                k != name@ ==> #[trigger] scheme_named(final(self).entries(), k) == scheme_named(
                    old(self).entries(),
                    k,
                ),
    {
        proof {
            use_type_invariant(&*self);
        }
        let (i, found) = self.search(name.as_str());
        let ghost before = self.entries@;
        let mut entries: Vec<(String, ColorScheme)> = Vec::new();
        std::mem::swap(&mut entries, &mut self.entries);
        assert(entries@ == before);
        if found {
            let (_, prev) = entries.remove(i);
            let ghost kept = entries@;
            entries.insert(i, (name, scheme));
            proof {
                assert(entries@ == before.update(i as int, (name, scheme)));
                assert forall|a: int, b: int| 0 <= a < b < entries@.len() implies chars_lt(
                    #[trigger] entries@[a].0@,
                    #[trigger] entries@[b].0@,
                ) by {
                    assert(before[a].0@ == entries@[a].0@);
                    assert(before[b].0@ == entries@[b].0@);
                }
            }
            proof {
                lemma_store_then_lookup(before, entries@, name, scheme, true, i as int);
            }
            self.entries = entries;
            Some(prev)
        } else {
            entries.insert(i, (name, scheme));
            proof {
                assert(entries@ == before.insert(i as int, (name, scheme)));
                assert forall|a: int, b: int| 0 <= a < b < entries@.len() implies chars_lt(
                    #[trigger] entries@[a].0@,
                    #[trigger] entries@[b].0@,
                ) by {
                    if a < i && b == i {
                    } else if a == i && b > i {
                        assert(entries@[b] == before[b - 1]);
                    } else if a < i && b > i {
                        assert(entries@[b] == before[b - 1]);
                    } else if a > i {
                        assert(entries@[a] == before[a - 1]);
                        assert(entries@[b] == before[b - 1]);
                    }
                }
                lemma_name_absent(before, i as int, name@);
                lemma_store_then_lookup(before, entries@, name, scheme, false, i as int);
            }
            self.entries = entries;
            None
        }
    }
}

impl Clone for SchemeMap {
    /// A copy with the same names in the same order.
    fn clone(&self) -> (c: Self)
        ensures
            c.entries().len() == self.entries().len(),
            forall|i: int| 0 <= i < c.entries().len() ==> #[trigger] c.entries()[i].0 == self.entries()[i].0,
    {
        proof {
            use_type_invariant(self);
        }
        let mut entries: Vec<(String, ColorScheme)> = Vec::new();
        let n = self.entries.len();
        for i in 0..n
            invariant
                n == self.entries@.len(),
                keys_increasing(self.entries@),
                entries@.len() == i,
                forall|j: int| 0 <= j < i ==> #[trigger] entries@[j].0 == self.entries@[j].0,
        {
            let pair = &self.entries[i];
            entries.push((pair.0.clone(), pair.1.clone()));
        }
        proof {
            assert forall|a: int, b: int| 0 <= a < b < entries@.len() implies chars_lt(
                #[trigger] entries@[a].0@,
                #[trigger] entries@[b].0@,
            ) by {
                assert(entries@[a].0 == self.entries@[a].0);
                assert(entries@[b].0 == self.entries@[b].0);
            }
        }
        SchemeMap { entries }
    }
}

} // verus!
