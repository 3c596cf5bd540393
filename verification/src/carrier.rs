//! The headers of a message, as the propagator and the enricher read them.

use vstd::prelude::*;
use crate::search::{first_index, is_first, lemma_first_index_found, lemma_first_index_is_first, lemma_first_index_none};
use crate::text::{eq_ignore_case, same_name};

verus! {

/// One header: its name and its value.
pub type Entry = (Seq<char>, Seq<char>);

/// For each entry, whether its name is `name` up to ASCII case.
pub open spec fn name_hits(entries: Seq<Entry>, name: Seq<char>) -> Seq<bool> {
    Seq::new(entries.len(), |i: int| same_name(entries[i].0, name))
}

/// The value of the first entry named `name`.
pub open spec fn lookup(entries: Seq<Entry>, name: Seq<char>) -> Option<Seq<char>> {
    match first_index(name_hits(entries, name)) {
        Some(i) => Some(entries[i].1),
        None => None,
    }
}

/// `entries` with `value` under `name`: in place of the value of the first
/// entry of that name, or as a new last entry where there is none.
pub open spec fn put(entries: Seq<Entry>, name: Seq<char>, value: Seq<char>) -> Seq<Entry> {
    match first_index(name_hits(entries, name)) {
        Some(i) => entries.update(i, (entries[i].0, value)),
        None => entries.push((name, value)),
    }
}

/// The entries of a list, each as a pair of mathematical texts.
pub open spec fn entries_view(entries: Seq<(String, String)>) -> Seq<Entry> {
    Seq::new(entries.len(), |i: int| (entries[i].0@, entries[i].1@))
}

/// An ordered list of headers. Names are matched without regard to ASCII
/// case, and of several entries with one name the first is the one read.
#[derive(Debug)]
pub struct Carrier {
    pub entries: Vec<(String, String)>,
}

impl View for Carrier {
    type V = Seq<Entry>;

    open spec fn view(&self) -> Seq<Entry> {
        entries_view(self.entries@)
    }
}

impl Carrier {
    pub fn new() -> (r: Self)
        ensures
            r@ == Seq::<Entry>::empty(),
    {
        let r = Carrier { entries: Vec::new() };
        assert(r@ =~= Seq::<Entry>::empty());
        r
    }

    pub fn len(&self) -> (n: usize)
        ensures
            n == self@.len(),
    {
        self.entries.len()
    }

    /// Appends a header, whether or not one of that name is there already.
    pub fn push(&mut self, name: String, value: String)
        ensures
            final(self)@ == old(self)@.push((name@, value@)),
    {
        self.entries.push((name, value));
        assert(self@ =~= old(self)@.push((name@, value@)));
    }

    /// The index of the first header named `name`.
    pub fn position(&self, name: &str) -> (r: Option<usize>)
        ensures
            match r {
                Some(i) => first_index(name_hits(self@, name@)) == Some(i as int),
                None => first_index(name_hits(self@, name@)) is None,
            },
    {
        let ghost hits = name_hits(self@, name@);
        let mut i: usize = 0;
        while i < self.entries.len()
            invariant
                i <= self.entries.len(),
                hits == name_hits(self@, name@),
                forall|j: int| 0 <= j < i ==> !hits[j],
            decreases self.entries.len() - i,
        {
            if eq_ignore_case(self.entries[i].0.as_str(), name) {
                proof {
                    assert(hits[i as int]);
                    lemma_first_index_found(hits, i as int);
                }
                return Some(i);
            }
            i += 1;
        }
        proof {
            lemma_first_index_none(hits);
        }
        None
    }

    /// The value of the first header named `name`.
    pub fn get(&self, name: &str) -> (r: Option<&String>)
        ensures
            match r {
                Some(v) => lookup(self@, name@) == Some(v@),
                None => lookup(self@, name@) is None,
            },
    {
        match self.position(name) {
            Some(i) => Some(&self.entries[i].1),
            None => None,
        }
    }

    /// Puts `value` under `name`, replacing the value that `get` would have read.
    pub fn set(&mut self, name: &str, value: String)
        ensures
            final(self)@ == put(old(self)@, name@, value@),
    {
        match self.position(name) {
            Some(i) => {
                let kept: String = self.entries[i].0.clone();
                self.entries.set(i, (kept, value));
                assert(self@ =~= put(old(self)@, name@, value@));
            },
            None => {
                self.entries.push((name.to_owned(), value));
                assert(self@ =~= put(old(self)@, name@, value@));
            },
        }
    }
}

/// After `set`, `get` under the same name reads the value that was set.
pub proof fn lemma_lookup_after_put(entries: Seq<Entry>, name: Seq<char>, value: Seq<char>)
    ensures
        lookup(put(entries, name, value), name) == Some(value),
{
    let hits = name_hits(entries, name);
    let after = put(entries, name, value);
    let hits_after = name_hits(after, name);
    lemma_first_index_is_first(hits);
    match first_index(hits) {
        Some(i) => {
            assert(hits[i]);
            assert forall|j: int| 0 <= j < i implies !hits_after[j] by {
                assert(!hits[j]);
            }
            assert(is_first(hits_after, i));
            lemma_first_index_found(hits_after, i);
        },
        None => {
            let n = entries.len() as int;
            assert forall|j: int| 0 <= j < n implies !hits_after[j] by {
                assert(!hits[j]);
            }
            assert(same_name(name, name));
            assert(is_first(hits_after, n));
            lemma_first_index_found(hits_after, n);
        },
    }
}

/// `set` under one name leaves what `get` reads under any other name.
pub proof fn lemma_put_keeps_other(
    entries: Seq<Entry>,
    name: Seq<char>,
    value: Seq<char>,
    other: Seq<char>,
)
    requires
        !same_name(name, other),
    ensures
        lookup(put(entries, name, value), other) == lookup(entries, other),
{
    let after = put(entries, name, value);
    let hits = name_hits(entries, other);
    let hits_after = name_hits(after, other);
    lemma_first_index_is_first(name_hits(entries, name));
    lemma_first_index_is_first(hits);
    lemma_same_name_is_equivalence(name, other);
    match first_index(name_hits(entries, name)) {
        Some(k) => {
            assert(name_hits(entries, name)[k]);
            assert(hits_after =~= hits) by {
                assert forall|j: int| 0 <= j < hits.len() implies hits_after[j] == hits[j] by {
                    if j == k {
                        assert(after[j].0 == entries[j].0);
                    }
                }
            }
            match first_index(hits) {
                Some(i) => {
                    assert(hits[i]);
                    assert(i != k) by {
                        if i == k {
                            lemma_same_name_chain(name, entries[k].0, other);
                        }
                    }
                },
                None => {},
            }
        },
        None => {
            let n = entries.len() as int;
            match first_index(hits) {
                Some(i) => {
                    assert forall|j: int| 0 <= j < i implies !hits_after[j] by {
                        assert(!hits[j]);
                    }
                    assert(hits[i]);
                    assert(is_first(hits_after, i));
                    lemma_first_index_found(hits_after, i);
                },
                None => {
                    assert forall|j: int| 0 <= j < hits_after.len() implies !hits_after[j] by {
                        if j < n {
                            assert(!hits[j]);
                        }
                    }
                    lemma_first_index_none(hits_after);
                },
            }
        },
    }
}

/// Sameness of names is symmetric.
pub proof fn lemma_same_name_is_equivalence(a: Seq<char>, b: Seq<char>)
    ensures
        same_name(a, a),
        same_name(a, b) == same_name(b, a),
{
    if same_name(a, b) {
        assert forall|i: int| 0 <= i < b.len() implies crate::text::folded(#[trigger] b[i])
            == crate::text::folded(a[i]) by {
            assert(crate::text::folded(a[i]) == crate::text::folded(b[i]));
        }
    }
    if same_name(b, a) {
        assert forall|i: int| 0 <= i < a.len() implies crate::text::folded(#[trigger] a[i])
            == crate::text::folded(b[i]) by {
            assert(crate::text::folded(b[i]) == crate::text::folded(a[i]));
        }
    }
}

/// Two names that are each the same as a third are the same.
pub proof fn lemma_same_name_chain(a: Seq<char>, mid: Seq<char>, b: Seq<char>)
    requires
        same_name(mid, a),
        same_name(mid, b),
    ensures
        same_name(a, b),
{
    assert forall|i: int| 0 <= i < a.len() implies crate::text::folded(#[trigger] a[i])
        == crate::text::folded(b[i]) by {
        assert(crate::text::folded(mid[i]) == crate::text::folded(a[i]));
        assert(crate::text::folded(mid[i]) == crate::text::folded(b[i]));
    }
}

} // verus!
