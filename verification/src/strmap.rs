//! A small string-keyed map with insertion-order storage.
//!
//! The compiler keys almost every table by a source name (a type name, an
//! identifier, a register).  This map stores its entries in a vector and is
//! specified through a mathematical `Map<Seq<char>, V::V>` view, so that the
//! values, like the keys, appear in contracts at the view level.

use vstd::prelude::*;

verus! {

/// The map described by a list of entries, later entries winning, though the
/// well-formedness invariant keeps keys unique anyway.
pub open spec fn assoc_map<V: View>(s: Seq<(String, V)>) -> Map<Seq<char>, V::V>
    decreases s.len(),
{
    if s.len() == 0 {
        Map::empty()
    } else {
        assoc_map(s.drop_last()).insert(s.last().0@, s.last().1@)
    }
}

pub open spec fn unique_keys<V>(s: Seq<(String, V)>) -> bool {
    forall|i: int, j: int| 0 <= i < j < s.len() ==> s[i].0@ != s[j].0@
}

proof fn lemma_assoc_map_domain<V: View>(s: Seq<(String, V)>, k: Seq<char>)
    ensures
        assoc_map(s).contains_key(k) <==> exists|i: int| 0 <= i < s.len() && s[i].0@ == k,
    decreases s.len(),
{
    if s.len() > 0 {
        lemma_assoc_map_domain(s.drop_last(), k);
        if assoc_map(s).contains_key(k) {
            if s.last().0@ != k {
                let i = choose|i: int| 0 <= i < s.drop_last().len() && s.drop_last()[i].0@ == k;
                assert(s[i].0@ == k);
            } else {
                assert(s[s.len() - 1].0@ == k);
            }
        }
        if exists|i: int| 0 <= i < s.len() && s[i].0@ == k {
            let i = choose|i: int| 0 <= i < s.len() && s[i].0@ == k;
            if i < s.len() - 1 {
                assert(s.drop_last()[i].0@ == k);
            }
        }
    }
}

proof fn lemma_assoc_map_at<V: View>(s: Seq<(String, V)>, i: int)
    requires
        unique_keys(s),
        0 <= i < s.len(),
    ensures
        assoc_map(s).contains_key(s[i].0@),
        assoc_map(s)[s[i].0@] == s[i].1@,
    decreases s.len(),
{
    if i == s.len() - 1 {
    } else {
        lemma_assoc_map_at(s.drop_last(), i);
        assert(s.drop_last()[i] == s[i]);
        assert(s.last().0@ != s[i].0@);
    }
}

proof fn lemma_assoc_map_push<V: View>(s: Seq<(String, V)>, p: (String, V))
    ensures
        assoc_map(s.push(p)) == assoc_map(s).insert(p.0@, p.1@),
{
    assert(s.push(p).drop_last() =~= s);
    assert(s.push(p).last() == p);
}

proof fn lemma_assoc_map_update<V: View>(s: Seq<(String, V)>, i: int, p: (String, V))
    requires
        unique_keys(s),
        0 <= i < s.len(),
        s[i].0@ == p.0@,
    ensures
        assoc_map(s.update(i, p)) =~= assoc_map(s).insert(p.0@, p.1@),
    decreases s.len(),
{
    let t = s.update(i, p);
    if i == s.len() - 1 {
        assert(t.drop_last() =~= s.drop_last());
        assert(t.last() == p);
        assert(assoc_map(s.drop_last()).insert(s.last().0@, s.last().1@).insert(p.0@, p.1@)
            =~= assoc_map(s.drop_last()).insert(p.0@, p.1@));
    } else {
        assert(t.drop_last() =~= s.drop_last().update(i, p));
        assert(t.last() == s.last());
        lemma_assoc_map_update(s.drop_last(), i, p);
        assert(s.last().0@ != p.0@);
        assert(assoc_map(s.drop_last()).insert(p.0@, p.1@).insert(s.last().0@, s.last().1@)
            =~= assoc_map(s.drop_last()).insert(s.last().0@, s.last().1@).insert(p.0@, p.1@));
    }
}

/// A name-keyed table backed by a vector of entries.
pub struct StrMap<V> {
    pairs: Vec<(String, V)>,
}

impl<V: View> StrMap<V> {
    /// Keys are pairwise distinct; every operation preserves this.
    pub closed spec fn wf(&self) -> bool {
        unique_keys(self.pairs@)
    }

    pub closed spec fn view(&self) -> Map<Seq<char>, V::V> {
        assoc_map(self.pairs@)
    }

    pub fn new() -> (r: Self)
        ensures
            r@ == Map::<Seq<char>, V::V>::empty(),
            r.wf(),
    {
        StrMap { pairs: Vec::new() }
    }

    pub fn contains_key(&self, k: &str) -> (r: bool)
        requires
            self.wf(),
        ensures
            r == self@.contains_key(k@),
    {
        let n = self.pairs.len();
        let mut j: usize = 0;
        while j < n
            invariant
                n == self.pairs.len(),
                j <= n,
                forall|m: int| 0 <= m < j ==> self.pairs@[m].0@ != k@,
            decreases n - j,
        {
            if str_eq(self.pairs[j].0.as_str(), k) {
                proof {
                    lemma_assoc_map_domain(self.pairs@, k@);
                }
                return true;
            }
            j += 1;
        }
        proof {
            lemma_assoc_map_domain(self.pairs@, k@);
        }
        false
    }

    pub fn get(&self, k: &str) -> (r: Option<&V>)
        requires
            self.wf(),
        ensures
            match r {
                Some(v) => self@.contains_key(k@) && v@ == self@[k@],
                None => !self@.contains_key(k@),
            },
    {
        let n = self.pairs.len();
        let mut j: usize = 0;
        while j < n
            invariant
                n == self.pairs.len(),
                j <= n,
                unique_keys(self.pairs@),
                forall|m: int| 0 <= m < j ==> self.pairs@[m].0@ != k@,
            decreases n - j,
        {
            if str_eq(self.pairs[j].0.as_str(), k) {
                proof {
                    lemma_assoc_map_at(self.pairs@, j as int);
                }
                return Some(&self.pairs[j].1);
            }
            j += 1;
        }
        proof {
            lemma_assoc_map_domain(self.pairs@, k@);
        }
        None
    }

    pub fn insert(&mut self, k: String, v: V)
        requires
            old(self).wf(),
        ensures
            final(self)@ == old(self)@.insert(k@, v@),
            final(self).wf(),
    {
        let n = self.pairs.len();
        let mut j: usize = 0;
        while j < n
            invariant
                n == self.pairs.len(),
                j <= n,
                forall|m: int| 0 <= m < j ==> self.pairs@[m].0@ != k@,
                unique_keys(self.pairs@),
                self == old(self),
            decreases n - j,
        {
            if str_eq(self.pairs[j].0.as_str(), k.as_str()) {
                proof {
                    lemma_assoc_map_update(self.pairs@, j as int, (k, v));
                }
                let ghost oldpairs = self.pairs@;
                self.pairs.set(j, (k, v));
                proof {
                    assert forall|a: int, b: int|
                        0 <= a < b < self.pairs@.len() implies self.pairs@[a].0@
                        != self.pairs@[b].0@ by {
                        assert(oldpairs[a].0@ != oldpairs[b].0@);
                    }
                }
                return ;
            }
            j += 1;
        }
        proof {
            lemma_assoc_map_push(self.pairs@, (k, v));
            let ghost newpairs = self.pairs@.push((k, v));
            assert forall|a: int, b: int| 0 <= a < b < newpairs.len() implies newpairs[a].0@
                != newpairs[b].0@ by {
                if b < newpairs.len() - 1 {
                    assert(self.pairs@[a].0@ != self.pairs@[b].0@);
                } else {
                    assert(self.pairs@[a].0@ != k@);
                }
            }
        }
        self.pairs.push((k, v));
    }
}

impl StrMap<String> {
    /// A deep copy of a map whose values are strings.
    pub fn copy_of(&self) -> (r: Self)
        requires
            self.wf(),
        ensures
            r@ == self@,
            r.wf(),
    {
        let n = self.pairs.len();
        let mut out: Vec<(String, String)> = Vec::new();
        let mut j: usize = 0;
        while j < n
            invariant
                n == self.pairs.len(),
                j <= n,
                out@.len() == j,
                forall|m: int| #![all_triggers] 0 <= m < j ==> out@[m].0@ == self.pairs@[m].0@
                    && out@[m].1@ == self.pairs@[m].1@,
            decreases n - j,
        {
            let name = clone_string(&self.pairs[j].0);
            let value = clone_string(&self.pairs[j].1);
            out.push((name, value));
            j += 1;
        }
        proof {
            lemma_assoc_map_congruent(out@, self.pairs@);
        }
        StrMap { pairs: out }
    }
}

proof fn lemma_assoc_map_congruent(a: Seq<(String, String)>, b: Seq<(String, String)>)
    requires
        a.len() == b.len(),
        forall|m: int| #![all_triggers] 0 <= m < a.len() ==> a[m].0@ == b[m].0@ && a[m].1@
            == b[m].1@,
        unique_keys(b),
    ensures
        assoc_map(a) == assoc_map(b),
        unique_keys(a),
    decreases a.len(),
{
    if a.len() > 0 {
        assert(forall|m: int| #![all_triggers] 0 <= m < a.drop_last().len() ==> a.drop_last()[m].0@
            == b.drop_last()[m].0@ && a.drop_last()[m].1@ == b.drop_last()[m].1@);
        assert(forall|i: int, j: int| 0 <= i < j < b.drop_last().len() ==> b.drop_last()[i].0@
            != b.drop_last()[j].0@);
        lemma_assoc_map_congruent(a.drop_last(), b.drop_last());
        assert(a.last().0@ == b.last().0@ && a.last().1@ == b.last().1@);
        assert(assoc_map(a) == assoc_map(b));
        assert forall|i: int, j: int| 0 <= i < j < a.len() implies a[i].0@ != a[j].0@ by {
            assert(b[i].0@ != b[j].0@);
        }
    }
}

/// Relies on str's `PartialEq`: character-for-character comparison.
#[verifier::external_body]
pub fn str_eq(a: &str, b: &str) -> (r: bool)
    ensures
        r == (a@ == b@),
{
    a == b
}

/// Relies on `String::clone`: an equal copy of the text.
#[verifier::external_body]
pub fn clone_string(s: &String) -> (r: String)
    ensures
        r@ == s@,
{
    s.clone()
}

} // verus!
