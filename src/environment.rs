//! A snapshot of environment variables that a scope clears and then puts back.
//!
//! The snapshot is built from what was read for each key, in order. A key
//! that was set is to be reinstated with its value; a key that was not set
//! is to be cleared again. A key that the snapshot already records keeps the
//! record it has. The plan of `restore_plan` puts back every reinstated
//! value, then clears every key to clear.
use vstd::prelude::*;

verus! {

/// The keys of a list of pairs.
pub open spec fn keys_of(pairs: Seq<(Seq<char>, Seq<char>)>) -> Seq<Seq<char>> {
    pairs.map_values(|p: (Seq<char>, Seq<char>)| p.0)
}

/// Whether the snapshot `(r, c)` records key `k`.
pub open spec fn records(r: Seq<(Seq<char>, Seq<char>)>, c: Seq<Seq<char>>, k: Seq<char>) -> bool {
    keys_of(r).contains(k) || c.contains(k)
}

/// The pairs to reinstate and the keys to clear, after the snapshot `(r, c)`
/// has taken in the lookups `l`.
pub open spec fn snapshot_from(
    r: Seq<(Seq<char>, Seq<char>)>,
    c: Seq<Seq<char>>,
    l: Seq<(Seq<char>, Option<Seq<char>>)>,
) -> (Seq<(Seq<char>, Seq<char>)>, Seq<Seq<char>>)
    decreases l.len(),
{
    if l.len() == 0 {
        (r, c)
    } else {
        let (r1, c1) = snapshot_from(r, c, l.drop_last());
        let (k, v) = l.last();
        if records(r1, c1, k) {
            (r1, c1)
        } else if v is Some {
            (r1.push((k, v->0)), c1)
        } else {
            (r1, c1.push(k))
        }
    }
}

/// The pairs to reinstate and the keys to clear of a new snapshot of the
/// lookups `l`.
pub open spec fn snapshot_of(l: Seq<(Seq<char>, Option<Seq<char>>)>) -> (
    Seq<(Seq<char>, Seq<char>)>,
    Seq<Seq<char>>,
) {
    snapshot_from(Seq::empty(), Seq::empty(), l)
}

/// The text of an optional string.
pub open spec fn text_of(o: Option<String>) -> Option<Seq<char>> {
    match o {
        Some(s) => Some(s@),
        None => None,
    }
}

pub open spec fn lookups_view(l: Seq<(String, Option<String>)>) -> Seq<
    (Seq<char>, Option<Seq<char>>),
> {
    l.map_values(|p: (String, Option<String>)| (p.0@, text_of(p.1)))
}

pub struct CleanEnvironment {
    pub vars_to_reinstate: Vec<(String, String)>,
    pub keys_to_clear: Vec<String>,
}

impl CleanEnvironment {
    pub open spec fn reinstate_view(&self) -> Seq<(Seq<char>, Seq<char>)> {
        self.vars_to_reinstate@.map_values(|p: (String, String)| (p.0@, p.1@))
    }

    pub open spec fn clear_view(&self) -> Seq<Seq<char>> {
        self.keys_to_clear@.map_values(|k: String| k@)
    }

    /// The snapshot of the keys whose values were read as `lookups`, each
    /// key with its value or `None` where it was not set.
    pub fn new(lookups: Vec<(String, Option<String>)>) -> (r: CleanEnvironment)
        ensures
            (r.reinstate_view(), r.clear_view()) == snapshot_of(lookups_view(lookups@)),
    {
        let mut snapshot = CleanEnvironment { vars_to_reinstate: Vec::new(), keys_to_clear: Vec::new() };
        assert(snapshot.reinstate_view() =~= Seq::empty());
        assert(snapshot.clear_view() =~= Seq::empty());
        snapshot.initialise(lookups);
        snapshot
    }

    /// Whether `key` is among the keys to reinstate.
    fn has_reinstate(&self, key: &String) -> (r: bool)
        ensures
            r == keys_of(self.reinstate_view()).contains(key@),
    {
        let ghost ks = keys_of(self.reinstate_view());
        let mut i: usize = 0;
        while i < self.vars_to_reinstate.len()
            invariant
                ks == keys_of(self.reinstate_view()),
                i <= self.vars_to_reinstate@.len(),
                forall|j: int| 0 <= j < i ==> ks[j] != key@,
            decreases self.vars_to_reinstate@.len() - i,
        {
            if self.vars_to_reinstate[i].0 == *key {
                assert(ks[i as int] == key@);
                return true;
            }
            i = i + 1;
        }
        false
    }

    /// Whether `key` is among the keys to clear.
    fn has_clear(&self, key: &String) -> (r: bool)
        ensures
            r == self.clear_view().contains(key@),
    {
        let ghost ks = self.clear_view();
        let mut i: usize = 0;
        while i < self.keys_to_clear.len()
            invariant
                ks == self.clear_view(),
                i <= self.keys_to_clear@.len(),
                forall|j: int| 0 <= j < i ==> ks[j] != key@,
            decreases self.keys_to_clear@.len() - i,
        {
            if self.keys_to_clear[i] == *key {
                assert(ks[i as int] == key@);
                return true;
            }
            i = i + 1;
        }
        false
    }

    /// Records each lookup, in order, after what the snapshot holds already.
    pub fn initialise(&mut self, lookups: Vec<(String, Option<String>)>)
        ensures
            (final(self).reinstate_view(), final(self).clear_view()) == snapshot_from(
                old(self).reinstate_view(),
                old(self).clear_view(),
                lookups_view(lookups@),
            ),
    {
        let ghost l = lookups_view(lookups@);
        let ghost r_start = self.reinstate_view();
        let ghost c_start = self.clear_view();
        let mut i: usize = 0;
        assert(l.subrange(0, 0) =~= Seq::<(Seq<char>, Option<Seq<char>>)>::empty());
        while i < lookups.len()
            invariant
                i <= lookups@.len(),
                l == lookups_view(lookups@),
                (self.reinstate_view(), self.clear_view()) == snapshot_from(
                    r_start,
                    c_start,
                    l.subrange(0, i as int),
                ),
            decreases lookups@.len() - i,
        {
            let ghost before = l.subrange(0, i as int);
            let ghost r0 = self.reinstate_view();
            let ghost c0 = self.clear_view();
            assert(l.subrange(0, i + 1).drop_last() =~= before);
            assert(l.subrange(0, i + 1).last() == l[i as int]);
            let taken = self.has_reinstate(&lookups[i].0) || self.has_clear(&lookups[i].0);
            if !taken {
                match &lookups[i].1 {
                    Some(v) => {
                        let pair = (lookups[i].0.clone(), v.clone());
                        self.vars_to_reinstate.push(pair);
                        assert(self.reinstate_view() =~= r0.push(
                            (l[i as int].0, l[i as int].1->0),
                        ));
                        assert(self.clear_view() =~= c0);
                    },
                    None => {
                        let k = lookups[i].0.clone();
                        self.keys_to_clear.push(k);
                        assert(self.clear_view() =~= c0.push(l[i as int].0));
                        assert(self.reinstate_view() =~= r0);
                    },
                }
            }
            i = i + 1;
        }
        assert(l.subrange(0, lookups@.len() as int) =~= l);
    }

    /// The steps that put the environment back: each reinstated key set to
    /// its value, then each key to clear removed.
    pub fn restore_plan(&self) -> (r: Vec<(String, Option<String>)>)
        ensures
            lookups_view(r@) == self.reinstate_view().map_values(
                |p: (Seq<char>, Seq<char>)| (p.0, Some(p.1)),
            ) + self.clear_view().map_values(|k: Seq<char>| (k, None::<Seq<char>>)),
    {
        let ghost want = self.reinstate_view().map_values(
            |p: (Seq<char>, Seq<char>)| (p.0, Some(p.1)),
        ) + self.clear_view().map_values(|k: Seq<char>| (k, None::<Seq<char>>));
        let n = self.vars_to_reinstate.len();
        let mut r: Vec<(String, Option<String>)> = Vec::new();
        let mut i: usize = 0;
        while i < n
            invariant
                n == self.vars_to_reinstate@.len(),
                i <= n,
                want == self.reinstate_view().map_values(
                    |p: (Seq<char>, Seq<char>)| (p.0, Some(p.1)),
                ) + self.clear_view().map_values(|k: Seq<char>| (k, None::<Seq<char>>)),
                want.len() == n + self.keys_to_clear@.len(),
                r@.len() == i,
                lookups_view(r@) =~= want.subrange(0, i as int),
            decreases n - i,
        {
            let (k, v) = (&self.vars_to_reinstate[i].0, &self.vars_to_reinstate[i].1);
            r.push((k.clone(), Some(v.clone())));
            assert(self.reinstate_view()[i as int] == (k@, v@));
            assert(want[i as int] == (k@, Some(v@)));
            assert(lookups_view(r@).len() == r@.len());
            assert(lookups_view(r@)[i as int] == (k@, Some(v@)));
            assert(lookups_view(r@) =~= want.subrange(0, i + 1));
            i = i + 1;
        }
        let mut j: usize = 0;
        while j < self.keys_to_clear.len()
            invariant
                n == self.vars_to_reinstate@.len(),
                j <= self.keys_to_clear@.len(),
                want == self.reinstate_view().map_values(
                    |p: (Seq<char>, Seq<char>)| (p.0, Some(p.1)),
                ) + self.clear_view().map_values(|k: Seq<char>| (k, None::<Seq<char>>)),
                want.len() == n + self.keys_to_clear@.len(),
                r@.len() == n + j,
                lookups_view(r@) =~= want.subrange(0, n + j),
            decreases self.keys_to_clear@.len() - j,
        {
            r.push((self.keys_to_clear[j].clone(), None));
            assert(self.clear_view()[j as int] == self.keys_to_clear@[j as int]@);
            assert(want[n + j] == (self.keys_to_clear@[j as int]@, None::<Seq<char>>));
            assert(lookups_view(r@).len() == r@.len());
            assert(lookups_view(r@)[n + j] == (self.keys_to_clear@[j as int]@, None::<Seq<char>>));
            assert(lookups_view(r@) =~= want.subrange(0, n + j + 1));
            j = j + 1;
        }
        assert(want.subrange(0, want.len() as int) =~= want);
        r
    }
}

} // verus!
