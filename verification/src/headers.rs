//! An ordered header multimap with exact first-match lookup.

use vstd::prelude::*;

use crate::strutil::str_views;
use crate::strutil::str_eq;

verus! {

/// An ordered multimap of header names to values.
///
/// Names are matched byte-for-byte; adapters are expected to hand the
/// library names already normalised to lower case, as wire-level HTTP
/// libraries do.
pub struct Headers {
    entries: Vec<(String, String)>,
}

/// The value of the first entry of `h` named `name`, if any.
pub open spec fn find_value(h: Seq<(Seq<char>, Seq<char>)>, name: Seq<char>) -> Option<Seq<char>>
    decreases h.len(),
{
    if h.len() == 0 {
        None
    } else if h[0].0 == name {
        Some(h[0].1)
    } else {
        find_value(h.drop_first(), name)
    }
}

/// The values of all entries of `h` named `name`, in order.
pub open spec fn values_of(h: Seq<(Seq<char>, Seq<char>)>, name: Seq<char>) -> Seq<Seq<char>>
    decreases h.len(),
{
    if h.len() == 0 {
        Seq::empty()
    } else {
        (if h[0].0 == name {
            seq![h[0].1]
        } else {
            Seq::empty()
        }) + values_of(h.drop_first(), name)
    }
}

/// `h` without its entries named `name`.
pub open spec fn remove_name(
    h: Seq<(Seq<char>, Seq<char>)>,
    name: Seq<char>,
) -> Seq<(Seq<char>, Seq<char>)>
    decreases h.len(),
{
    if h.len() == 0 {
        Seq::empty()
    } else {
        (if h[0].0 == name {
            Seq::empty()
        } else {
            seq![h[0]]
        }) + remove_name(h.drop_first(), name)
    }
}

impl View for Headers {
    type V = Seq<(Seq<char>, Seq<char>)>;

    closed spec fn view(&self) -> Seq<(Seq<char>, Seq<char>)> {
        self.entries@.map_values(|p: (String, String)| (p.0@, p.1@))
    }
}

impl Headers {
    /// Creates an empty header map.
    pub fn new() -> (r: Self)
        ensures
            r@ == Seq::<(Seq<char>, Seq<char>)>::empty(),
    {
        let r = Headers { entries: Vec::new() };
        proof {
            assert(r@ =~= Seq::<(Seq<char>, Seq<char>)>::empty());
        }
        r
    }

    /// The number of entries.
    pub fn len(&self) -> (r: usize)
        ensures
            r == self@.len(),
    {
        self.entries.len()
    }

    /// The name of the entry at `i`.
    pub fn name_at(&self, i: usize) -> (r: &String)
        requires
            i < self@.len(),
        ensures
            r@ == self@[i as int].0,
    {
        &self.entries[i].0
    }

    /// The value of the entry at `i`.
    pub fn value_at(&self, i: usize) -> (r: &String)
        requires
            i < self@.len(),
        ensures
            r@ == self@[i as int].1,
    {
        &self.entries[i].1
    }

    /// Adds an entry at the end, keeping any existing entries of the same name.
    pub fn append(&mut self, name: String, value: String)
        ensures
            final(self)@ == old(self)@.push((name@, value@)),
    {
        let ghost prior = self@;
        self.entries.push((name, value));
        proof {
            assert(self@ =~= prior.push((name@, value@)));
        }
    }

    /// Replaces all entries named `name` with the single given entry, at the end.
    pub fn insert(&mut self, name: String, value: String)
        ensures
            final(self)@ == remove_name(old(self)@, name@).push((name@, value@)),
    {
        let mut kept: Vec<(String, String)> = Vec::new();
        let mut i: usize = 0;
        proof {
            assert(self@.skip(0) =~= self@);
            assert(kept@.map_values(|p: (String, String)| (p.0@, p.1@)) =~= Seq::<(
                Seq<char>,
                Seq<char>,
            )>::empty());
        }
        while i < self.entries.len()
            invariant
                i <= self.entries.len(),
                self@.len() == self.entries@.len(),
                kept@.map_values(|p: (String, String)| (p.0@, p.1@)) + remove_name(
                    self@.skip(i as int),
                    name@,
                ) =~= remove_name(self@, name@),
            decreases self.entries.len() - i,
        {
            let keep = !crate::strutil::str_eq(self.entries[i].0.as_str(), name.as_str());
            proof {
                assert(self@.skip(i as int).drop_first() =~= self@.skip(i + 1));
                assert(self@[i as int] == (self.entries@[i as int].0@, self.entries@[i as int].1@));
            }
            if keep {
                let ghost kept_prior = kept@;
                let pair = (self.entries[i].0.clone(), self.entries[i].1.clone());
                kept.push(pair);
                proof {
                    assert(kept@.map_values(|p: (String, String)| (p.0@, p.1@)) =~= kept_prior
                        .map_values(|p: (String, String)| (p.0@, p.1@)).push(
                        (self@[i as int].0, self@[i as int].1),
                    ));
                }
            }
            i = i + 1;
        }
        proof {
            assert(self@.skip(self.entries@.len() as int) =~= Seq::<(Seq<char>, Seq<char>)>::empty());
        }
        kept.push((name, value));
        self.entries = kept;
        proof {
            assert(self@ =~= remove_name(old(self)@, name@).push((name@, value@)));
        }
    }

    /// The value of the first entry named `name`, if any.
    pub fn get(&self, name: &str) -> (r: Option<&String>)
        ensures
            match r {
                Some(v) => find_value(self@, name@) == Some(v@),
                None => find_value(self@, name@) is None,
            },
    {
        let mut i: usize = 0;
        proof {
            assert(self@.skip(0) =~= self@);
        }
        while i < self.entries.len()
            invariant
                i <= self.entries.len(),
                self@.len() == self.entries@.len(),
                find_value(self@, name@) == find_value(self@.skip(i as int), name@),
            decreases self.entries.len() - i,
        {
            proof {
                assert(self@.skip(i as int).drop_first() =~= self@.skip(i + 1));
                assert(self@[i as int] == (self.entries@[i as int].0@, self.entries@[i as int].1@));
            }
            if crate::strutil::str_eq(self.entries[i].0.as_str(), name) {
                return Some(&self.entries[i].1);
            }
            i = i + 1;
        }
        proof {
            assert(self@.skip(self.entries@.len() as int) =~= Seq::<(Seq<char>, Seq<char>)>::empty());
        }
        None
    }

    /// Whether some entry is named `name`.
    pub fn contains(&self, name: &str) -> (r: bool)
        ensures
            r == find_value(self@, name@) is Some,
    {
        match self.get(name) {
            Some(_) => true,
            None => false,
        }
    }

    /// The values of all entries named `name`, in order.
    pub fn get_all(&self, name: &str) -> (r: Vec<String>)
        ensures
            str_views(r@) == values_of(self@, name@),
    {
        let mut r: Vec<String> = Vec::new();
        let mut i: usize = 0;
        proof {
            assert(self@.skip(0) =~= self@);
            assert(str_views(r@) =~= Seq::<Seq<char>>::empty());
        }
        while i < self.entries.len()
            invariant
                i <= self.entries.len(),
                self@.len() == self.entries@.len(),
                str_views(r@) + values_of(self@.skip(i as int), name@) =~= values_of(self@, name@),
            decreases self.entries.len() - i,
        {
            proof {
                assert(self@.skip(i as int).drop_first() =~= self@.skip(i + 1));
                assert(self@[i as int] == (self.entries@[i as int].0@, self.entries@[i as int].1@));
            }
            if crate::strutil::str_eq(self.entries[i].0.as_str(), name) {
                let ghost r_prior = r@;
                let v = self.entries[i].1.clone();
                r.push(v);
                proof {
                    assert(str_views(r@) =~= str_views(r_prior).push(self@[i as int].1));
                }
            }
            i = i + 1;
        }
        proof {
            assert(self@.skip(self.entries@.len() as int) =~= Seq::<(Seq<char>, Seq<char>)>::empty());
        }
        r
    }
}

impl Clone for Headers {
    /// A clone carries exactly the entries of the original.
    fn clone(&self) -> (r: Self)
        ensures
            r@ == self@,
    {
        let mut entries: Vec<(String, String)> = Vec::new();
        let mut i: usize = 0;
        while i < self.entries.len()
            invariant
                i <= self.entries.len(),
                self@.len() == self.entries@.len(),
                entries@.len() == i,
                entries@.map_values(|p: (String, String)| (p.0@, p.1@)) =~= self@.take(i as int),
            decreases self.entries.len() - i,
        {
            let ghost prior = entries@;
            let pair = (self.entries[i].0.clone(), self.entries[i].1.clone());
            let ghost pair_snap = pair;
            proof {
                assert(pair_snap.0@ == self.entries@[i as int].0@);
                assert(pair_snap.1@ == self.entries@[i as int].1@);
            }
            entries.push(pair);
            proof {
                assert(entries@ == prior.push(pair_snap));
                assert(self@[i as int] == (self.entries@[i as int].0@, self.entries@[i as int].1@));
                assert(entries@.map_values(|p: (String, String)| (p.0@, p.1@)) =~= self@.take(
                    i + 1,
                ));
            }
            i = i + 1;
        }
        let r = Headers { entries };
        proof {
            assert(self@.take(self.entries@.len() as int) =~= self@);
            assert(r@ =~= self@);
        }
        r
    }
}

} // verus!
