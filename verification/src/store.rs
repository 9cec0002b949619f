//! The variable store: string-keyed, string-valued mappings with
//! last-write-wins insertion, kept for the lifetime of one invocation.

use vstd::prelude::*;

use crate::chars::str_eq;

verus! {

/// The mapping described by a sequence of entries, later entries winning.
pub open spec fn map_of_entries(s: Seq<(Seq<char>, Seq<char>)>) -> Map<Seq<char>, Seq<char>>
    decreases s.len(),
{
    if s.len() == 0 {
        Map::empty()
    } else {
        map_of_entries(s.drop_last()).insert(s.last().0, s.last().1)
    }
}

/// One of the store's two mappings: keys to values, last write wins.
#[derive(Debug, Clone)]
pub struct VarMap {
    entries: Vec<(String, String)>,
}

impl View for VarMap {
    type V = Map<Seq<char>, Seq<char>>;

    closed spec fn view(&self) -> Map<Seq<char>, Seq<char>> {
        map_of_entries(self.entry_views())
    }
}

impl VarMap {
    pub closed spec fn entry_views(&self) -> Seq<(Seq<char>, Seq<char>)> {
        self.entries@.map_values(|p: (String, String)| (p.0@, p.1@))
    }

    /// An empty mapping.
    pub fn new() -> (r: VarMap)
        ensures
            r@ == Map::<Seq<char>, Seq<char>>::empty(),
    {
        let r = VarMap { entries: Vec::new() };
        proof {
            assert(r.entry_views() =~= Seq::<(Seq<char>, Seq<char>)>::empty());
        }
        r
    }

    /// Binds `key` to `value`; an earlier binding of the same key is shadowed.
    pub fn insert(&mut self, key: String, value: String)
        ensures
            final(self)@ == old(self)@.insert(key@, value@),
    {
        let ghost kv = (key@, value@);
        let ghost old_ev = self.entry_views();
        self.entries.push((key, value));
        proof {
            assert(self.entry_views().drop_last() =~= old_ev);
            assert(self.entry_views().last() == kv);
        }
    }

    /// The value bound to `key`, or `None` where no binding exists.
    pub fn get<'a>(&'a self, key: &str) -> (r: Option<&'a String>)
        ensures
            match r {
                Some(v) => self@.contains_key(key@) && v@ == self@[key@],
                None => !self@.contains_key(key@),
            },
    {
        let ghost ev = self.entry_views();
        let mut i = self.entries.len();
        proof {
            assert(ev.take(i as int) =~= ev);
        }
        while i > 0
            invariant
                0 <= i <= self.entries@.len(),
                ev == self.entry_views(),
                self@.contains_key(key@) <==> map_of_entries(ev.take(i as int)).contains_key(key@),
                self@.contains_key(key@) ==> self@[key@] == map_of_entries(ev.take(i as int))[key@],
            decreases i,
        {
            let ghost prev = ev.take(i as int);
            proof {
                assert(prev.drop_last() =~= ev.take(i - 1));
                assert(prev.last() == ev[i - 1]);
            }
            if str_eq(self.entries[i - 1].0.as_str(), key) {
                return Some(&self.entries[i - 1].1);
            }
            i = i - 1;
        }
        proof {
            assert(ev.take(0) =~= Seq::<(Seq<char>, Seq<char>)>::empty());
        }
        None
    }
}

} // verus!
