//! The properties of the entity that a flag is evaluated for.
use crate::dispatch::pairs_view;
use crate::json::{object_text, string_members, string_object};
use vstd::prelude::*;

verus! {

/// No name appears twice in `entries`.
pub open spec fn distinct_names(entries: Seq<(Seq<char>, Seq<char>)>) -> bool {
    forall|i: int, j: int| 0 <= i < j < entries.len() ==> entries[i].0 != entries[j].0
}

/// Names and string values, each name at most once, in the order in which
/// the names were first set. Sent as a JSON object.
#[derive(Debug)]
pub struct Context {
    entries: Vec<(String, String)>,
}

impl View for Context {
    type V = Seq<(Seq<char>, Seq<char>)>;

    closed spec fn view(&self) -> Seq<(Seq<char>, Seq<char>)> {
        pairs_view(self.entries@)
    }
}

impl Context {
    #[verifier::type_invariant]
    spec fn names_are_distinct(self) -> bool {
        distinct_names(pairs_view(self.entries@))
    }

    pub fn new() -> (r: Context)
        ensures
            r@ == Seq::<(Seq<char>, Seq<char>)>::empty(),
            distinct_names(r@),
    {
        let r = Context { entries: Vec::new() };
        assert(r@ =~= Seq::<(Seq<char>, Seq<char>)>::empty());
        r
    }

    /// Sets `name` to `value`: in its place where the name is there
    /// already, at the end otherwise.
    pub fn insert(&mut self, name: String, value: String)
        ensures
            forall|i: int|
                0 <= i < old(self)@.len() && old(self)@[i].0 == name@ ==> final(self)@ == old(self)@.update(i, (name@, value@)),
            (forall|i: int| 0 <= i < old(self)@.len() ==> old(self)@[i].0 != name@) ==> final(self)@ == old(self)@.push((name@, value@)),
            distinct_names(final(self)@),
    {
        proof {
            use_type_invariant(&*self);
        }
        let mut entries: Vec<(String, String)> = Vec::new();
        std::mem::swap(&mut entries, &mut self.entries);
        let ghost start = pairs_view(entries@);
        assert(start == old(self)@);
        let mut i: usize = 0;
        while i < entries.len()
            invariant
                i <= entries@.len(),
                pairs_view(entries@) == start,
                start == old(self)@,
                distinct_names(start),
                forall|j: int| 0 <= j < i ==> start[j].0 != name@,
            decreases entries@.len() - i,
        {
            if entries[i].0 == name {
                let ghost at = i as int;
                assert(start[at].0 == name@);
                entries.set(i, (name, value));
                let ghost upd = start.update(at, (name@, value@));
                assert(pairs_view(entries@) =~= upd);
                assert forall|j: int| 0 <= j < upd.len() implies #[trigger] upd[j].0 == start[j].0 by {}
                assert(distinct_names(upd));
                assert forall|k: int| 0 <= k < start.len() && start[k].0 == name@ implies k == at by {}
                assert(old(self)@[at].0 == name@);
                self.entries = entries;
                return;
            }
            i = i + 1;
        }
        entries.push((name, value));
        assert(pairs_view(entries@) =~= start.push((name@, value@)));
        self.entries = entries;
    }

    /// The JSON object of the context.
    pub fn to_json(&self) -> (r: String)
        ensures
            r@ == object_text(string_members(self@)),
            distinct_names(self@),
    {
        proof {
            use_type_invariant(self);
        }
        string_object(&self.entries)
    }
}

impl Default for Context {
    fn default() -> (r: Context)
        ensures
            r@ == Seq::<(Seq<char>, Seq<char>)>::empty(),
    {
        Context::new()
    }
}

impl Clone for Context {
    fn clone(&self) -> (r: Context)
        ensures
            r@ == self@,
    {
        proof {
            use_type_invariant(self);
        }
        let mut entries: Vec<(String, String)> = Vec::new();
        let mut i: usize = 0;
        while i < self.entries.len()
            invariant
                i <= self.entries@.len(),
                distinct_names(pairs_view(self.entries@)),
                pairs_view(entries@) =~= pairs_view(self.entries@).take(i as int),
            decreases self.entries@.len() - i,
        {
            let name = self.entries[i].0.clone();
            let value = self.entries[i].1.clone();
            let ghost before = entries@;
            entries.push((name, value));
            assert(pairs_view(entries@) =~= pairs_view(before).push(pairs_view(self.entries@)[i as int]));
            i = i + 1;
        }
        assert(pairs_view(self.entries@).take(self.entries@.len() as int) =~= pairs_view(self.entries@));
        Context { entries }
    }
}

} // verus!
