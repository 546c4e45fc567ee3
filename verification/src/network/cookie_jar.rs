//! The cookies of a session, by name.

use vstd::prelude::*;

verus! {

/// A session's cookies: at most one value under each name.
#[derive(Debug, Clone)]
pub struct SessionCookieJar {
    cookies: Vec<(String, String)>,
}

/// The place of `name` among the entries, where it has one.
pub open spec fn index_of(entries: Seq<(String, String)>, name: Seq<char>) -> Option<int> {
    if exists|i: int| 0 <= i < entries.len() && (#[trigger] entries[i]).0@ == name {
        Some(choose|i: int| 0 <= i < entries.len() && (#[trigger] entries[i]).0@ == name)
    } else {
        None
    }
}

/// Whether no name occurs twice among the entries.
pub open spec fn names_are_distinct(entries: Seq<(String, String)>) -> bool {
    forall|i: int, j: int|
        0 <= i < j < entries.len() ==> (#[trigger] entries[i]).0@ != (#[trigger] entries[j]).0@
}

impl SessionCookieJar {
    /// Whether the jar is well formed: no name occurs twice.
    pub closed spec fn wf(&self) -> bool {
        names_are_distinct(self.cookies@)
    }

    /// The cookies as a map from name to value.
    pub closed spec fn view(&self) -> Map<Seq<char>, Seq<char>> {
        entries_map(self.cookies@)
    }

    /// A jar without cookies.
    pub fn new() -> (r: Self)
        ensures
            r.wf(),
            r@ == Map::<Seq<char>, Seq<char>>::empty(),
    {
        let r = SessionCookieJar { cookies: Vec::new() };
        assert(r@ =~= Map::<Seq<char>, Seq<char>>::empty());
        r
    }

    /// Puts `value` under `name`, in place of the value that was there.
    pub fn insert(&mut self, name: String, value: String)
        requires
            old(self).wf(),
        ensures
            final(self).wf(),
            final(self)@ == old(self)@.insert(name@, value@),
    {
        let ghost before = self.cookies@;
        let mut i: usize = 0;
        while i < self.cookies.len()
            invariant
                i <= self.cookies@.len(),
                self.cookies@ == before,
                before == old(self).cookies@,
                names_are_distinct(before),
                forall|k: int| 0 <= k < i ==> (#[trigger] before[k]).0@ != name@,
            decreases self.cookies@.len() - i,
        {
            if self.cookies[i].0 == name {
                self.cookies.set(i, (name, value));
                proof {
                    lemma_entry_replaced(before, self.cookies@, i as int);
                    assert(self@ =~= old(self)@.insert(name@, value@));
                }
                return ;
            }
            i += 1;
        }
        self.cookies.push((name, value));
        proof {
            lemma_entry_added(before, self.cookies@);
            assert(self@ =~= old(self)@.insert(name@, value@));
        }
    }

    /// The value under `name`, if the jar holds one.
    pub fn get(&self, name: &str) -> (r: Option<&str>)
        requires
            self.wf(),
        ensures
            match r {
                Some(value) => self@.contains_key(name@) && self@[name@] == value@,
                None => !self@.contains_key(name@),
            },
    {
        let wanted = name.to_owned();
        let mut i: usize = 0;
        while i < self.cookies.len()
            invariant
                i <= self.cookies@.len(),
                wanted@ == name@,
                names_are_distinct(self.cookies@),
                forall|k: int| 0 <= k < i ==> (#[trigger] self.cookies@[k]).0@ != name@,
            decreases self.cookies@.len() - i,
        {
            if self.cookies[i].0 == wanted {
                proof {
                    lemma_index_of(self.cookies@, i as int);
                }
                return Some(self.cookies[i].1.as_str());
            }
            i += 1;
        }
        None
    }
}

/// The entries as a map from name to value.
pub open spec fn entries_map(entries: Seq<(String, String)>) -> Map<Seq<char>, Seq<char>> {
    Map::new(
        |name: Seq<char>| index_of(entries, name) is Some,
        |name: Seq<char>| entries[index_of(entries, name).unwrap()].1@,
    )
}

proof fn lemma_index_of(entries: Seq<(String, String)>, at: int)
    requires
        names_are_distinct(entries),
        0 <= at < entries.len(),
    ensures
        index_of(entries, entries[at].0@) == Some(at),
{
    let name = entries[at].0@;
    assert(entries[at].0@ == name);
    let found = index_of(entries, name).unwrap();
    assert(entries[found].0@ == name);
    if found < at {
        assert(entries[found].0@ != entries[at].0@);
    } else if at < found {
        assert(entries[at].0@ != entries[found].0@);
    }
}

proof fn lemma_entry_replaced(
    before: Seq<(String, String)>,
    after: Seq<(String, String)>,
    at: int,
)
    requires
        names_are_distinct(before),
        0 <= at < before.len(),
        after == before.update(at, after[at]),
        after.len() == before.len(),
        after[at].0@ == before[at].0@,
    ensures
        names_are_distinct(after),
        entries_map(after) =~= entries_map(before).insert(after[at].0@, after[at].1@),
{
    assert forall|k: int| 0 <= k < after.len() implies (#[trigger] after[k]).0@ == before[k].0@ by {}
    assert forall|key: Seq<char>|
        entries_map(after).contains_key(key) <==> #[trigger] entries_map(before).insert(
            after[at].0@,
            after[at].1@,
        ).contains_key(key) by {
        if index_of(after, key) is Some {
            let k = index_of(after, key).unwrap();
            assert(before[k].0@ == key);
        }
        if index_of(before, key) is Some {
            let k = index_of(before, key).unwrap();
            assert(after[k].0@ == key);
        }
        if key == after[at].0@ {
            lemma_index_of(after, at);
        }
    }
    assert forall|key: Seq<char>| entries_map(after).contains_key(key) implies #[trigger] entries_map(
        after,
    )[key] == entries_map(before).insert(after[at].0@, after[at].1@)[key] by {
        let k = index_of(after, key).unwrap();
        assert(after[k].0@ == key);
        lemma_index_of(after, k);
        lemma_index_of(before, k);
        if k != at {
            assert(after[k] == before[k]);
        }
    }
}

proof fn lemma_entry_added(before: Seq<(String, String)>, after: Seq<(String, String)>)
    requires
        names_are_distinct(before),
        after.len() == before.len() + 1,
        after == before.push(after.last()),
        forall|k: int| 0 <= k < before.len() ==> (#[trigger] before[k]).0@ != after.last().0@,
    ensures
        names_are_distinct(after),
        entries_map(after) =~= entries_map(before).insert(after.last().0@, after.last().1@),
{
    let last = before.len() as int;
    assert forall|k: int| 0 <= k < before.len() implies #[trigger] after[k] == before[k] by {}
    assert(names_are_distinct(after)) by {
        assert forall|i: int, j: int| 0 <= i < j < after.len() implies (#[trigger] after[i]).0@ != (
        #[trigger] after[j]).0@ by {
            if j < last {
                assert(before[i].0@ != before[j].0@);
            } else {
                assert(before[i].0@ != after.last().0@);
            }
        }
    }
    assert forall|key: Seq<char>|
        entries_map(after).contains_key(key) <==> #[trigger] entries_map(before).insert(
            after.last().0@,
            after.last().1@,
        ).contains_key(key) by {
        if index_of(after, key) is Some {
            let k = index_of(after, key).unwrap();
            if k < last {
                assert(before[k].0@ == key);
            }
        }
        if index_of(before, key) is Some {
            let k = index_of(before, key).unwrap();
            assert(after[k].0@ == key);
        }
        if key == after.last().0@ {
            assert(after[last].0@ == key);
        }
    }
    assert forall|key: Seq<char>| entries_map(after).contains_key(key) implies #[trigger] entries_map(
        after,
    )[key] == entries_map(before).insert(after.last().0@, after.last().1@)[key] by {
        let k = index_of(after, key).unwrap();
        assert(after[k].0@ == key);
        lemma_index_of(after, k);
        if k < last {
            lemma_index_of(before, k);
        }
    }
}

impl Default for SessionCookieJar {
    fn default() -> (r: Self)
        ensures
            r.wf(),
            r@ == Map::<Seq<char>, Seq<char>>::empty(),
    {
        SessionCookieJar::new()
    }
}

} // verus!
