//! The header set of a client: names with their values, no name twice.

use vstd::prelude::*;

verus! {

/// A set of HTTP headers. A name has at most one value; to set a header
/// that is there replaces its value. Names are taken as they are written.
#[derive(Debug, PartialEq, Eq)]
pub struct Headers {
    entries: Vec<(String, String)>,
}

/// Whether `entries` holds a header named `name` at `i`.
pub open spec fn names_at(entries: Seq<(String, String)>, name: Seq<char>, i: int) -> bool {
    0 <= i < entries.len() && entries[i].0@ == name
}

/// The headers that `entries` lists, each name with its value.
pub open spec fn listed(entries: Seq<(String, String)>) -> Map<Seq<char>, Seq<char>> {
    Map::new(
        |name: Seq<char>| exists|i: int| names_at(entries, name, i),
        |name: Seq<char>| entries[choose|i: int| names_at(entries, name, i)].1@,
    )
}

/// Whether no name occurs twice in `entries`.
pub open spec fn distinct_names(entries: Seq<(String, String)>) -> bool {
    forall|i: int, j: int|
        0 <= i < entries.len() && 0 <= j < entries.len() && i != j ==> (#[trigger] entries[i]).0@
            != (#[trigger] entries[j]).0@
}

/// In a list without repeated names, the entry at `i` is the header of its
/// name.
proof fn lemma_listed_at(entries: Seq<(String, String)>, i: int)
    requires
        distinct_names(entries),
        0 <= i < entries.len(),
    ensures
        listed(entries).contains_key(entries[i].0@),
        listed(entries)[entries[i].0@] == entries[i].1@,
{
    let name = entries[i].0@;
    assert(names_at(entries, name, i));
    let chosen = choose|k: int| names_at(entries, name, k);
    assert(chosen == i);
}

/// To put a header in the place of the one with its name sets that header
/// and leaves the others as they are.
proof fn lemma_replace(entries: Seq<(String, String)>, i: int, header: (String, String))
    requires
        distinct_names(entries),
        names_at(entries, header.0@, i),
    ensures
        distinct_names(entries.update(i, header)),
        listed(entries.update(i, header)) == listed(entries).insert(header.0@, header.1@),
{
    let after = entries.update(i, header);
    assert forall|name: Seq<char>, k: int| names_at(after, name, k) <==> names_at(
        entries,
        name,
        k,
    ) by {
        if 0 <= k < after.len() {
            assert(after[k].0@ == entries[k].0@);
        }
    }
    assert(distinct_names(after)) by {
        assert forall|a: int, b: int|
            0 <= a < after.len() && 0 <= b < after.len() && a != b implies (#[trigger] after[a]).0@
            != (#[trigger] after[b]).0@ by {
            assert(names_at(entries, after[a].0@, a));
            assert(names_at(entries, after[b].0@, b));
        }
    }
    assert forall|name: Seq<char>| #[trigger]
        listed(after).contains_key(name) implies listed(after)[name] == listed(entries).insert(
        header.0@,
        header.1@,
    )[name] by {
        let k = choose|k: int| names_at(after, name, k);
        lemma_listed_at(after, k);
        if k != i {
            lemma_listed_at(entries, k);
        }
    }
    assert(names_at(after, header.0@, i));
    assert(listed(after) =~= listed(entries).insert(header.0@, header.1@));
}

/// To add a header under a name that is not there sets that header and
/// leaves the others as they are.
proof fn lemma_add(entries: Seq<(String, String)>, header: (String, String))
    requires
        distinct_names(entries),
        forall|i: int| !names_at(entries, header.0@, i),
    ensures
        distinct_names(entries.push(header)),
        listed(entries.push(header)) == listed(entries).insert(header.0@, header.1@),
{
    let after = entries.push(header);
    let last = entries.len() as int;
    assert(names_at(after, header.0@, last));
    assert forall|name: Seq<char>, k: int| 0 <= k < last implies (names_at(after, name, k)
        <==> names_at(entries, name, k)) by {
        assert(after[k] == entries[k]);
    }
    assert(distinct_names(after)) by {
        assert forall|a: int, b: int|
            0 <= a < after.len() && 0 <= b < after.len() && a != b implies (#[trigger] after[a]).0@
            != (#[trigger] after[b]).0@ by {
            if a < last {
                assert(names_at(entries, after[a].0@, a));
            }
            if b < last {
                assert(names_at(entries, after[b].0@, b));
            }
        }
    }
    assert forall|name: Seq<char>| #[trigger]
        listed(after).contains_key(name) <==> listed(entries).insert(
            header.0@,
            header.1@,
        ).contains_key(name) by {
        if listed(after).contains_key(name) {
            let k = choose|k: int| names_at(after, name, k);
            if k < last {
                assert(names_at(entries, name, k));
            }
        }
        if listed(entries).contains_key(name) {
            let k = choose|k: int| names_at(entries, name, k);
            assert(names_at(after, name, k));
        }
    }
    assert forall|name: Seq<char>| #[trigger]
        listed(after).contains_key(name) implies listed(after)[name] == listed(entries).insert(
        header.0@,
        header.1@,
    )[name] by {
        let k = choose|k: int| names_at(after, name, k);
        lemma_listed_at(after, k);
        if k < last {
            assert(names_at(entries, name, k));
            lemma_listed_at(entries, k);
        }
    }
    assert(listed(after) =~= listed(entries).insert(header.0@, header.1@));
}

impl View for Headers {
    type V = Map<Seq<char>, Seq<char>>;

    closed spec fn view(&self) -> Map<Seq<char>, Seq<char>> {
        listed(self.entries@)
    }
}

impl Headers {
    #[verifier::type_invariant]
    spec fn well_formed(self) -> bool {
        distinct_names(self.entries@)
    }

    /// The empty header set.
    pub fn new() -> (headers: Headers)
        ensures
            headers@ == Map::<Seq<char>, Seq<char>>::empty(),
    {
        let headers = Headers { entries: Vec::new() };
        assert(headers@ =~= Map::<Seq<char>, Seq<char>>::empty());
        headers
    }

    /// The place of the header named `name`, if there is one.
    fn position(&self, name: &String) -> (place: Option<usize>)
        ensures
            match place {
                Some(i) => names_at(self.entries@, name@, i as int),
                None => forall|i: int| !names_at(self.entries@, name@, i),
            },
    {
        let mut i: usize = 0;
        while i < self.entries.len()
            invariant
                i <= self.entries.len(),
                forall|k: int| 0 <= k < i ==> !names_at(self.entries@, name@, k),
            decreases self.entries.len() - i,
        {
            if self.entries[i].0 == *name {
                return Some(i);
            }
            i += 1;
        }
        None
    }

    /// These headers with the header `name` set to `value`, whether or not
    /// it was set before.
    pub fn with(self, name: &str, value: &str) -> (headers: Headers)
        ensures
            headers@ == self@.insert(name@, value@),
    {
        proof {
            use_type_invariant(&self);
        }
        let header = (name.to_owned(), value.to_owned());
        let place = self.position(&header.0);
        let mut entries = self.entries;
        match place {
            Some(i) => {
                proof {
                    lemma_replace(entries@, i as int, header);
                }
                entries.set(i, header);
            },
            None => {
                proof {
                    lemma_add(entries@, header);
                }
                entries.push(header);
            },
        }
        Headers { entries }
    }

    /// The value of the header named `name`, if it is set.
    pub fn get(&self, name: &str) -> (value: Option<&String>)
        ensures
            match value {
                Some(v) => self@.contains_key(name@) && self@[name@] == v@,
                None => !self@.contains_key(name@),
            },
    {
        proof {
            use_type_invariant(self);
        }
        let name = name.to_owned();
        match self.position(&name) {
            Some(i) => {
                proof {
                    lemma_listed_at(self.entries@, i as int);
                }
                Some(&self.entries[i].1)
            },
            None => None,
        }
    }

    /// The headers as a list, each name once with its value.
    pub fn entries(&self) -> (entries: &Vec<(String, String)>)
        ensures
            distinct_names(entries@),
            listed(entries@) == self@,
    {
        proof {
            use_type_invariant(self);
        }
        &self.entries
    }
}

} // verus!
