//! Tables with names as keys, kept as a row of entries. Under each name the
//! table holds the first entry of that name.

use vstd::prelude::*;

verus! {

/// `name` stands in `entries`.
pub open spec fn names<H>(entries: Seq<(String, H)>, name: Seq<char>) -> bool {
    exists|i: int| 0 <= i < entries.len() && (#[trigger] entries[i]).0@ == name
}

/// The entry at `i` is the first in `entries` that is named `name`.
pub open spec fn first_named<H>(entries: Seq<(String, H)>, name: Seq<char>, i: int) -> bool {
    &&& 0 <= i < entries.len()
    &&& entries[i].0@ == name
    &&& forall|j: int| 0 <= j < i ==> (#[trigger] entries[j]).0@ != name
}

/// Where `name` first stands in `entries`.
pub open spec fn place<H>(entries: Seq<(String, H)>, name: Seq<char>) -> int {
    choose|i: int| first_named(entries, name, i)
}

/// `entries` as a table from names to handlers: under each name the first
/// entry of that name.
pub open spec fn table<H>(entries: Seq<(String, H)>) -> Map<Seq<char>, H> {
    Map::new(|name: Seq<char>| names(entries, name), |name: Seq<char>| entries[place(entries, name)].1)
}

/// The first entry of a name is the only one that stands first.
pub proof fn lemma_place<H>(entries: Seq<(String, H)>, name: Seq<char>, i: int)
    requires
        first_named(entries, name, i),
    ensures
        names(entries, name),
        place(entries, name) == i,
{
    let k = place(entries, name);
    assert(first_named(entries, name, k));
    if k < i {
        assert(entries[k].0@ != name);
    }
    if i < k {
        assert(entries[i].0@ != name);
    }
}

/// A name that stands in `entries` stands somewhere first.
pub proof fn lemma_named_has_place<H>(entries: Seq<(String, H)>, name: Seq<char>)
    requires
        names(entries, name),
    ensures
        first_named(entries, name, place(entries, name)),
    decreases entries.len(),
{
    let i = choose|i: int| 0 <= i < entries.len() && (#[trigger] entries[i]).0@ == name;
    if exists|j: int| 0 <= j < i && (#[trigger] entries[j]).0@ == name {
        let shorter = entries.take(i);
        let j = choose|j: int| 0 <= j < i && (#[trigger] entries[j]).0@ == name;
        assert(shorter[j].0@ == name);
        lemma_named_has_place(shorter, name);
        let k = place(shorter, name);
        assert(first_named(entries, name, k)) by {
            assert(shorter[k] == entries[k]);
            assert forall|m: int| 0 <= m < k implies (#[trigger] entries[m]).0@ != name by {
                assert(shorter[m] == entries[m]);
            }
        }
    } else {
        assert(first_named(entries, name, i));
    }
}

/// Adding an entry under a new name adds it to the table.
pub proof fn lemma_table_push<H>(entries: Seq<(String, H)>, key: String, handler: H)
    requires
        !names(entries, key@),
    ensures
        table(entries.push((key, handler))) == table(entries).insert(key@, handler),
{
    let longer = entries.push((key, handler));
    assert forall|name: Seq<char>| names(longer, name) <==> (names(entries, name) || name == key@) by {
        if names(entries, name) {
            let i = choose|i: int| 0 <= i < entries.len() && (#[trigger] entries[i]).0@ == name;
            assert(longer[i].0@ == name);
        }
        if name == key@ {
            assert(longer[entries.len() as int].0@ == name);
        }
        if names(longer, name) {
            let i = choose|i: int| 0 <= i < longer.len() && (#[trigger] longer[i]).0@ == name;
            if i < entries.len() {
                assert(entries[i].0@ == name);
            }
        }
    }
    assert forall|name: Seq<char>| names(longer, name) implies #[trigger] table(longer)[name]
        == table(entries).insert(key@, handler)[name] by {
        if name == key@ {
            assert(first_named(longer, name, entries.len() as int)) by {
                assert forall|j: int| 0 <= j < entries.len() implies (#[trigger] longer[j]).0@
                    != name by {
                    assert(entries[j].0@ != key@);
                }
            }
            lemma_place(longer, name, entries.len() as int);
        } else {
            lemma_named_has_place(entries, name);
            let k = place(entries, name);
            assert(first_named(longer, name, k)) by {
                assert(longer[k] == entries[k]);
                assert forall|j: int| 0 <= j < k implies (#[trigger] longer[j]).0@ != name by {
                    assert(longer[j] == entries[j]);
                }
            }
            lemma_place(longer, name, k);
        }
    }
    assert(table(longer) =~= table(entries).insert(key@, handler));
}

/// Where the first entry named `key` stands in `entries`, if there is one.
pub fn find<H>(entries: &Vec<(String, H)>, key: &str) -> (at: Option<usize>)
    ensures
        match at {
            Some(i) => first_named(entries@, key@, i as int) && names(entries@, key@) && table(
                entries@,
            )[key@] == entries@[i as int].1,
            None => !names(entries@, key@),
        },
{
    let wanted = key.to_owned();
    let mut i: usize = 0;
    while i < entries.len()
        invariant
            i <= entries.len(),
            wanted@ == key@,
            forall|j: int| 0 <= j < i ==> (#[trigger] entries@[j]).0@ != key@,
        decreases entries.len() - i,
    {
        if entries[i].0 == wanted {
            proof {
                lemma_place(entries@, key@, i as int);
            }
            return Some(i);
        }
        i += 1;
    }
    None
}

/// Putting another handler in the place of the first entry of a name puts it
/// under that name in the table.
pub proof fn lemma_table_update<H>(entries: Seq<(String, H)>, at: int, key: String, handler: H)
    requires
        first_named(entries, key@, at),
    ensures
        table(entries.update(at, (key, handler))) == table(entries).insert(key@, handler),
{
    let changed = entries.update(at, (key, handler));
    assert forall|name: Seq<char>| names(changed, name) <==> names(entries, name) by {
        if names(entries, name) {
            let i = choose|i: int| 0 <= i < entries.len() && (#[trigger] entries[i]).0@ == name;
            assert(changed[i].0@ == name);
        }
        if names(changed, name) {
            let i = choose|i: int| 0 <= i < changed.len() && (#[trigger] changed[i]).0@ == name;
            assert(entries[i].0@ == name);
        }
    }
    assert(names(entries, key@)) by {
        assert(entries[at].0@ == key@);
    }
    assert forall|name: Seq<char>| names(changed, name) implies #[trigger] table(changed)[name]
        == table(entries).insert(key@, handler)[name] by {
        lemma_named_has_place(entries, name);
        let k = place(entries, name);
        assert(first_named(changed, name, k)) by {
            assert(changed[k].0@ == entries[k].0@);
            assert forall|j: int| 0 <= j < k implies (#[trigger] changed[j]).0@ != name by {
                assert(changed[j].0@ == entries[j].0@);
            }
        }
        lemma_place(changed, name, k);
        if name == key@ {
            lemma_place(entries, name, at);
        } else {
            assert(k != at);
        }
    }
    assert(table(changed) =~= table(entries).insert(key@, handler));
}

} // verus!
