//! Tables that are looked up by name.

use crate::text::str_eq;
use vstd::prelude::*;

verus! {

/// The value that was last put under `name`, if any: `names` and `values`
/// hold the entries in the order in which they were put.
pub open spec fn last_under<V>(names: Seq<Seq<char>>, values: Seq<V>, name: Seq<char>) -> Option<V>
    decreases names.len(),
{
    if names.len() == 0 || values.len() != names.len() {
        None
    } else if names.last() == name {
        Some(values.last())
    } else {
        last_under(names.drop_last(), values.drop_last(), name)
    }
}

/// The characters of each name of a list.
pub open spec fn names_view(names: Seq<String>) -> Seq<Seq<char>> {
    names.map_values(|n: String| n@)
}

/// A table from names to values. A value put under a name replaces the one
/// that was there.
///
/// The entries are kept in the order in which they were put, and a name is
/// looked up from the last entry to the first. What a lookup returns is so
/// stated over the entries themselves; vstd specifies what a hash map
/// holds for integer keys only, not for text.
pub struct NameMap<V> {
    names: Vec<String>,
    values: Vec<V>,
}

impl<V> NameMap<V> {
    #[verifier::type_invariant]
    spec fn paired(&self) -> bool {
        self.names@.len() == self.values@.len()
    }

    /// The names in the order in which they were put.
    pub closed spec fn spec_names(&self) -> Seq<Seq<char>> {
        names_view(self.names@)
    }

    /// The values in the order in which they were put.
    pub closed spec fn spec_values(&self) -> Seq<V> {
        self.values@
    }

    /// The value under `name`, if any.
    pub open spec fn spec_get(&self, name: Seq<char>) -> Option<V> {
        last_under(self.spec_names(), self.spec_values(), name)
    }

    /// The empty table.
    pub fn new() -> (map: NameMap<V>)
        ensures
            map.spec_names() == Seq::<Seq<char>>::empty(),
            map.spec_values() == Seq::<V>::empty(),
    {
        let map = NameMap { names: Vec::new(), values: Vec::new() };
        assert(map.spec_names() =~= Seq::<Seq<char>>::empty());
        map
    }

    /// Puts `value` under `name`.
    pub fn insert(self, name: String, value: V) -> (map: NameMap<V>)
        ensures
            map.spec_names() == self.spec_names().push(name@),
            map.spec_values() == self.spec_values().push(value),
            forall|n: Seq<char>|
                map.spec_get(n) == if n == name@ {
                    Some(value)
                } else {
                    self.spec_get(n)
                },
    {
        proof {
            use_type_invariant(&self);
        }
        let NameMap { mut names, mut values } = self;
        let ghost old_names = names_view(names@);
        let ghost old_values = values@;
        names.push(name);
        values.push(value);
        let map = NameMap { names, values };
        proof {
            assert(map.spec_names() =~= old_names.push(name@));
            assert(map.spec_names().drop_last() =~= old_names);
            assert(map.spec_values().drop_last() =~= old_values);
        }
        map
    }

    /// Returns the value under `name`, if any.
    pub fn get(&self, name: &str) -> (value: Option<&V>)
        ensures
            match value {
                Some(v) => self.spec_get(name@) == Some(*v),
                None => self.spec_get(name@) is None,
            },
    {
        proof {
            use_type_invariant(self);
        }
        let ghost names = self.spec_names();
        let ghost values = self.spec_values();
        let mut i: usize = self.names.len();
        assert(names.take(i as int) =~= names);
        assert(values.take(i as int) =~= values);
        while i > 0
            invariant
                i <= self.names@.len(),
                self.names@.len() == self.values@.len(),
                names == names_view(self.names@),
                values == self.values@,
                last_under(names, values, name@) == last_under(
                    names.take(i as int),
                    values.take(i as int),
                    name@,
                ),
            decreases i,
        {
            i = i - 1;
            proof {
                assert(names.take(i + 1).drop_last() =~= names.take(i as int));
                assert(values.take(i + 1).drop_last() =~= values.take(i as int));
                assert(names.take(i + 1).last() == self.names@[i as int]@);
            }
            if str_eq(self.names[i].as_str(), name) {
                return Some(&self.values[i]);
            }
        }
        None
    }

    /// The number of entries that were put.
    pub fn len(&self) -> (n: usize)
        ensures
            n == self.spec_names().len(),
    {
        self.names.len()
    }
}

/// Something that has a name.
pub trait Named {
    /// The name.
    spec fn spec_name(&self) -> Seq<char>;

    /// The name.
    fn name(&self) -> (name: &str)
        ensures
            name@ == self.spec_name(),
    ;
}

/// The names of the things of a list.
pub open spec fn names_of<T: Named>(items: Seq<T>) -> Seq<Seq<char>> {
    items.map_values(|t: T| t.spec_name())
}

/// The first place at which `name` stands in `names`, if any.
pub open spec fn first_named(names: Seq<Seq<char>>, name: Seq<char>) -> Option<int>
    decreases names.len(),
{
    if names.len() == 0 {
        None
    } else if names[0] == name {
        Some(0)
    } else {
        match first_named(names.skip(1), name) {
            Some(i) => Some(i + 1),
            None => None,
        }
    }
}

/// The first place at which a name stands is the place before which it
/// stands nowhere.
pub proof fn lemma_first_named(names: Seq<Seq<char>>, name: Seq<char>, i: int)
    requires
        0 <= i <= names.len(),
        forall|j: int| 0 <= j < i ==> names[j] != name,
        i == names.len() || names[i] == name,
    ensures
        first_named(names, name) == if i == names.len() {
            None
        } else {
            Some(i)
        },
    decreases i,
{
    if i > 0 {
        let rest = names.skip(1);
        assert forall|j: int| 0 <= j < i - 1 implies rest[j] != name by {
            assert(rest[j] == names[j + 1]);
        }
        lemma_first_named(rest, name, i - 1);
    }
}

/// The thing of `items` that `found` stands for: the first with the name
/// `name`.
pub open spec fn is_first_named<T: Named>(items: Seq<T>, name: Seq<char>, found: Option<&T>) -> bool {
    match found {
        Some(t) => first_named(names_of(items), name) matches Some(i) && items[i] == *t,
        None => first_named(names_of(items), name) is None,
    }
}

/// Returns the first thing with the given name.
pub fn find_named<'a, T: Named>(items: &'a Vec<T>, name: &str) -> (found: Option<&'a T>)
    ensures
        is_first_named(items@, name@, found),
{
    let mut i: usize = 0;
    while i < items.len()
        invariant
            i <= items.len(),
            forall|j: int| 0 <= j < i ==> names_of(items@)[j] != name@,
        decreases items.len() - i,
    {
        if str_eq(items[i].name(), name) {
            proof {
                lemma_first_named(names_of(items@), name@, i as int);
            }
            return Some(&items[i]);
        }
        i = i + 1;
    }
    proof {
        lemma_first_named(names_of(items@), name@, i as int);
    }
    None
}

/// The thing with the number `number` in a list that is numbered from 1.
pub open spec fn numbered<T>(items: Seq<T>, number: int) -> Option<T> {
    if 1 <= number <= items.len() {
        Some(items[number - 1])
    } else {
        None
    }
}

/// Returns the thing with the number `number` in a list that is numbered
/// from 1.
pub fn get_numbered<T>(items: &Vec<T>, number: usize) -> (found: Option<&T>)
    ensures
        match found {
            Some(t) => numbered(items@, number as int) == Some(*t),
            None => numbered(items@, number as int) is None,
        },
{
    if number >= 1 && number <= items.len() {
        Some(&items[number - 1])
    } else {
        None
    }
}

} // verus!
