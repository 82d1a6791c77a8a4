//! The items that an individual can hold in the second generation.

use crate::names::NameMap;
use crate::text::{lowercase, to_lowercase};
use vstd::prelude::*;
use vstd::string::StringExecFns;

verus! {

/// An item with what it does.
#[derive(Debug)]
pub struct Item {
    pub name: String,
    pub description: String,
}

/// An item with its texts as characters.
pub struct ItemView {
    pub name: Seq<char>,
    pub description: Seq<char>,
}

impl View for Item {
    type V = ItemView;

    open spec fn view(&self) -> ItemView {
        ItemView { name: self.name@, description: self.description@ }
    }
}

/// The items by name. Names are looked up without regard to case, and the
/// names that the games write in one word are known too.
pub struct GscItems {
    data: NameMap<Item>,
    modified_names: NameMap<String>,
}

/// The items that do nothing in a battle, with their descriptions.
pub open spec fn other_items() -> Seq<(Seq<char>, Seq<char>)> {
    seq![
        ("amulet coin"@, "Doubles the prize money after battle."@),
        ("cleanse tag"@, "Halves the encounter rate of wild Pokémon."@),
        ("everstone"@, "Prevents the holder from evolving."@),
        ("exp. share"@, "Holder receives 50% of the experience after battle."@),
        ("lucky egg"@, "Holder receives 1.5x experience."@),
        ("smoke ball"@, "Fleeing from a wild Pokémon is guaranteed to succeed."@),
    ]
}

/// The names that the games write in one word, each with the name of the
/// item as the table has it.
pub open spec fn one_word_names() -> Seq<(Seq<char>, Seq<char>)> {
    seq![
        ("blackglasses"@, "Black Glasses"@),
        ("brightpowder"@, "Bright Powder"@),
        ("miracleberry"@, "Miracle Berry"@),
        ("mysteryberry"@, "Mystery Berry"@),
        ("nevermeltice"@, "Never-Melt Ice"@),
        ("przcureberry"@, "PRZ Cure Berry"@),
        ("psncureberry"@, "PSN Cure Berry"@),
        ("silverpowder"@, "Silver Powder"@),
        ("thunderstone"@, "Thunder Stone"@),
        ("twistedspoon"@, "Twisted Spoon"@),
    ]
}

/// The names under which the table holds its items: the names of the
/// records and of the other items, in lower case.
pub open spec fn item_keys(records: Seq<Item>) -> Seq<Seq<char>> {
    records.map_values(|i: Item| lowercase(i.name@)) + other_items().map_values(
        |e: (Seq<char>, Seq<char>)| lowercase(e.0),
    )
}

/// The items of the table: the records and the other items.
pub open spec fn item_values(records: Seq<Item>) -> Seq<ItemView> {
    records.map_values(|i: Item| i@) + other_items().map_values(
        |e: (Seq<char>, Seq<char>)| ItemView { name: e.0, description: e.1 },
    )
}

/// The views of the items of a list.
pub open spec fn item_views(items: Seq<Item>) -> Seq<ItemView> {
    items.map_values(|i: Item| i@)
}

/// The texts of a list as characters.
pub open spec fn string_views(texts: Seq<String>) -> Seq<Seq<char>> {
    texts.map_values(|t: String| t@)
}

impl GscItems {
    /// The names under which the items stand, in the order in which they
    /// were put.
    pub closed spec fn keys(&self) -> Seq<Seq<char>> {
        self.data.spec_names()
    }

    /// The items in the order in which they were put.
    pub closed spec fn items(&self) -> Seq<Item> {
        self.data.spec_values()
    }

    /// The names that the games write in one word, in lower case.
    pub closed spec fn old_names(&self) -> Seq<Seq<char>> {
        self.modified_names.spec_names()
    }

    /// The names that stand for the names written in one word, in lower
    /// case.
    pub closed spec fn new_names(&self) -> Seq<String> {
        self.modified_names.spec_values()
    }

    /// The item that stands under the name `key`, or under the name that
    /// `key` is the one-word form of.
    pub closed spec fn spec_find(&self, key: Seq<char>) -> Option<Item> {
        match self.data.spec_get(key) {
            Some(item) => Some(item),
            None => match self.modified_names.spec_get(key) {
                Some(new_name) => self.data.spec_get(new_name@),
                None => None,
            },
        }
    }

    /// How a name is found: under itself if it stands in the table, else
    /// under the name that it is the one-word form of.
    pub proof fn lemma_find(&self, key: Seq<char>)
        ensures
            self.spec_find(key) == match crate::names::last_under(self.keys(), self.items(), key) {
                Some(item) => Some(item),
                None => match crate::names::last_under(self.old_names(), self.new_names(), key) {
                    Some(new_name) => crate::names::last_under(
                        self.keys(),
                        self.items(),
                        new_name@,
                    ),
                    None => None,
                },
            },
    {
    }

    /// Makes the table from the records of the items. The items that do
    /// nothing in a battle are added to them.
    pub fn new(records: Vec<Item>) -> (items: GscItems)
        ensures
            items.keys() == item_keys(records@),
            item_views(items.items()) == item_values(records@),
            items.old_names() == one_word_names().map_values(
                |e: (Seq<char>, Seq<char>)| lowercase(e.0),
            ),
            string_views(items.new_names()) == one_word_names().map_values(
                |e: (Seq<char>, Seq<char>)| lowercase(e.1),
            ),
    {
        let ghost all = records@;
        let mut data: NameMap<Item> = NameMap::new();
        let mut i: usize = 0;
        assert(data.spec_names() =~= all.take(0).map_values(|i: Item| lowercase(i.name@)));
        assert(data.spec_values() =~= all.take(0));
        while i < records.len()
            invariant
                i <= records.len(),
                all == records@,
                data.spec_names() == all.take(i as int).map_values(|i: Item| lowercase(i.name@)),
                data.spec_values() == all.take(i as int),
            decreases records.len() - i,
        {
            let record = &records[i];
            let item = Item { name: record.name.clone(), description: record.description.clone() };
            assert(item == all[i as int]);
            let key = to_lowercase(item.name.as_str());
            data = data.insert(key, item);
            proof {
                assert(all.take(i + 1) =~= all.take(i as int).push(all[i as int]));
                assert(all.take(i + 1).map_values(|i: Item| lowercase(i.name@)) =~= all.take(
                    i as int,
                ).map_values(|i: Item| lowercase(i.name@)).push(lowercase(all[i as int].name@)));
            }
            i = i + 1;
        }
        assert(all.take(all.len() as int) =~= all);
        let data = add_item(data, "amulet coin", "Doubles the prize money after battle.");
        let data = add_item(data, "cleanse tag", "Halves the encounter rate of wild Pokémon.");
        let data = add_item(data, "everstone", "Prevents the holder from evolving.");
        let data = add_item(
            data,
            "exp. share",
            "Holder receives 50% of the experience after battle.",
        );
        let data = add_item(data, "lucky egg", "Holder receives 1.5x experience.");
        let data = add_item(
            data,
            "smoke ball",
            "Fleeing from a wild Pokémon is guaranteed to succeed.",
        );
        let names: NameMap<String> = NameMap::new();
        let names = add_name(names, "blackglasses", "Black Glasses");
        let names = add_name(names, "brightpowder", "Bright Powder");
        let names = add_name(names, "miracleberry", "Miracle Berry");
        let names = add_name(names, "mysteryberry", "Mystery Berry");
        let names = add_name(names, "nevermeltice", "Never-Melt Ice");
        let names = add_name(names, "przcureberry", "PRZ Cure Berry");
        let names = add_name(names, "psncureberry", "PSN Cure Berry");
        let names = add_name(names, "silverpowder", "Silver Powder");
        let names = add_name(names, "thunderstone", "Thunder Stone");
        let names = add_name(names, "twistedspoon", "Twisted Spoon");
        let items = GscItems { data, modified_names: names };
        proof {
            assert(items.keys() =~= item_keys(all));
            assert(item_views(items.items()) =~= item_values(all));
            assert(items.old_names() =~= one_word_names().map_values(
                |e: (Seq<char>, Seq<char>)| lowercase(e.0),
            ));
            assert(string_views(items.new_names()) =~= one_word_names().map_values(
                |e: (Seq<char>, Seq<char>)| lowercase(e.1),
            ));
        }
        items
    }

    /// Returns a reference to the item with the name `key`, which is in
    /// lower case.
    pub fn find(&self, key: &str) -> (item: Option<&Item>)
        ensures
            match item {
                Some(i) => self.spec_find(key@) == Some(*i),
                None => self.spec_find(key@) is None,
            },
    {
        match self.data.get(key) {
            Some(item) => Some(item),
            None => match self.modified_names.get(key) {
                Some(new_name) => self.data.get(new_name.as_str()),
                None => None,
            },
        }
    }

    /// Returns a reference to the item with the given name, whatever its
    /// case.
    pub fn get(&self, name: &str) -> (item: Option<&Item>)
        ensures
            match item {
                Some(i) => self.spec_find(lowercase(name@)) == Some(*i),
                None => self.spec_find(lowercase(name@)) is None,
            },
    {
        let name = to_lowercase(name);
        self.find(name.as_str())
    }
}

/// Puts an item under its name in lower case.
fn add_item(data: NameMap<Item>, name: &str, description: &str) -> (res: NameMap<Item>)
    ensures
        res.spec_names() == data.spec_names().push(lowercase(name@)),
        res.spec_values().len() == data.spec_values().len() + 1,
        res.spec_values().drop_last() == data.spec_values(),
        res.spec_values().last()@ == (ItemView { name: name@, description: description@ }),
{
    let item = Item { name: String::from_str(name), description: String::from_str(description) };
    let res = data.insert(to_lowercase(name), item);
    assert(res.spec_values().drop_last() =~= data.spec_values());
    res
}

/// Puts the name of an item under its one-word form, both in lower case.
fn add_name(names: NameMap<String>, old_name: &str, new_name: &str) -> (res: NameMap<String>)
    ensures
        res.spec_names() == names.spec_names().push(lowercase(old_name@)),
        res.spec_values().len() == names.spec_values().len() + 1,
        res.spec_values().drop_last() == names.spec_values(),
        res.spec_values().last()@ == lowercase(new_name@),
{
    let res = names.insert(to_lowercase(old_name), to_lowercase(new_name));
    assert(res.spec_values().drop_last() =~= names.spec_values());
    res
}

} // verus!
