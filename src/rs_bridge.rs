//! Filters that select items of a storage network, and the items it reports.
use vstd::prelude::*;
use vstd::string::*;

verus! {

/// Selects items by name or by tag, optionally with a count and NBT data.
#[derive(Debug)]
pub struct RsFilter {
    name: String,
    count: Option<usize>,
    nbt: Option<String>,
}

/// The name under which a tag is selected: the tag itself when it starts
/// with `#`, else the tag behind a `#`.
pub open spec fn tag_name(tag: Seq<char>) -> Seq<char> {
    if tag.len() > 0 && tag[0] == '#' {
        tag
    } else {
        seq!['#'] + tag
    }
}

impl RsFilter {
    pub closed spec fn spec_name(&self) -> Seq<char> {
        self.name@
    }

    pub closed spec fn spec_count(&self) -> Option<usize> {
        self.count
    }

    pub closed spec fn spec_nbt(&self) -> Option<Seq<char>> {
        match self.nbt {
            Some(n) => Some(n@),
            None => None,
        }
    }

    /// Selects items by name.
    pub fn from_name(name: &str) -> (r: RsFilter)
        ensures
            r.spec_name() == name@,
            r.spec_count() is None,
            r.spec_nbt() is None,
    {
        RsFilter { name: String::from_str(name), count: None, nbt: None }
    }

    /// Selects items by tag.
    pub fn from_tag(tag: &str) -> (r: RsFilter)
        ensures
            r.spec_name() == tag_name(tag@),
            r.spec_count() is None,
            r.spec_nbt() is None,
    {
        let name = if tag.unicode_len() > 0 && tag.get_char(0) == '#' {
            String::from_str(tag)
        } else {
            let prefix = String::from_str("#");
            proof {
                reveal_strlit("#");
            }
            prefix.concat(tag)
        };
        proof {
            reveal_strlit("#");
        }
        RsFilter { name, count: None, nbt: None }
    }

    /// The same filter, asking for `count` items.
    pub fn with_count(self, count: usize) -> (r: RsFilter)
        ensures
            r.spec_name() == self.spec_name(),
            r.spec_count() == Some(count),
            r.spec_nbt() == self.spec_nbt(),
    {
        RsFilter { count: Some(count), ..self }
    }

    /// The same filter, asking for items with this NBT data.
    pub fn with_nbt(self, nbt: &str) -> (r: RsFilter)
        ensures
            r.spec_name() == self.spec_name(),
            r.spec_count() == self.spec_count(),
            r.spec_nbt() == Some(nbt@),
    {
        RsFilter { nbt: Some(String::from_str(nbt)), ..self }
    }

    pub fn name(&self) -> (r: &String)
        ensures
            r@ == self.spec_name(),
    {
        &self.name
    }

    pub fn count(&self) -> (r: Option<usize>)
        ensures
            r == self.spec_count(),
    {
        self.count
    }

    pub fn nbt(&self) -> (r: Option<&String>)
        ensures
            r is Some <==> self.spec_nbt() is Some,
            r is Some ==> Some(r->Some_0@) == self.spec_nbt(),
    {
        match &self.nbt {
            Some(n) => Some(n),
            None => None,
        }
    }
}

/// An item of the storage network.
#[derive(Debug)]
pub struct Item {
    pub name: String,
    pub fingerprint: Option<String>,
    pub amount: usize,
    pub display_name: String,
    pub is_craftable: bool,
    pub nbt: Option<serde_json::Value>,
    pub tags: Option<Vec<String>>,
}

/// One input slot of a crafting pattern.
#[derive(Debug)]
pub enum CraftingSlot {
    Item(Vec<Item>),
    Empty,
}

impl CraftingSlot {
    /// The items that the slot takes; none for an empty slot.
    pub fn items(&self) -> (r: Option<&Vec<Item>>)
        ensures
            self is Item ==> r is Some && *r->Some_0 == self->Item_0,
            self is Empty ==> r is None,
    {
        match self {
            CraftingSlot::Item(items) => Some(items),
            CraftingSlot::Empty => None,
        }
    }
}

} // verus!
