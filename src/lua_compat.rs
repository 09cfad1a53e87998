//! The remote scripting side cannot tell an empty array from an empty
//! object. Where a sequence is expected, both stand for an empty one.
use vstd::prelude::*;

use crate::json::{entries_map, shape_of, unfold, Node, Shape};
use crate::protocol::lua_seq;

verus! {

/// A sequence as it came: an array, or an empty object.
#[derive(Debug)]
pub enum EmptyVecOrEmptyObject<T> {
    Vec(Vec<T>),
    Object,
}

impl<T> EmptyVecOrEmptyObject<T> {
    /// The sequence: an empty object is the empty sequence.
    pub fn into_vec(self) -> (r: Vec<T>)
        ensures
            match self {
                EmptyVecOrEmptyObject::Vec(v) => r@ == v@,
                EmptyVecOrEmptyObject::Object => r@ == Seq::<T>::empty(),
            },
    {
        match self {
            EmptyVecOrEmptyObject::Vec(v) => v,
            EmptyVecOrEmptyObject::Object => Vec::new(),
        }
    }
}

impl EmptyVecOrEmptyObject<serde_json::Value> {
    /// Reads an array, or an empty object; anything else is refused, a
    /// non-empty object among them.
    pub fn from_value(v: &serde_json::Value) -> (r: Option<EmptyVecOrEmptyObject<serde_json::Value>>)
        ensures
            r is Some <==> lua_seq(*v) is Some,
            match shape_of(*v) {
                Shape::Array(items) => r is Some && r->Some_0 is Vec && r->Some_0->Vec_0@ == items,
                Shape::Object(m) => if m == Map::<Seq<char>, serde_json::Value>::empty() {
                    r is Some && r->Some_0 is Object
                } else {
                    r is None
                },
                _ => r is None,
            },
    {
        match unfold(v) {
            Node::Array(a) => Some(EmptyVecOrEmptyObject::Vec(a)),
            Node::Object(es) => {
                if es.len() == 0 {
                    proof {
                        assert(entries_map(es@) =~= Map::empty());
                    }
                    Some(EmptyVecOrEmptyObject::Object)
                } else {
                    proof {
                        assert(entries_map(es@).dom().contains(es@.last().0@));
                    }
                    None
                }
            },
            _ => None,
        }
    }
}

} // verus!
