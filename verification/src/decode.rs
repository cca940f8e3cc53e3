//! Reading typed values out of JSON documents.
//!
//! Every readable type says which documents it accepts (`shape`) and when a
//! value is the reading of a document (`reads`); `decode` succeeds exactly on
//! the accepted documents and returns their reading.

use vstd::prelude::*;
use crate::json::Json;

verus! {

pub trait Decode: Sized {
    /// The documents that can be read as a value of this type.
    spec fn shape(json: Json) -> bool;

    /// Whether `self` is what `json` says.
    spec fn reads(&self, json: Json) -> bool;

    fn decode(json: &Json) -> (r: Option<Self>)
        ensures
            r is Some <==> Self::shape(*json),
            r matches Some(v) ==> v.reads(*json),
    ;
}

impl Decode for bool {
    open spec fn shape(json: Json) -> bool {
        json is Bool
    }

    open spec fn reads(&self, json: Json) -> bool {
        json == Json::Bool(*self)
    }

    fn decode(json: &Json) -> (r: Option<Self>) {
        match json {
            Json::Bool(b) => Some(*b),
            _ => None,
        }
    }
}

impl Decode for String {
    open spec fn shape(json: Json) -> bool {
        json is Text
    }

    open spec fn reads(&self, json: Json) -> bool {
        json matches Json::Text(s) && s@ == self@
    }

    fn decode(json: &Json) -> (r: Option<Self>) {
        match json {
            Json::Text(s) => Some(s.clone()),
            _ => None,
        }
    }
}

/// JSON `null`, the only document read as the unit value.
impl Decode for () {
    open spec fn shape(json: Json) -> bool {
        json is Null
    }

    open spec fn reads(&self, json: Json) -> bool {
        json is Null
    }

    fn decode(json: &Json) -> (r: Option<Self>) {
        match json {
            Json::Null => Some(()),
            _ => None,
        }
    }
}

impl Decode for u64 {
    open spec fn shape(json: Json) -> bool {
        json matches Json::Number { unsigned: Some(n), .. }
    }

    open spec fn reads(&self, json: Json) -> bool {
        json matches Json::Number { unsigned: Some(n), .. } && n == *self
    }

    fn decode(json: &Json) -> (r: Option<Self>) {
        match json {
            Json::Number { unsigned: Some(n), .. } => Some(*n),
            _ => None,
        }
    }
}

impl Decode for usize {
    open spec fn shape(json: Json) -> bool {
        json matches Json::Number { unsigned: Some(n), .. } && n <= usize::MAX
    }

    open spec fn reads(&self, json: Json) -> bool {
        json matches Json::Number { unsigned: Some(n), .. } && n == *self
    }

    fn decode(json: &Json) -> (r: Option<Self>) {
        match json {
            Json::Number { unsigned: Some(n), .. } => {
                if *n <= usize::MAX as u64 {
                    Some(*n as usize)
                } else {
                    None
                }
            },
            _ => None,
        }
    }
}

impl Decode for u8 {
    open spec fn shape(json: Json) -> bool {
        json matches Json::Number { unsigned: Some(n), .. } && n <= u8::MAX
    }

    open spec fn reads(&self, json: Json) -> bool {
        json matches Json::Number { unsigned: Some(n), .. } && n == *self
    }

    fn decode(json: &Json) -> (r: Option<Self>) {
        match json {
            Json::Number { unsigned: Some(n), .. } => {
                if *n <= 255 {
                    Some(*n as u8)
                } else {
                    None
                }
            },
            _ => None,
        }
    }
}

impl Decode for i32 {
    open spec fn shape(json: Json) -> bool {
        json matches Json::Number { signed: Some(n), .. } && i32::MIN <= n <= i32::MAX
    }

    open spec fn reads(&self, json: Json) -> bool {
        json matches Json::Number { signed: Some(n), .. } && n == *self
    }

    fn decode(json: &Json) -> (r: Option<Self>) {
        match json {
            Json::Number { signed: Some(n), .. } => {
                if -2147483648 <= *n && *n <= 2147483647 {
                    Some(*n as i32)
                } else {
                    None
                }
            },
            _ => None,
        }
    }
}

impl Decode for i8 {
    open spec fn shape(json: Json) -> bool {
        json matches Json::Number { signed: Some(n), .. } && i8::MIN <= n <= i8::MAX
    }

    open spec fn reads(&self, json: Json) -> bool {
        json matches Json::Number { signed: Some(n), .. } && n == *self
    }

    fn decode(json: &Json) -> (r: Option<Self>) {
        match json {
            Json::Number { signed: Some(n), .. } => {
                if -128 <= *n && *n <= 127 {
                    Some(*n as i8)
                } else {
                    None
                }
            },
            _ => None,
        }
    }
}

/// Any document is kept as it is.
impl Decode for Json {
    open spec fn shape(json: Json) -> bool {
        true
    }

    open spec fn reads(&self, json: Json) -> bool {
        crate::json::same_tree(json, *self)
    }

    fn decode(json: &Json) -> (r: Option<Self>) {
        Some(json.duplicate())
    }
}

/// An array whose items are all readable, in their order.
impl<T: Decode> Decode for Vec<T> {
    open spec fn shape(json: Json) -> bool {
        json matches Json::Array(items) && forall|i: int|
            0 <= i < items@.len() ==> T::shape(#[trigger] items@[i])
    }

    open spec fn reads(&self, json: Json) -> bool {
        json matches Json::Array(items) && items@.len() == self@.len() && forall|i: int|
            0 <= i < items@.len() ==> (#[trigger] self@[i]).reads(items@[i])
    }

    fn decode(json: &Json) -> (r: Option<Self>) {
        match json {
            Json::Array(items) => {
                let mut values: Vec<T> = Vec::new();
                let mut i: usize = 0;
                while i < items.len()
                    invariant
                        i <= items.len(),
                        values@.len() == i,
                        json matches Json::Array(all) && all == items,
                        forall|k: int| 0 <= k < i ==> T::shape(#[trigger] items@[k]),
                        forall|k: int| 0 <= k < i ==> (#[trigger] values@[k]).reads(items@[k]),
                    decreases items.len() - i,
                {
                    match T::decode(&items[i]) {
                        Some(v) => {
                            values.push(v);
                        },
                        None => {
                            return None;
                        },
                    }
                    i += 1;
                }
                Some(values)
            },
            _ => None,
        }
    }
}

/// The object `json` has a member `key` that reads as a `T`.
pub open spec fn has<T: Decode>(json: Json, key: Seq<char>) -> bool {
    json.at(key) matches Some(m) && T::shape(m)
}

/// `value` is the reading of the member `key` of the object `json`.
pub open spec fn holds<T: Decode>(value: T, json: Json, key: Seq<char>) -> bool {
    json.at(key) matches Some(m) && value.reads(m)
}

/// A member that is missing is never had: what needs it cannot be read.
pub proof fn lemma_missing_member_is_not_had<T: Decode>(json: Json, key: Seq<char>)
    requires
        json.at(key) is None,
    ensures
        !(has::<T>(json, key)),
{
}

/// Reads a required member.
pub fn field<T: Decode>(json: &Json, key: &str) -> (r: Option<T>)
    ensures
        r is Some <==> has::<T>(*json, key@),
        r matches Some(v) ==> holds(v, *json, key@),
{
    match json.member(key) {
        Some(m) => T::decode(m),
        None => None,
    }
}

/// The member `key` of `json` is missing, `null`, or reads as a `T`.
pub open spec fn may_have<T: Decode>(json: Json, key: Seq<char>) -> bool {
    match json.at(key) {
        None => true,
        Some(Json::Null) => true,
        Some(m) => T::shape(m),
    }
}

/// `value` is `None` for a missing or `null` member `key`, and else the
/// reading of that member.
pub open spec fn may_hold<T: Decode>(value: Option<T>, json: Json, key: Seq<char>) -> bool {
    match json.at(key) {
        None => value is None,
        Some(Json::Null) => value is None,
        Some(m) => value matches Some(v) && v.reads(m),
    }
}

/// Reads a member that may be missing or `null`.
pub fn optional_field<T: Decode>(json: &Json, key: &str) -> (r: Option<Option<T>>)
    ensures
        r is Some <==> may_have::<T>(*json, key@),
        r matches Some(v) ==> may_hold(v, *json, key@),
{
    match json.member(key) {
        None => Some(None),
        Some(Json::Null) => Some(None),
        Some(m) => match T::decode(m) {
            Some(v) => Some(Some(v)),
            None => None,
        },
    }
}

} // verus!
