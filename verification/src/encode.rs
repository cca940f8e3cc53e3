//! Writing typed values back into JSON documents.
//!
//! What `encode` writes is a document of the type's shape that reads back as
//! the value it was written from.

use vstd::prelude::*;
use crate::decode::Decode;
use crate::json::{Json, Member};

verus! {

pub trait Encode: Decode {
    fn encode(&self) -> (json: Json)
        ensures
            Self::shape(json),
            self.reads(json),
    ;
}

/// The character of one decimal digit.
pub open spec fn digit(d: nat) -> Seq<char> {
    if d == 0 {
        "0"@
    } else if d == 1 {
        "1"@
    } else if d == 2 {
        "2"@
    } else if d == 3 {
        "3"@
    } else if d == 4 {
        "4"@
    } else if d == 5 {
        "5"@
    } else if d == 6 {
        "6"@
    } else if d == 7 {
        "7"@
    } else if d == 8 {
        "8"@
    } else {
        "9"@
    }
}

/// The decimal numeral of a natural number, without leading zeros.
pub open spec fn numeral(n: nat) -> Seq<char>
    decreases n,
{
    if n < 10 {
        digit(n)
    } else {
        numeral(n / 10) + digit(n % 10)
    }
}

fn digit_text(d: u64) -> (r: &'static str)
    requires
        d < 10,
    ensures
        r@ == digit(d as nat),
{
    if d == 0 {
        "0"
    } else if d == 1 {
        "1"
    } else if d == 2 {
        "2"
    } else if d == 3 {
        "3"
    } else if d == 4 {
        "4"
    } else if d == 5 {
        "5"
    } else if d == 6 {
        "6"
    } else if d == 7 {
        "7"
    } else if d == 8 {
        "8"
    } else {
        "9"
    }
}

/// Writes a number in decimal.
pub fn decimal_text(n: u64) -> (r: String)
    ensures
        r@ == numeral(n as nat),
    decreases n,
{
    if n < 10 {
        String::from_str(digit_text(n))
    } else {
        let mut r = decimal_text(n / 10);
        r.append(digit_text(n % 10));
        r
    }
}

/// The JSON number of an unsigned integer.
pub fn unsigned_number(n: u64) -> (json: Json)
    ensures
        json matches Json::Number { unsigned, signed, text } && unsigned == Some(n) && signed == (
        if n <= i64::MAX {
            Some(n as i64)
        } else {
            None
        }) && text@ == numeral(n as nat),
{
    let signed = if n <= 9223372036854775807 {
        Some(n as i64)
    } else {
        None
    };
    Json::Number { unsigned: Some(n), signed, text: decimal_text(n) }
}

impl Encode for bool {
    fn encode(&self) -> (json: Json) {
        Json::Bool(*self)
    }
}

impl Encode for String {
    fn encode(&self) -> (json: Json) {
        Json::Text(self.clone())
    }
}

impl Encode for usize {
    fn encode(&self) -> (json: Json) {
        unsigned_number(*self as u64)
    }
}

impl Encode for Json {
    fn encode(&self) -> (json: Json) {
        self.duplicate()
    }
}

impl<T: Encode> Encode for Vec<T> {
    fn encode(&self) -> (json: Json) {
        let mut items: Vec<Json> = Vec::new();
        let mut i: usize = 0;
        while i < self.len()
            invariant
                i <= self.len(),
                items@.len() == i,
                forall|k: int| 0 <= k < i ==> T::shape(#[trigger] items@[k]),
                forall|k: int| 0 <= k < i ==> (#[trigger] self@[k]).reads(items@[k]),
            decreases self.len() - i,
        {
            items.push(self[i].encode());
            i += 1;
        }
        Json::Array(items)
    }
}

/// The member that holds `value` under `key`.
pub fn entry<T: Encode>(key: &str, value: &T) -> (m: Member)
    ensures
        m.key@ == key@,
        T::shape(m.value),
        value.reads(m.value),
{
    Member { key: String::from_str(key), value: value.encode() }
}

/// The member that holds an optional text under `key`: `null` for `None`.
pub fn optional_entry(key: &str, value: &Option<String>) -> (m: Member)
    ensures
        m.key@ == key@,
        match value {
            None => m.value is Null,
            Some(v) => m.value matches Json::Text(t) && t@ == v@,
        },
{
    let json = match value {
        None => Json::Null,
        Some(v) => Json::Text(v.clone()),
    };
    Member { key: String::from_str(key), value: json }
}

} // verus!
