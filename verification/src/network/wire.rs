//! The text side of the wire: control envelopes are JSON objects told
//! apart by their `type` member. Reading and writing JSON is `serde_json`'s
//! work; which envelope means what is decided here.

use crate::input::{Coordinate, TouchEvent};
use crate::utils::decimal;
use vstd::prelude::*;
use vstd::string::StringExecFns;

verus! {

/// The string that member `key` holds in the JSON object that `text` is:
/// `None` if `text` is not one JSON value, if that value is no object, if
/// it has no such member, or if the member is no string.
pub uninterp spec fn json_text_member(text: Seq<char>, key: Seq<char>) -> Option<Seq<char>>;

/// The integer that member `key` holds in the JSON object that `text` is:
/// `None` as for a string member, and if the member is no integer that
/// fits 64 bits with a sign.
pub uninterp spec fn json_integer_member(text: Seq<char>, key: Seq<char>) -> Option<i64>;

/// The number that member `key` holds in the JSON object that `text` is,
/// as the bits of a double: `None` as for a string member, and if the
/// member is no number.
pub uninterp spec fn json_number_member(text: Seq<char>, key: Seq<char>) -> Option<u64>;

/// An optional string taken by its view.
pub open spec fn text_view(text: Option<String>) -> Option<Seq<char>> {
    match text {
        Some(s) => Some(s@),
        None => None,
    }
}

/// Parses `text` with `serde_json::from_str` into a `Value`, looks up
/// `key` with `Value::get` and takes the member with `Value::as_str`.
#[verifier::external_body]
fn text_member(text: &str, key: &str) -> (found: Option<String>)
    ensures
        text_view(found) == json_text_member(text@, key@),
{
    let value = serde_json::from_str::<serde_json::Value>(text).ok()?;
    value.get(key)?.as_str().map(String::from)
}

/// Parses `text` with `serde_json::from_str` into a `Value`, looks up
/// `key` with `Value::get` and takes the member with `Value::as_i64`.
#[verifier::external_body]
fn integer_member(text: &str, key: &str) -> (found: Option<i64>)
    ensures
        found == json_integer_member(text@, key@),
{
    let value = serde_json::from_str::<serde_json::Value>(text).ok()?;
    value.get(key)?.as_i64()
}

/// Parses `text` with `serde_json::from_str` into a `Value`, looks up
/// `key` with `Value::get`, takes the member with `Value::as_f64` and
/// hands out the double's bits.
#[verifier::external_body]
fn number_member(text: &str, key: &str) -> (found: Option<u64>)
    ensures
        found == json_number_member(text@, key@),
{
    let value = serde_json::from_str::<serde_json::Value>(text).ok()?;
    value.get(key)?.as_f64().map(|number| number.to_bits())
}

/// A character that stands in a JSON string as itself: an ASCII letter or
/// digit.
pub open spec fn plain_char(c: char) -> bool {
    ||| '0' <= c <= '9'
    ||| 'A' <= c <= 'Z'
    ||| 'a' <= c <= 'z'
}

/// A word of plain characters only.
pub open spec fn plain_word(word: Seq<char>) -> bool {
    forall|i: int| 0 <= i < word.len() ==> plain_char(#[trigger] word[i])
}

/// The decimal numeral of an integer, with a minus sign if it is negative.
pub open spec fn signed_decimal(n: int) -> Seq<char> {
    if n < 0 {
        seq!['-'] + decimal((-n) as nat)
    } else {
        decimal(n as nat)
    }
}

/// The compact JSON text of an object with a string member and an integer
/// member, in that order: `{"<tag_key>":"<tag>","<number_key>":<number>}`.
pub open spec fn object_text(
    tag_key: Seq<char>,
    tag: Seq<char>,
    number_key: Seq<char>,
    number: int,
) -> Seq<char> {
    seq!['{', '"'] + tag_key + seq!['"', ':', '"'] + tag + seq!['"', ',', '"'] + number_key
        + seq!['"', ':'] + signed_decimal(number) + seq!['}']
}

/// Builds a `serde_json::Map` with `Map::insert`, first the string member,
/// then the integer member, and writes it as a `Value::Object` through
/// `Value`'s `Display`, which gives compact JSON with the members in the
/// order of insertion. The words are plain, so nothing in them is escaped,
/// and the keys differ, so neither member replaces the other.
#[verifier::external_body]
fn json_object_text(tag_key: &str, tag: &str, number_key: &str, number: i64) -> (text: String)
    requires
        plain_word(tag_key@),
        plain_word(tag@),
        plain_word(number_key@),
        tag_key@ != number_key@,
    ensures
        text@ == object_text(tag_key@, tag@, number_key@, number as int),
{
    let mut members = serde_json::Map::new();
    members.insert(tag_key.to_string(), serde_json::Value::from(tag));
    members.insert(number_key.to_string(), serde_json::Value::from(number));
    serde_json::Value::Object(members).to_string()
}

/// What a text message from a viewer asks for.
#[derive(Debug, Clone, Copy, PartialEq, Eq, Structural)]
pub enum Inbound {
    /// A liveness probe, to be answered with the same timestamp.
    Ping { timestamp: i64 },
    /// A pointer event, to be routed on.
    Input(TouchEvent),
    /// Nothing: the message is malformed or of no known kind.
    Ignored,
}

/// What an envelope asks for, given its `type`, `timestamp`, `x` and `y`
/// members as far as it has them:
/// `ping` with a timestamp is a probe; `start` and `move` with both
/// coordinates, and `end`, are pointer events; anything else is ignored.
pub open spec fn classified(
    kind: Option<Seq<char>>,
    timestamp: Option<i64>,
    x: Option<u64>,
    y: Option<u64>,
) -> Inbound {
    match kind {
        None => Inbound::Ignored,
        Some(k) => if k == "ping"@ {
            match timestamp {
                Some(t) => Inbound::Ping { timestamp: t },
                None => Inbound::Ignored,
            }
        } else if k == "start"@ {
            match (x, y) {
                (Some(x), Some(y)) => Inbound::Input(
                    TouchEvent::Start { x: Coordinate { bits: x }, y: Coordinate { bits: y } },
                ),
                _ => Inbound::Ignored,
            }
        } else if k == "move"@ {
            match (x, y) {
                (Some(x), Some(y)) => Inbound::Input(
                    TouchEvent::Move { x: Coordinate { bits: x }, y: Coordinate { bits: y } },
                ),
                _ => Inbound::Ignored,
            }
        } else if k == "end"@ {
            Inbound::Input(TouchEvent::End)
        } else {
            Inbound::Ignored
        },
    }
}

/// What the text message `text` asks for.
pub open spec fn decoded(text: Seq<char>) -> Inbound {
    classified(
        json_text_member(text, "type"@),
        json_integer_member(text, "timestamp"@),
        json_number_member(text, "x"@),
        json_number_member(text, "y"@),
    )
}

/// A text whose `type` member is `ping` and whose `timestamp` member is an
/// integer is a probe with that timestamp, whatever else it holds.
pub proof fn lemma_ping_is_a_probe(text: Seq<char>, timestamp: i64)
    requires
        json_text_member(text, "type"@) == Some("ping"@),
        json_integer_member(text, "timestamp"@) == Some(timestamp),
    ensures
        decoded(text) == (Inbound::Ping { timestamp }),
{
}

/// The reply to a probe with `timestamp`:
/// `{"type":"pong","timestamp":<timestamp>}`.
pub open spec fn pong_text(timestamp: int) -> Seq<char> {
    object_text("type"@, "pong"@, "timestamp"@, timestamp)
}

/// Whether two strings hold the same text.
fn same_text(a: &String, b: &str) -> (same: bool)
    ensures
        same == (a@ == b@),
{
    let other = String::from_str(b);
    *a == other
}

/// Tells what an envelope asks for from the members that were read from
/// it.
pub fn classify(kind: Option<String>, timestamp: Option<i64>, x: Option<u64>, y: Option<u64>) -> (
    inbound: Inbound
)
    ensures
        inbound == classified(text_view(kind), timestamp, x, y),
{
    let k = match kind {
        Some(k) => k,
        None => {
            return Inbound::Ignored;
        },
    };
    proof {
        reveal_strlit("ping");
        reveal_strlit("start");
        reveal_strlit("move");
        reveal_strlit("end");
    }
    if same_text(&k, "ping") {
        match timestamp {
            Some(t) => Inbound::Ping { timestamp: t },
            None => Inbound::Ignored,
        }
    } else if same_text(&k, "start") {
        match (x, y) {
            (Some(x), Some(y)) => Inbound::Input(
                TouchEvent::Start { x: Coordinate { bits: x }, y: Coordinate { bits: y } },
            ),
            _ => Inbound::Ignored,
        }
    } else if same_text(&k, "move") {
        match (x, y) {
            (Some(x), Some(y)) => Inbound::Input(
                TouchEvent::Move { x: Coordinate { bits: x }, y: Coordinate { bits: y } },
            ),
            _ => Inbound::Ignored,
        }
    } else if same_text(&k, "end") {
        Inbound::Input(TouchEvent::End)
    } else {
        Inbound::Ignored
    }
}

/// Reads a text message from a viewer and tells what it asks for. A text
/// that is no JSON object, or an object of no known kind, is `Ignored`.
pub fn decode(text: &str) -> (inbound: Inbound)
    ensures
        inbound == decoded(text@),
{
    let kind = text_member(text, "type");
    let timestamp = integer_member(text, "timestamp");
    let x = number_member(text, "x");
    let y = number_member(text, "y");
    classify(kind, timestamp, x, y)
}

/// Writes the reply to a probe with `timestamp`.
pub fn encode_pong(timestamp: i64) -> (text: String)
    ensures
        text@ == pong_text(timestamp as int),
{
    proof {
        reveal_strlit("type");
        reveal_strlit("pong");
        reveal_strlit("timestamp");
        assert("type"@.len() == 4);
        assert("timestamp"@.len() == 9);
    }
    json_object_text("type", "pong", "timestamp", timestamp)
}

} // verus!
