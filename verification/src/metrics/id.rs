//! The identifiers that tie the events of one operation together.

use std::str::FromStr;

use vstd::arithmetic::power::pow;
use vstd::prelude::*;

use crate::metrics::attrs::{Attr, AttrValue};
use crate::text::same_text;

verus! {

/// The identifier of an operation: a UUID, as a number.
#[derive(Debug, Clone, Copy, PartialEq, Eq, Hash, Structural)]
pub struct MetricId(pub u128);

/// Has the UUID the version and variant of a random one?
pub open spec fn is_random_uuid(id: u128) -> bool {
    id & 0xF000_C000_0000_0000_0000 == 0x4000_8000_0000_0000_0000
}

/// The character of a hexadecimal digit.
pub open spec fn hex_char(d: int) -> char {
    if d < 10 {
        (48 + d) as char
    } else {
        (87 + d) as char
    }
}

/// The `k`-th of the 32 hexadecimal digits of a UUID.
pub open spec fn uuid_digit(id: u128, k: int) -> int {
    (id as int / pow(16, (31 - k) as nat)) % 16
}

/// A UUID as text: its digits in groups of 8, 4, 4, 4 and 12, with hyphens between them.
pub open spec fn uuid_text(id: u128) -> Seq<char> {
    Seq::new(
        36,
        |i: int|
            if i == 8 || i == 13 || i == 18 || i == 23 {
                '-'
            } else {
                hex_char(
                    uuid_digit(
                        id,
                        if i < 8 {
                            i
                        } else if i < 13 {
                            i - 1
                        } else if i < 18 {
                            i - 2
                        } else if i < 23 {
                            i - 3
                        } else {
                            i - 4
                        },
                    ),
                )
            },
    )
}

/// What `uuid::Uuid::from_str` makes of a text: the UUID that it denotes, if it denotes one.
pub uninterp spec fn parsed_uuid(text: Seq<char>) -> Option<u128>;

/// `uuid::Uuid::new_v4`: a UUID of random bits, but for those of its version and its variant.
#[verifier::external_body]
fn new_v4() -> (r: u128)
    ensures
        is_random_uuid(r),
{
    uuid::Uuid::new_v4().as_u128()
}

/// `uuid::Uuid::to_string`: the hyphenated text in lower case, which parses back to the UUID.
#[verifier::external_body]
pub(crate) fn uuid_to_string(id: u128) -> (r: String)
    ensures
        r@ == uuid_text(id),
        parsed_uuid(r@) == Some(id),
{
    uuid::Uuid::from_u128(id).to_string()
}

/// `uuid::Uuid::from_str`: the UUID that a text denotes, or None where it denotes none.
#[verifier::external_body]
pub(crate) fn uuid_from_str(text: &str) -> (r: Option<u128>)
    ensures
        r == parsed_uuid(text@),
{
    match uuid::Uuid::from_str(text) {
        Ok(id) => Some(id.as_u128()),
        Err(_) => None,
    }
}

/// The last of the candidates that is an id; the nil UUID without one.
pub open spec fn last_id(candidates: Seq<Option<u128>>) -> u128
    decreases candidates.len(),
{
    if candidates.len() == 0 {
        0
    } else {
        match candidates.last() {
            Some(id) => id,
            None => last_id(candidates.drop_last()),
        }
    }
}

/// What the values recorded as the id of the operation denote. Numbers count as values where
/// `numbers` is true.
pub open spec fn id_candidates(attrs: Seq<Attr>, numbers: bool) -> Seq<Option<u128>>
    decreases attrs.len(),
{
    if attrs.len() == 0 {
        Seq::empty()
    } else {
        let before = id_candidates(attrs.drop_last(), numbers);
        if attrs.last().name@ == "operation_id"@ && (numbers || attrs.last().value !is U64) {
            before.push(parsed_uuid(attrs.last().debug@))
        } else {
            before
        }
    }
}

/// The last UUID recorded as the id of the operation, whatever the type of the value; the nil
/// UUID without one.
pub open spec fn last_operation_id(attrs: Seq<Attr>) -> u128 {
    last_id(id_candidates(attrs, true))
}

/// The last UUID recorded as the id of the operation in a value that is not a number; the nil
/// UUID without one.
pub open spec fn last_scan_id(attrs: Seq<Attr>) -> u128 {
    last_id(id_candidates(attrs, false))
}

/// The last of the candidates that is an id; the nil id without one.
pub fn find_last_id(candidates: &Vec<Option<u128>>) -> (r: MetricId)
    ensures
        r.0 == last_id(candidates@),
{
    let mut i: usize = candidates.len();
    assert(candidates@.take(i as int) =~= candidates@);
    while i > 0
        invariant
            i <= candidates@.len(),
            last_id(candidates@) == last_id(candidates@.take(i as int)),
        decreases i,
    {
        i -= 1;
        assert(candidates@.take(i + 1).drop_last() =~= candidates@.take(i as int));
        if let Some(id) = candidates[i] {
            return MetricId(id);
        }
    }
    MetricId(0)
}

/// Parses the values recorded as the id of the operation.
fn parse_candidates(attrs: &Vec<Attr>, numbers: bool) -> (r: Vec<Option<u128>>)
    ensures
        r@ == id_candidates(attrs@, numbers),
{
    let mut out: Vec<Option<u128>> = Vec::new();
    let mut i: usize = 0;
    while i < attrs.len()
        invariant
            i <= attrs@.len(),
            out@ == id_candidates(attrs@.take(i as int), numbers),
        decreases attrs@.len() - i,
    {
        let number = matches!(attrs[i].value, AttrValue::U64(_));
        if same_text(attrs[i].name.as_str(), "operation_id") && (numbers || !number) {
            out.push(uuid_from_str(attrs[i].debug.as_str()));
        }
        i += 1;
        assert(attrs@.take(i as int).drop_last() =~= attrs@.take(i - 1));
    }
    assert(attrs@.take(i as int) =~= attrs@);
    out
}

impl MetricId {
    /// A new identifier.
    pub fn new() -> (r: MetricId)
        ensures
            is_random_uuid(r.0),
    {
        MetricId(new_v4())
    }

    /// The identifier recorded in the attributes of a span: the nil one where there is none or
    /// it is malformed.
    pub fn from_attrs(attrs: &Vec<Attr>) -> (r: MetricId)
        ensures
            r.0 == last_operation_id(attrs@),
    {
        find_last_id(&parse_candidates(attrs, true))
    }

    /// The identifier recorded in the attributes of the span of a scan, where numbers do not
    /// count.
    pub fn from_scan_attrs(attrs: &Vec<Attr>) -> (r: MetricId)
        ensures
            r.0 == last_scan_id(attrs@),
    {
        find_last_id(&parse_candidates(attrs, false))
    }

    /// The identifier as text.
    pub fn to_text(&self) -> (r: String)
        ensures
            r@ == uuid_text(self.0),
            parsed_uuid(r@) == Some(self.0),
    {
        uuid_to_string(self.0)
    }
}

impl Default for MetricId {
    fn default() -> (r: MetricId)
        ensures
            is_random_uuid(r.0),
    {
        MetricId::new()
    }
}

} // verus!
