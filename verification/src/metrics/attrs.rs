//! The attributes of a span: named values that were recorded when the span was opened.

use vstd::prelude::*;

use crate::text::same_text;

verus! {

/// A recorded value by its type.
#[derive(Debug)]
pub enum AttrValue {
    U64(u64),
    Str(String),
    /// A value of another type, of which only the text is known.
    Other,
}

/// An attribute: its name, its value and the debug text of the value.
#[derive(Debug)]
pub struct Attr {
    pub name: String,
    pub value: AttrValue,
    pub debug: String,
}

/// The last number recorded under a name, or 0.
pub open spec fn last_u64(attrs: Seq<Attr>, name: Seq<char>) -> u64
    decreases attrs.len(),
{
    if attrs.len() == 0 {
        0
    } else {
        match attrs.last().value {
            AttrValue::U64(n) => if attrs.last().name@ == name {
                n
            } else {
                last_u64(attrs.drop_last(), name)
            },
            _ => last_u64(attrs.drop_last(), name),
        }
    }
}

/// The last string recorded under a name.
pub open spec fn last_str(attrs: Seq<Attr>, name: Seq<char>) -> Option<Seq<char>>
    decreases attrs.len(),
{
    if attrs.len() == 0 {
        None
    } else {
        match attrs.last().value {
            AttrValue::Str(s) => if attrs.last().name@ == name {
                Some(s@)
            } else {
                last_str(attrs.drop_last(), name)
            },
            _ => last_str(attrs.drop_last(), name),
        }
    }
}

/// The debug text of the last value recorded under a name that is not a number.
pub open spec fn last_text(attrs: Seq<Attr>, name: Seq<char>) -> Option<Seq<char>>
    decreases attrs.len(),
{
    if attrs.len() == 0 {
        None
    } else if attrs.last().name@ == name && attrs.last().value !is U64 {
        Some(attrs.last().debug@)
    } else {
        last_text(attrs.drop_last(), name)
    }
}

/// The last number recorded under a name, or 0.
pub fn find_u64(attrs: &Vec<Attr>, name: &str) -> (r: u64)
    ensures
        r == last_u64(attrs@, name@),
{
    let mut i: usize = attrs.len();
    assert(attrs@.take(i as int) =~= attrs@);
    while i > 0
        invariant
            i <= attrs@.len(),
            last_u64(attrs@, name@) == last_u64(attrs@.take(i as int), name@),
        decreases i,
    {
        i -= 1;
        assert(attrs@.take(i + 1).drop_last() =~= attrs@.take(i as int));
        if let AttrValue::U64(n) = attrs[i].value {
            if same_text(attrs[i].name.as_str(), name) {
                return n;
            }
        }
    }
    0
}

/// The last string recorded under a name.
pub fn find_str<'a>(attrs: &'a Vec<Attr>, name: &str) -> (r: Option<&'a str>)
    ensures
        match r {
            Some(s) => last_str(attrs@, name@) == Some(s@),
            None => last_str(attrs@, name@) is None,
        },
{
    let mut i: usize = attrs.len();
    assert(attrs@.take(i as int) =~= attrs@);
    while i > 0
        invariant
            i <= attrs@.len(),
            last_str(attrs@, name@) == last_str(attrs@.take(i as int), name@),
        decreases i,
    {
        i -= 1;
        assert(attrs@.take(i + 1).drop_last() =~= attrs@.take(i as int));
        if let AttrValue::Str(s) = &attrs[i].value {
            if same_text(attrs[i].name.as_str(), name) {
                return Some(s.as_str());
            }
        }
    }
    None
}

/// The debug text of the last value recorded under a name that is not a number.
pub fn find_text<'a>(attrs: &'a Vec<Attr>, name: &str) -> (r: Option<&'a str>)
    ensures
        match r {
            Some(s) => last_text(attrs@, name@) == Some(s@),
            None => last_text(attrs@, name@) is None,
        },
{
    let mut i: usize = attrs.len();
    assert(attrs@.take(i as int) =~= attrs@);
    while i > 0
        invariant
            i <= attrs@.len(),
            last_text(attrs@, name@) == last_text(attrs@.take(i as int), name@),
        decreases i,
    {
        i -= 1;
        assert(attrs@.take(i + 1).drop_last() =~= attrs@.take(i as int));
        let number = matches!(attrs[i].value, AttrValue::U64(_));
        if !number && same_text(attrs[i].name.as_str(), name) {
            return Some(attrs[i].debug.as_str());
        }
    }
    None
}

} // verus!
