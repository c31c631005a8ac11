//! What the attributes of a span say: of several values under one name the last one counts.

use vstd::prelude::*;

use crate::metrics::attrs::{find_str, find_text, find_u64, last_str, last_text, last_u64, Attr, AttrValue};
use crate::metrics::id::{find_last_id, id_candidates, last_id, parsed_uuid, MetricId};

verus! {

/// Is there no number under the name from a place on?
pub open spec fn no_number_from(attrs: Seq<Attr>, name: Seq<char>, from: int) -> bool {
    forall|j: int| from <= j < attrs.len() ==> !((#[trigger] attrs[j]).name@ == name && attrs[j].value is U64)
}

/// Is it the last number under the name, or 0 where there is none?
pub open spec fn gives_number(attrs: Seq<Attr>, name: Seq<char>, n: u64) -> bool {
    ||| n == 0 && no_number_from(attrs, name, 0)
    ||| exists|i: int|
        0 <= i < attrs.len() && (#[trigger] attrs[i]).name@ == name && attrs[i].value == AttrValue::U64(n)
            && no_number_from(attrs, name, i + 1)
}

/// Is there no string under the name from a place on?
pub open spec fn no_string_from(attrs: Seq<Attr>, name: Seq<char>, from: int) -> bool {
    forall|j: int| from <= j < attrs.len() ==> !((#[trigger] attrs[j]).name@ == name && attrs[j].value is Str)
}

/// Is it the last string under the name, or nothing where there is none?
pub open spec fn gives_string(attrs: Seq<Attr>, name: Seq<char>, s: Option<Seq<char>>) -> bool {
    match s {
        None => no_string_from(attrs, name, 0),
        Some(s) => exists|i: int|
            0 <= i < attrs.len() && (#[trigger] attrs[i]).name@ == name && attrs[i].value is Str
                && attrs[i].value->Str_0@ == s && no_string_from(attrs, name, i + 1),
    }
}

/// Is there no value other than a number under the name from a place on?
pub open spec fn no_text_from(attrs: Seq<Attr>, name: Seq<char>, from: int) -> bool {
    forall|j: int| from <= j < attrs.len() ==> !((#[trigger] attrs[j]).name@ == name && !(attrs[j].value is U64))
}

/// Is it the text of the last value under the name that is no number, or nothing where there is none?
pub open spec fn gives_text(attrs: Seq<Attr>, name: Seq<char>, s: Option<Seq<char>>) -> bool {
    match s {
        None => no_text_from(attrs, name, 0),
        Some(s) => exists|i: int|
            0 <= i < attrs.len() && (#[trigger] attrs[i]).name@ == name && !(attrs[i].value is U64)
                && attrs[i].debug@ == s && no_text_from(attrs, name, i + 1),
    }
}

/// Does the attribute name the operation? A number does so only where numbers count.
pub open spec fn names_operation(attr: Attr, numbers: bool) -> bool {
    attr.name@ == "operation_id"@ && (numbers || !(attr.value is U64)) && parsed_uuid(attr.debug@) is Some
}

/// Does no attribute name the operation from a place on?
pub open spec fn no_operation_from(attrs: Seq<Attr>, numbers: bool, from: int) -> bool {
    forall|j: int| from <= j < attrs.len() ==> !names_operation(#[trigger] attrs[j], numbers)
}

/// Is it the id of the last attribute that names the operation, or 0 where none does?
pub open spec fn gives_operation(attrs: Seq<Attr>, numbers: bool, id: u128) -> bool {
    ||| id == 0 && no_operation_from(attrs, numbers, 0)
    ||| exists|i: int|
        0 <= i < attrs.len() && names_operation(#[trigger] attrs[i], numbers) && parsed_uuid(attrs[i].debug@)
            == Some(id) && no_operation_from(attrs, numbers, i + 1)
}

pub(crate) proof fn lemma_gives_number(attrs: Seq<Attr>, name: Seq<char>)
    ensures
        gives_number(attrs, name, last_u64(attrs, name)),
    decreases attrs.len(),
{
    if attrs.len() > 0 {
        let rest = attrs.drop_last();
        let last = attrs.len() - 1;
        if attrs[last].name@ == name && attrs[last].value is U64 {
            assert(no_number_from(attrs, name, last + 1));
        } else {
            lemma_gives_number(rest, name);
            let n = last_u64(rest, name);
            if n == 0 && no_number_from(rest, name, 0) {
                assert forall|j: int| 0 <= j < attrs.len() implies !((#[trigger] attrs[j]).name@ == name
                    && attrs[j].value is U64) by {
                    if j < last {
                        assert(rest[j] == attrs[j]);
                    }
                }
            } else {
                let i = choose|i: int|
                    0 <= i < rest.len() && (#[trigger] rest[i]).name@ == name && rest[i].value
                        == AttrValue::U64(n) && no_number_from(rest, name, i + 1);
                assert(attrs[i] == rest[i]);
                assert forall|j: int| i + 1 <= j < attrs.len() implies !((#[trigger] attrs[j]).name@ == name
                    && attrs[j].value is U64) by {
                    if j < last {
                        assert(rest[j] == attrs[j]);
                    }
                }
            }
        }
    }
}

pub(crate) proof fn lemma_gives_string(attrs: Seq<Attr>, name: Seq<char>)
    ensures
        gives_string(attrs, name, last_str(attrs, name)),
    decreases attrs.len(),
{
    if attrs.len() > 0 {
        let rest = attrs.drop_last();
        let last = attrs.len() - 1;
        if attrs[last].name@ == name && attrs[last].value is Str {
            assert(no_string_from(attrs, name, last + 1));
        } else {
            lemma_gives_string(rest, name);
            match last_str(rest, name) {
                None => {
                    assert forall|j: int| 0 <= j < attrs.len() implies !((#[trigger] attrs[j]).name@ == name
                        && attrs[j].value is Str) by {
                        if j < last {
                            assert(rest[j] == attrs[j]);
                        }
                    }
                },
                Some(s) => {
                    let i = choose|i: int|
                        0 <= i < rest.len() && (#[trigger] rest[i]).name@ == name && rest[i].value is Str
                            && rest[i].value->Str_0@ == s && no_string_from(rest, name, i + 1);
                    assert(attrs[i] == rest[i]);
                    assert forall|j: int| i + 1 <= j < attrs.len() implies !((#[trigger] attrs[j]).name@
                        == name && attrs[j].value is Str) by {
                        if j < last {
                            assert(rest[j] == attrs[j]);
                        }
                    }
                },
            }
        }
    }
}

pub(crate) proof fn lemma_gives_text(attrs: Seq<Attr>, name: Seq<char>)
    ensures
        gives_text(attrs, name, last_text(attrs, name)),
    decreases attrs.len(),
{
    if attrs.len() > 0 {
        let rest = attrs.drop_last();
        let last = attrs.len() - 1;
        if attrs[last].name@ == name && !(attrs[last].value is U64) {
            assert(no_text_from(attrs, name, last + 1));
        } else {
            lemma_gives_text(rest, name);
            match last_text(rest, name) {
                None => {
                    assert forall|j: int| 0 <= j < attrs.len() implies !((#[trigger] attrs[j]).name@ == name
                        && !(attrs[j].value is U64)) by {
                        if j < last {
                            assert(rest[j] == attrs[j]);
                        }
                    }
                },
                Some(s) => {
                    let i = choose|i: int|
                        0 <= i < rest.len() && (#[trigger] rest[i]).name@ == name && !(rest[i].value is U64)
                            && rest[i].debug@ == s && no_text_from(rest, name, i + 1);
                    assert(attrs[i] == rest[i]);
                    assert forall|j: int| i + 1 <= j < attrs.len() implies !((#[trigger] attrs[j]).name@
                        == name && !(attrs[j].value is U64)) by {
                        if j < last {
                            assert(rest[j] == attrs[j]);
                        }
                    }
                },
            }
        }
    }
}

pub(crate) proof fn lemma_gives_operation(attrs: Seq<Attr>, numbers: bool)
    ensures
        gives_operation(attrs, numbers, last_id(id_candidates(attrs, numbers))),
    decreases attrs.len(),
{
    if attrs.len() > 0 {
        let rest = attrs.drop_last();
        let last = attrs.len() - 1;
        let before = id_candidates(rest, numbers);
        let id = last_id(before);
        lemma_gives_operation(rest, numbers);
        if attrs[last].name@ == "operation_id"@ && (numbers || attrs[last].value !is U64) {
            let pushed = before.push(parsed_uuid(attrs[last].debug@));
            assert(pushed.drop_last() =~= before);
            assert(pushed.last() == parsed_uuid(attrs[last].debug@));
            assert(id_candidates(attrs, numbers) == pushed);
        } else {
            assert(id_candidates(attrs, numbers) == before);
        }
        if names_operation(attrs[last], numbers) {
            assert(no_operation_from(attrs, numbers, last + 1));
        } else {
            assert(last_id(id_candidates(attrs, numbers)) == id);
            if id == 0 && no_operation_from(rest, numbers, 0) {
                assert forall|j: int| 0 <= j < attrs.len() implies !names_operation(
                    #[trigger] attrs[j],
                    numbers,
                ) by {
                    if j < last {
                        assert(rest[j] == attrs[j]);
                    }
                }
            } else {
                let i = choose|i: int|
                    0 <= i < rest.len() && names_operation(#[trigger] rest[i], numbers) && parsed_uuid(
                        rest[i].debug@,
                    ) == Some(id) && no_operation_from(rest, numbers, i + 1);
                assert(attrs[i] == rest[i]);
                assert forall|j: int| i + 1 <= j < attrs.len() implies !names_operation(
                    #[trigger] attrs[j],
                    numbers,
                ) by {
                    if j < last {
                        assert(rest[j] == attrs[j]);
                    }
                }
            }
        }
    }
}

/// What is found under a name is the last value of its kind there.
pub proof fn law_last_value_counts(
    attrs: Vec<Attr>,
    name: &str,
    n: u64,
    s: Option<&str>,
    t: Option<&str>,
)
    requires
        call_ensures(find_u64, (&attrs, name), n),
        call_ensures(find_str, (&attrs, name), s),
        call_ensures(find_text, (&attrs, name), t),
    ensures
        gives_number(attrs@, name@, n),
        s is Some ==> gives_string(attrs@, name@, Some(s->0@)),
        s is None ==> gives_string(attrs@, name@, None),
        t is Some ==> gives_text(attrs@, name@, Some(t->0@)),
        t is None ==> gives_text(attrs@, name@, None),
{
    lemma_gives_number(attrs@, name@);
    lemma_gives_string(attrs@, name@);
    lemma_gives_text(attrs@, name@);
}

/// The id of an operation is the last one that its span was given; that of a scan, the last one that was not given as a number.
pub proof fn law_last_id_counts(attrs: Vec<Attr>, id: MetricId, scan_id: MetricId)
    requires
        call_ensures(MetricId::from_attrs, (&attrs,), id),
        call_ensures(MetricId::from_scan_attrs, (&attrs,), scan_id),
    ensures
        gives_operation(attrs@, true, id.0),
        gives_operation(attrs@, false, scan_id.0),
{
    lemma_gives_operation(attrs@, true);
    lemma_gives_operation(attrs@, false);
}

proof fn lemma_last_id(candidates: Seq<Option<u128>>)
    ensures
        ({
            let id = last_id(candidates);
            ||| id == 0 && forall|j: int| 0 <= j < candidates.len() ==> #[trigger] candidates[j] is None
            ||| exists|i: int|
                0 <= i < candidates.len() && #[trigger] candidates[i] == Some(id) && forall|j: int|
                    i < j < candidates.len() ==> #[trigger] candidates[j] is None
        }),
    decreases candidates.len(),
{
    if candidates.len() > 0 {
        let rest = candidates.drop_last();
        let last = candidates.len() - 1;
        lemma_last_id(rest);
        let id = last_id(candidates);
        if candidates[last] is Some {
            assert(candidates[last] == Some(id));
        } else if forall|j: int| 0 <= j < rest.len() ==> #[trigger] rest[j] is None {
            assert forall|j: int| 0 <= j < candidates.len() implies #[trigger] candidates[j] is None by {
                if j < last {
                    assert(rest[j] == candidates[j]);
                }
            }
        } else {
            let i = choose|i: int|
                0 <= i < rest.len() && #[trigger] rest[i] == Some(id) && forall|j: int|
                    i < j < rest.len() ==> #[trigger] rest[j] is None;
            assert(candidates[i] == Some(id));
            assert forall|j: int| i < j < candidates.len() implies #[trigger] candidates[j] is None by {
                if j < last {
                    assert(rest[j] == candidates[j]);
                }
            }
        }
    }
}

/// Of several ids the last one counts. Without one, the id is 0.
pub proof fn law_last_candidate_counts(candidates: Vec<Option<u128>>, r: MetricId)
    requires
        call_ensures(find_last_id, (&candidates,), r),
    ensures
        ({
            ||| r.0 == 0 && forall|j: int|
                0 <= j < candidates@.len() ==> #[trigger] candidates@[j] is None
            ||| exists|i: int|
                0 <= i < candidates@.len() && #[trigger] candidates@[i] == Some(r.0) && forall|j: int|
                    i < j < candidates@.len() ==> #[trigger] candidates@[j] is None
        }),
{
    lemma_last_id(candidates@);
}

} // verus!
