//! Strings, bytes and optional values that are passed between the library and an engine.

use vstd::prelude::*;
use vstd::utf8::{decode_utf8, encode_utf8, valid_utf8};

use crate::error::{DeltaResult, Error};
use crate::text::texts;

verus! {

/// The error of `str::from_utf8`, which is carried as it is.
#[verifier::external_type_specification]
#[verifier::external_body]
pub struct ExUtf8Error(std::str::Utf8Error);

/// `str::from_utf8`: bytes are a string if and only if they are valid UTF-8, and then they are the bytes of
/// the string.
pub assume_specification[ std::str::from_utf8 ](v: &[u8]) -> (r: Result<
    &str,
    std::str::Utf8Error,
>)
    ensures
        match r {
            Ok(s) => valid_utf8(v@) && encode_utf8(s@) == v@,
            Err(_) => !valid_utf8(v@),
        },
;

/// The bytes of a string that belongs to someone else.
pub struct KernelStringSlice<'a> {
    bytes: &'a [u8],
}

impl<'a> View for KernelStringSlice<'a> {
    type V = Seq<u8>;

    closed spec fn view(&self) -> Seq<u8> {
        self.bytes@
    }
}

impl<'a> KernelStringSlice<'a> {
    /// The bytes of a string.
    pub fn new(source: &'a str) -> (r: Self)
        ensures
            r@ == encode_utf8(source@),
    {
        KernelStringSlice { bytes: source.as_bytes() }
    }

    /// Bytes that are meant to be a string.
    pub fn from_bytes(bytes: &'a [u8]) -> (r: Self)
        ensures
            r@ == bytes@,
    {
        KernelStringSlice { bytes }
    }

    /// The string, if the bytes are valid UTF-8.
    pub fn try_str(&self) -> (r: DeltaResult<&'a str>)
        ensures
            match r {
                Ok(s) => valid_utf8(self@) && s@ == decode_utf8(self@),
                Err(e) => !valid_utf8(self@) && e@ is InvalidUtf8,
            },
    {
        match std::str::from_utf8(self.bytes) {
            Ok(s) => {
                proof {
                    vstd::utf8::encode_utf8_decode_utf8(s@);
                }
                Ok(s)
            },
            Err(e) => Err(Error::InvalidUtf8(e)),
        }
    }

    /// A copy of the string, if the bytes are valid UTF-8.
    pub fn try_string(&self) -> (r: DeltaResult<String>)
        ensures
            match r {
                Ok(s) => valid_utf8(self@) && s@ == decode_utf8(self@),
                Err(e) => !valid_utf8(self@) && e@ is InvalidUtf8,
            },
    {
        match self.try_str() {
            Ok(s) => Ok(s.to_owned()),
            Err(e) => Err(e),
        }
    }
}

/// A string that is passed as bytes arrives as it was.
pub proof fn law_strings_arrive_unchanged(text: Seq<char>)
    ensures
        valid_utf8(encode_utf8(text)),
        decode_utf8(encode_utf8(text)) == text,
{
    vstd::utf8::encode_utf8_valid_utf8(text);
    vstd::utf8::encode_utf8_decode_utf8(text);
}

/// A string that was allocated for an engine, which holds it and does not look inside.
#[derive(Debug)]
pub struct ExclusiveRustString {
    pub value: String,
}

/// Allocates a string for an engine.
pub fn allocate_kernel_string(kernel_str: &KernelStringSlice<'_>) -> (r: DeltaResult<
    ExclusiveRustString,
>)
    ensures
        match r {
            Ok(s) => valid_utf8(kernel_str@) && s.value@ == decode_utf8(kernel_str@),
            Err(e) => !valid_utf8(kernel_str@) && e@ is InvalidUtf8,
        },
{
    match kernel_str.try_string() {
        Ok(value) => Ok(ExclusiveRustString { value }),
        Err(e) => Err(e),
    }
}

/// Bytes that belong to someone else.
pub struct KernelBytesSlice<'a> {
    bytes: &'a [u8],
}

impl<'a> View for KernelBytesSlice<'a> {
    type V = Seq<u8>;

    closed spec fn view(&self) -> Seq<u8> {
        self.bytes@
    }
}

impl<'a> KernelBytesSlice<'a> {
    /// A slice of the given bytes.
    pub fn new(source: &'a [u8]) -> (r: Self)
        ensures
            r@ == source@,
    {
        KernelBytesSlice { bytes: source }
    }

    /// The bytes.
    pub fn as_slice(&self) -> (r: &'a [u8])
        ensures
            r@ == self@,
    {
        self.bytes
    }
}

/// A value that may be absent.
#[derive(PartialEq, Debug)]
pub enum OptionalValue<T> {
    Present(T),
    Absent,
}

impl<T> From<Option<T>> for OptionalValue<T> {
    fn from(item: Option<T>) -> (r: Self) {
        match item {
            Some(value) => OptionalValue::Present(value),
            None => OptionalValue::Absent,
        }
    }
}

impl<T> vstd::std_specs::convert::FromSpecImpl<Option<T>> for OptionalValue<T> {
    open spec fn obeys_from_spec() -> bool {
        true
    }

    open spec fn from_spec(item: Option<T>) -> OptionalValue<T> {
        match item {
            Some(value) => OptionalValue::Present(value),
            None => OptionalValue::Absent,
        }
    }
}

/// Booleans that were allocated for an engine.
#[derive(Debug)]
pub struct KernelBoolSlice {
    pub values: Vec<bool>,
}

impl From<Vec<bool>> for KernelBoolSlice {
    fn from(values: Vec<bool>) -> (r: Self) {
        KernelBoolSlice { values }
    }
}

impl vstd::std_specs::convert::FromSpecImpl<Vec<bool>> for KernelBoolSlice {
    open spec fn obeys_from_spec() -> bool {
        true
    }

    open spec fn from_spec(values: Vec<bool>) -> KernelBoolSlice {
        KernelBoolSlice { values }
    }
}

impl View for KernelBoolSlice {
    type V = Seq<bool>;

    open spec fn view(&self) -> Seq<bool> {
        self.values@
    }
}

impl KernelBoolSlice {
    /// No booleans.
    pub fn empty() -> (r: KernelBoolSlice)
        ensures
            r@ == Seq::<bool>::empty(),
    {
        KernelBoolSlice { values: Vec::new() }
    }

    /// The booleans.
    pub fn as_ref(&self) -> (r: &[bool])
        ensures
            r@ == self@,
    {
        self.values.as_slice()
    }

    /// The booleans, as they were given.
    pub fn into_vec(self) -> (r: Vec<bool>)
        ensures
            r@ == self@,
    {
        self.values
    }
}

/// Row indexes that were allocated for an engine.
#[derive(Debug)]
pub struct KernelRowIndexArray {
    pub values: Vec<u64>,
}

impl From<Vec<u64>> for KernelRowIndexArray {
    fn from(values: Vec<u64>) -> (r: Self) {
        KernelRowIndexArray { values }
    }
}

impl vstd::std_specs::convert::FromSpecImpl<Vec<u64>> for KernelRowIndexArray {
    open spec fn obeys_from_spec() -> bool {
        true
    }

    open spec fn from_spec(values: Vec<u64>) -> KernelRowIndexArray {
        KernelRowIndexArray { values }
    }
}

impl View for KernelRowIndexArray {
    type V = Seq<u64>;

    open spec fn view(&self) -> Seq<u64> {
        self.values@
    }
}

impl KernelRowIndexArray {
    /// No row indexes.
    pub fn empty() -> (r: KernelRowIndexArray)
        ensures
            r@ == Seq::<u64>::empty(),
    {
        KernelRowIndexArray { values: Vec::new() }
    }

    /// The row indexes, as they were given.
    pub fn into_vec(self) -> (r: Vec<u64>)
        ensures
            r@ == self@,
    {
        self.values
    }
}

/// Strings that an engine takes one after the other.
#[derive(Debug)]
pub struct StringSliceIterator {
    strings: Vec<String>,
    position: usize,
}

impl View for StringSliceIterator {
    type V = Seq<Seq<char>>;

    /// The strings that are left.
    closed spec fn view(&self) -> Seq<Seq<char>> {
        texts(self.strings@.skip(self.position as int))
    }
}

impl StringSliceIterator {
    #[verifier::type_invariant]
    spec fn position_is_valid(self) -> bool {
        self.position <= self.strings@.len()
    }

    /// An iterator over the given strings.
    pub fn new(strings: Vec<String>) -> (r: Self)
        ensures
            r@ == texts(strings@),
    {
        assert(strings@.skip(0) =~= strings@);
        StringSliceIterator { strings, position: 0 }
    }
}

/// The next string, if there is one.
pub fn string_slice_next(data: &mut StringSliceIterator) -> (r: Option<String>)
    ensures
        match r {
            Some(s) => old(data)@.len() > 0 && s@ == old(data)@[0] && final(data)@ == old(
                data,
            )@.skip(1),
            None => old(data)@.len() == 0 && final(data)@ == old(data)@,
        },
{
    proof {
        use_type_invariant(&*data);
    }
    if data.position < data.strings.len() {
        let s = data.strings[data.position].clone();
        let ghost before = data@;
        data.position = data.position + 1;
        assert(data@ =~= before.skip(1));
        Some(s)
    } else {
        None
    }
}

} // verus!
