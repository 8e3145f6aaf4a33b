//! Loosely typed wire values and their strict decoding.
//!
//! A 64-bit float travels through this library as its IEEE-754 bit pattern,
//! so that every value here is plain data with exact equality.

use vstd::prelude::*;

verus! {

/// One value as it arrives from the power service.
#[derive(Debug)]
pub enum WireValue {
    /// A 64-bit float, held as its IEEE-754 bit pattern.
    Double(u64),
    /// A signed 64-bit integer.
    Int64(i64),
    /// An unsigned 32-bit integer.
    Uint32(u32),
    /// A string.
    Text(String),
    /// A value of any other wire type.
    Other,
}

/// The mathematical content of a `WireValue`.
pub ghost enum WireView {
    Double(u64),
    Int64(i64),
    Uint32(u32),
    Text(Seq<char>),
    Other,
}

impl View for WireValue {
    type V = WireView;

    open spec fn view(&self) -> WireView {
        match self {
            WireValue::Double(bits) => WireView::Double(*bits),
            WireValue::Int64(n) => WireView::Int64(*n),
            WireValue::Uint32(n) => WireView::Uint32(*n),
            WireValue::Text(s) => WireView::Text(s@),
            WireValue::Other => WireView::Other,
        }
    }
}

/// The semantic types that a field can be decoded as.
#[derive(Clone, Copy, Debug, PartialEq, Eq, Structural)]
pub enum WireKind {
    Double,
    Int64,
    Uint32,
    Text,
}

/// A field that did not hold a value of the type expected of it.
#[derive(Debug)]
pub struct DecodeError {
    pub field: String,
    pub expected: WireKind,
}

/// The mathematical content of a `DecodeError`.
pub ghost struct DecodeErrorView {
    pub field: Seq<char>,
    pub expected: WireKind,
}

impl View for DecodeError {
    type V = DecodeErrorView;

    open spec fn view(&self) -> DecodeErrorView {
        DecodeErrorView { field: self.field@, expected: self.expected }
    }
}

/// One named wire value: an entry of a full property read or of a change
/// notification.
#[derive(Debug)]
pub struct Property {
    pub name: String,
    pub value: WireValue,
}

/// The mathematical content of a `Property`.
pub ghost struct PropertyView {
    pub name: Seq<char>,
    pub value: WireView,
}

impl View for Property {
    type V = PropertyView;

    open spec fn view(&self) -> PropertyView {
        PropertyView { name: self.name@, value: self.value@ }
    }
}

/// The contents of a list of properties, entry by entry.
pub open spec fn views(entries: Seq<Property>) -> Seq<PropertyView> {
    Seq::new(entries.len(), |i: int| entries[i]@)
}

/// What a wire value holds when read as a 64-bit float (by its bits).
pub open spec fn as_double(value: WireView) -> Option<u64> {
    match value {
        WireView::Double(bits) => Some(bits),
        _ => None,
    }
}

/// What a wire value holds when read as a signed 64-bit integer.
pub open spec fn as_int64(value: WireView) -> Option<i64> {
    match value {
        WireView::Int64(n) => Some(n),
        _ => None,
    }
}

/// What a wire value holds when read as an unsigned 32-bit integer.
pub open spec fn as_uint32(value: WireView) -> Option<u32> {
    match value {
        WireView::Uint32(n) => Some(n),
        _ => None,
    }
}

/// What a wire value holds when read as a string.
pub open spec fn as_text(value: WireView) -> Option<Seq<char>> {
    match value {
        WireView::Text(s) => Some(s),
        _ => None,
    }
}

/// The result of a strict decode: the typed value if there is one, else the
/// error that names the field and the type expected of it.
pub open spec fn strict<T>(found: Option<T>, field: Seq<char>, expected: WireKind) -> Result<
    T,
    DecodeErrorView,
> {
    match found {
        Some(value) => Ok(value),
        None => Err(DecodeErrorView { field, expected }),
    }
}

/// The contents of a decode result whose value is plain data.
pub open spec fn outcome<T>(result: Result<T, DecodeError>) -> Result<T, DecodeErrorView> {
    match result {
        Ok(value) => Ok(value),
        Err(error) => Err(error@),
    }
}

/// The contents of a decode result whose value is a string.
pub open spec fn text_outcome(result: Result<String, DecodeError>) -> Result<
    Seq<char>,
    DecodeErrorView,
> {
    match result {
        Ok(value) => Ok(value@),
        Err(error) => Err(error@),
    }
}

/// The value that a list of properties gives a name: that of the last entry
/// with this name, as in a map filled in the list's order.
pub open spec fn lookup(entries: Seq<PropertyView>, name: Seq<char>) -> Option<WireView>
    decreases entries.len(),
{
    if entries.len() == 0 {
        None
    } else if entries.last().name == name {
        Some(entries.last().value)
    } else {
        lookup(entries.drop_last(), name)
    }
}

/// Whether two strings hold the same characters.
pub fn same_text(a: &str, b: &str) -> (same: bool)
    ensures
        same == (a@ == b@),
{
    let left: String = a.to_owned();
    let right: String = b.to_owned();
    left == right
}

/// The error for a field that did not decode as the expected type.
pub fn decode_error(field: &str, expected: WireKind) -> (error: DecodeError)
    ensures
        error@ == (DecodeErrorView { field: field@, expected }),
{
    DecodeError { field: field.to_owned(), expected }
}

/// Decodes a wire value as a 64-bit float, given by its bit pattern.
pub fn decode_double(field: &str, value: &WireValue) -> (result: Result<u64, DecodeError>)
    ensures
        outcome(result) == strict(as_double(value@), field@, WireKind::Double),
{
    match value {
        WireValue::Double(bits) => Ok(*bits),
        _ => Err(decode_error(field, WireKind::Double)),
    }
}

/// Decodes a wire value as a signed 64-bit integer.
pub fn decode_int64(field: &str, value: &WireValue) -> (result: Result<i64, DecodeError>)
    ensures
        outcome(result) == strict(as_int64(value@), field@, WireKind::Int64),
{
    match value {
        WireValue::Int64(n) => Ok(*n),
        _ => Err(decode_error(field, WireKind::Int64)),
    }
}

/// Decodes a wire value as an unsigned 32-bit integer.
pub fn decode_uint32(field: &str, value: &WireValue) -> (result: Result<u32, DecodeError>)
    ensures
        outcome(result) == strict(as_uint32(value@), field@, WireKind::Uint32),
{
    match value {
        WireValue::Uint32(n) => Ok(*n),
        _ => Err(decode_error(field, WireKind::Uint32)),
    }
}

/// Decodes a wire value as a string.
pub fn decode_text(field: &str, value: &WireValue) -> (result: Result<String, DecodeError>)
    ensures
        text_outcome(result) == strict(as_text(value@), field@, WireKind::Text),
{
    match value {
        WireValue::Text(s) => Ok(s.clone()),
        _ => Err(decode_error(field, WireKind::Text)),
    }
}

/// Finds the value that a list of properties gives a name.
pub fn find_property<'a>(entries: &'a Vec<Property>, name: &str) -> (found: Option<&'a WireValue>)
    ensures
        match found {
            Some(value) => lookup(views(entries@), name@) == Some(value@),
            None => lookup(views(entries@), name@) is None,
        },
{
    let mut i: usize = entries.len();
    assert(views(entries@).take(i as int) == views(entries@));
    while i > 0
        invariant
            i <= entries.len(),
            lookup(views(entries@), name@) == lookup(views(entries@).take(i as int), name@),
        decreases i,
    {
        let ghost prefix = views(entries@).take(i as int);
        assert(prefix.last() == entries[i - 1]@);
        assert(prefix.drop_last() == views(entries@).take(i - 1));
        if same_text(entries[i - 1].name.as_str(), name) {
            return Some(&entries[i - 1].value);
        }
        i = i - 1;
    }
    assert(views(entries@).take(0).len() == 0);
    None
}

} // verus!
