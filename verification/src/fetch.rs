//! Decoding the full property read of one device.
//!
//! Every field is decoded strictly here: a property that is absent, or that
//! holds a value of another type than expected, fails the whole read.

use vstd::prelude::*;
use crate::properties::{PropertiesView, UpowerProperties};
use crate::state::{battery_state_from_code, state_or_unknown};
use crate::wire::{
    as_double, as_int64, as_text, as_uint32, decode_double, decode_error, decode_int64,
    decode_text, decode_uint32, find_property, lookup, outcome, strict, text_outcome, views,
    DecodeError, DecodeErrorView, Property, PropertyView, WireKind, WireView,
};

verus! {

/// The device type that a battery reports; every other type is some other
/// power supply, such as line power.
pub const BATTERY_TYPE: u32 = 2;

/// The interface under which a device's properties are read and its change
/// notifications are sent.
pub const DEVICE_INTERFACE: &'static str = "org.freedesktop.UPower.Device";

/// A property that must be there as a 64-bit float, given by its bits.
pub open spec fn required_double(entries: Seq<PropertyView>, name: Seq<char>) -> Result<
    u64,
    DecodeErrorView,
> {
    match lookup(entries, name) {
        Some(value) => strict(as_double(value), name, WireKind::Double),
        None => Err(DecodeErrorView { field: name, expected: WireKind::Double }),
    }
}

/// A property that must be there as a signed 64-bit integer.
pub open spec fn required_int64(entries: Seq<PropertyView>, name: Seq<char>) -> Result<
    i64,
    DecodeErrorView,
> {
    match lookup(entries, name) {
        Some(value) => strict(as_int64(value), name, WireKind::Int64),
        None => Err(DecodeErrorView { field: name, expected: WireKind::Int64 }),
    }
}

/// A property that must be there as an unsigned 32-bit integer.
pub open spec fn required_uint32(entries: Seq<PropertyView>, name: Seq<char>) -> Result<
    u32,
    DecodeErrorView,
> {
    match lookup(entries, name) {
        Some(value) => strict(as_uint32(value), name, WireKind::Uint32),
        None => Err(DecodeErrorView { field: name, expected: WireKind::Uint32 }),
    }
}

/// A property that must be there as a string.
pub open spec fn required_text(entries: Seq<PropertyView>, name: Seq<char>) -> Result<
    Seq<char>,
    DecodeErrorView,
> {
    match lookup(entries, name) {
        Some(value) => strict(as_text(value), name, WireKind::Text),
        None => Err(DecodeErrorView { field: name, expected: WireKind::Text }),
    }
}

/// The telemetry of a device that is known to be a battery: its identity
/// and its record, or the error of the first field, in the order
/// `NativePath`, `Percentage`, `IconName`, `State`, `TimeToFull`,
/// `TimeToEmpty`, that does not decode. A state code that stands for no
/// state is no error: it reads as `Unknown`.
pub open spec fn battery_reading(entries: Seq<PropertyView>) -> Result<
    (Seq<char>, PropertiesView),
    DecodeErrorView,
> {
    let identity = required_text(entries, "NativePath"@);
    let percentage = required_double(entries, "Percentage"@);
    let icon_name = required_text(entries, "IconName"@);
    let state = required_uint32(entries, "State"@);
    let time_to_full = required_int64(entries, "TimeToFull"@);
    let time_to_empty = required_int64(entries, "TimeToEmpty"@);
    if identity is Err {
        Err(identity->Err_0)
    } else if percentage is Err {
        Err(percentage->Err_0)
    } else if icon_name is Err {
        Err(icon_name->Err_0)
    } else if state is Err {
        Err(state->Err_0)
    } else if time_to_full is Err {
        Err(time_to_full->Err_0)
    } else if time_to_empty is Err {
        Err(time_to_empty->Err_0)
    } else {
        Ok(
            (
                identity->Ok_0,
                PropertiesView {
                    percentage: percentage->Ok_0,
                    icon_name: icon_name->Ok_0,
                    state: state_or_unknown(state->Ok_0),
                    time_to_full: time_to_full->Ok_0,
                    time_to_empty: time_to_empty->Ok_0,
                },
            ),
        )
    }
}

/// What a full property read amounts to: an error where `Type` does not
/// decode; nothing where the device is no battery, whatever else it
/// reports; and else the battery's reading.
pub open spec fn device_reading(entries: Seq<PropertyView>) -> Result<
    Option<(Seq<char>, PropertiesView)>,
    DecodeErrorView,
> {
    match required_uint32(entries, "Type"@) {
        Err(error) => Err(error),
        Ok(kind) => if kind != BATTERY_TYPE {
            Ok(None)
        } else {
            match battery_reading(entries) {
                Err(error) => Err(error),
                Ok(reading) => Ok(Some(reading)),
            }
        },
    }
}

/// The contents of what `decode_device` returns.
pub open spec fn reading_outcome(
    result: Result<Option<(String, UpowerProperties)>, DecodeError>,
) -> Result<Option<(Seq<char>, PropertiesView)>, DecodeErrorView> {
    match result {
        Err(error) => Err(error@),
        Ok(None) => Ok(None),
        Ok(Some(reading)) => Ok(Some((reading.0@, reading.1@))),
    }
}

/// Reads a property that must be there as a 64-bit float.
pub fn fetch_double(entries: &Vec<Property>, name: &str) -> (result: Result<u64, DecodeError>)
    ensures
        outcome(result) == required_double(views(entries@), name@),
{
    match find_property(entries, name) {
        Some(value) => decode_double(name, value),
        None => Err(decode_error(name, WireKind::Double)),
    }
}

/// Reads a property that must be there as a signed 64-bit integer.
pub fn fetch_int64(entries: &Vec<Property>, name: &str) -> (result: Result<i64, DecodeError>)
    ensures
        outcome(result) == required_int64(views(entries@), name@),
{
    match find_property(entries, name) {
        Some(value) => decode_int64(name, value),
        None => Err(decode_error(name, WireKind::Int64)),
    }
}

/// Reads a property that must be there as an unsigned 32-bit integer.
pub fn fetch_uint32(entries: &Vec<Property>, name: &str) -> (result: Result<u32, DecodeError>)
    ensures
        outcome(result) == required_uint32(views(entries@), name@),
{
    match find_property(entries, name) {
        Some(value) => decode_uint32(name, value),
        None => Err(decode_error(name, WireKind::Uint32)),
    }
}

/// Reads a property that must be there as a string.
pub fn fetch_text(entries: &Vec<Property>, name: &str) -> (result: Result<String, DecodeError>)
    ensures
        text_outcome(result) == required_text(views(entries@), name@),
{
    match find_property(entries, name) {
        Some(value) => decode_text(name, value),
        None => Err(decode_error(name, WireKind::Text)),
    }
}

/// Resolves the identity of a device from a full property read: its native
/// path.
pub fn resolve_identity(entries: &Vec<Property>) -> (result: Result<String, DecodeError>)
    ensures
        text_outcome(result) == required_text(views(entries@), "NativePath"@),
{
    fetch_text(entries, "NativePath")
}

/// Decodes a full property read: `None` for a device that is no battery,
/// the identity and the record for a battery, and an error where a field
/// that is needed does not decode.
pub fn decode_device(entries: &Vec<Property>) -> (result: Result<
    Option<(String, UpowerProperties)>,
    DecodeError,
>)
    ensures
        reading_outcome(result) == device_reading(views(entries@)),
{
    let kind: u32 = match fetch_uint32(entries, "Type") {
        Ok(kind) => kind,
        Err(error) => { return Err(error); },
    };
    if kind != BATTERY_TYPE {
        return Ok(None);
    }
    let identity: String = match fetch_text(entries, "NativePath") {
        Ok(identity) => identity,
        Err(error) => { return Err(error); },
    };
    let percentage: u64 = match fetch_double(entries, "Percentage") {
        Ok(bits) => bits,
        Err(error) => { return Err(error); },
    };
    let icon_name: String = match fetch_text(entries, "IconName") {
        Ok(name) => name,
        Err(error) => { return Err(error); },
    };
    let code: u32 = match fetch_uint32(entries, "State") {
        Ok(code) => code,
        Err(error) => { return Err(error); },
    };
    let time_to_full: i64 = match fetch_int64(entries, "TimeToFull") {
        Ok(seconds) => seconds,
        Err(error) => { return Err(error); },
    };
    let time_to_empty: i64 = match fetch_int64(entries, "TimeToEmpty") {
        Ok(seconds) => seconds,
        Err(error) => { return Err(error); },
    };
    let properties = UpowerProperties::new(
        percentage,
        icon_name,
        battery_state_from_code(code),
        time_to_full,
        time_to_empty,
    );
    Ok(Some((identity, properties)))
}

/// A device whose `Type` decodes to anything but the battery type gives no
/// reading and no error, whatever its other properties hold.
pub proof fn lemma_other_supplies_are_skipped(entries: Seq<PropertyView>, kind: u32)
    requires
        lookup(entries, "Type"@) == Some(WireView::Uint32(kind)),
        kind != BATTERY_TYPE,
    ensures
        device_reading(entries) == Ok::<Option<(Seq<char>, PropertiesView)>, DecodeErrorView>(None),
{
}

} // verus!
