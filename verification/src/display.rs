//! The words shown for a battery: how long until it is full or empty, and
//! the label with its tokens filled in.

use vstd::prelude::*;
use vstd::string::*;
use crate::properties::{PropertiesView, UpowerProperties};
use crate::state::{battery_state_to_string, state_name, BatteryState};
use crate::store::Store;

verus! {

/// The seconds of a day.
pub const DAY: u64 = 86400;

/// The seconds of an hour.
pub const HOUR: u64 = 3600;

/// The seconds of a minute.
pub const MINUTE: u64 = 60;

/// The text of one decimal digit.
pub open spec fn digit_text(digit: int) -> Seq<char> {
    if digit == 0 {
        "0"@
    } else if digit == 1 {
        "1"@
    } else if digit == 2 {
        "2"@
    } else if digit == 3 {
        "3"@
    } else if digit == 4 {
        "4"@
    } else if digit == 5 {
        "5"@
    } else if digit == 6 {
        "6"@
    } else if digit == 7 {
        "7"@
    } else if digit == 8 {
        "8"@
    } else {
        "9"@
    }
}

/// A number written in decimal, without leading zeros.
pub open spec fn decimal(n: nat) -> Seq<char>
    decreases n,
{
    if n < 10 {
        digit_text(n as int)
    } else {
        decimal(n / 10) + digit_text((n % 10) as int)
    }
}

/// A count with its unit behind it, and nothing for a count of zero.
pub open spec fn part(count: nat, unit: Seq<char>) -> Seq<char> {
    if count > 0 {
        decimal(count) + unit
    } else {
        Seq::empty()
    }
}

/// A time span in whole days, hours of the day and minutes of the hour,
/// such as `1d 2h 3m`: the parts that are zero are left out, the others
/// stand with one space between them. Less than a minute, or a negative
/// span, is the empty text.
pub open spec fn duration_text(seconds: int) -> Seq<char> {
    if seconds <= 0 {
        Seq::empty()
    } else {
        let days = (seconds / DAY as int) as nat;
        let hours = (seconds % DAY as int / HOUR as int) as nat;
        let minutes = (seconds % HOUR as int / MINUTE as int) as nat;
        let first = if days > 0 && hours > 0 {
            part(days, "d"@) + " "@ + part(hours, "h"@)
        } else {
            part(days, "d"@) + part(hours, "h"@)
        };
        if (days > 0 || hours > 0) && minutes > 0 {
            first + " "@ + part(minutes, "m"@)
        } else {
            first + part(minutes, "m"@)
        }
    }
}

/// Whether the battery is charging or about to.
pub open spec fn is_charging(state: BatteryState) -> bool {
    state == BatteryState::Charging || state == BatteryState::PendingCharge
}

/// Whether the battery is discharging or about to.
pub open spec fn is_discharging(state: BatteryState) -> bool {
    state == BatteryState::Discharging || state == BatteryState::PendingDischarge
}

/// The time that matters for a battery: until full while it charges, until
/// empty otherwise.
pub open spec fn remaining_text(properties: PropertiesView) -> Seq<char> {
    if is_charging(properties.state) {
        duration_text(properties.time_to_full as int)
    } else {
        duration_text(properties.time_to_empty as int)
    }
}

/// The line of details: when the battery will be full or empty, where that
/// is known, and nothing otherwise.
pub open spec fn details_text(properties: PropertiesView) -> Seq<char> {
    if is_charging(properties.state) && properties.time_to_full > 0 {
        "Full in "@ + duration_text(properties.time_to_full as int)
    } else if is_discharging(properties.state) && properties.time_to_empty > 0 {
        "Empty in "@ + duration_text(properties.time_to_empty as int)
    } else {
        Seq::empty()
    }
}

/// A text with a pattern replaced: the text is read from the left, each
/// place where the pattern stands gives the replacement and the reading
/// goes on behind the pattern, and every other character is kept. So the
/// matches taken are the leftmost ones and do not overlap. An empty pattern
/// is not meant; the text is then given as it is.
pub open spec fn substituted(text: Seq<char>, pattern: Seq<char>, with: Seq<char>) -> Seq<char>
    decreases text.len(),
{
    if pattern.len() == 0 || text.len() < pattern.len() {
        text
    } else if text.subrange(0, pattern.len() as int) =~= pattern {
        with + substituted(text.skip(pattern.len() as int), pattern, with)
    } else {
        seq![text[0]] + substituted(text.skip(1), pattern, with)
    }
}

/// The label: the format with the tokens `{percentage}`, `{time_remaining}`
/// and `{state}` replaced, in this order.
pub open spec fn label_text(
    format: Seq<char>,
    percentage: Seq<char>,
    properties: PropertiesView,
) -> Seq<char> {
    substituted(
        substituted(
            substituted(format, "{percentage}"@, percentage),
            "{time_remaining}"@,
            remaining_text(properties),
        ),
        "{state}"@,
        state_name(properties.state),
    )
}

/// What is asked of the image provider for a battery's icon: the icon's
/// name behind the prefix `icon:`.
pub open spec fn icon_request_text(properties: PropertiesView) -> Seq<char> {
    "icon:"@ + properties.icon_name
}

/// Calls `str::replace` of the standard library, which replaces all matches
/// of the pattern; where matches would overlap it takes the first. Claimed
/// of it, and not proved: for a pattern that is not empty, the result is
/// the text with the leftmost matches, none overlapping another, each
/// replaced. Nothing is claimed for the empty pattern.
#[verifier::external_body]
fn replace_all(text: &str, pattern: &str, with: &str) -> (out: String)
    ensures
        pattern@.len() > 0 ==> out@ == substituted(text@, pattern@, with@),
{
    text.replace(pattern, with)
}

fn digit_str(digit: u64) -> (text: &'static str)
    requires
        digit < 10,
    ensures
        text@ == digit_text(digit as int),
{
    if digit == 0 {
        "0"
    } else if digit == 1 {
        "1"
    } else if digit == 2 {
        "2"
    } else if digit == 3 {
        "3"
    } else if digit == 4 {
        "4"
    } else if digit == 5 {
        "5"
    } else if digit == 6 {
        "6"
    } else if digit == 7 {
        "7"
    } else if digit == 8 {
        "8"
    } else {
        "9"
    }
}

fn push_decimal(out: &mut String, n: u64)
    ensures
        final(out)@ == old(out)@ + decimal(n as nat),
    decreases n,
{
    if n >= 10 {
        push_decimal(out, n / 10);
    }
    out.append(digit_str(n % 10));
}

/// A number written in decimal.
pub fn decimal_string(n: u64) -> (text: String)
    ensures
        text@ == decimal(n as nat),
{
    let mut out = String::new();
    push_decimal(&mut out, n);
    out
}

/// Writes a time span in days, hours and minutes.
pub fn seconds_to_string(seconds: i64) -> (text: String)
    ensures
        text@ == duration_text(seconds as int),
{
    let mut out = String::new();
    if seconds <= 0 {
        return out;
    }
    let total: u64 = seconds as u64;
    let days: u64 = total / DAY;
    let hours: u64 = (total % DAY) / HOUR;
    let minutes: u64 = (total % HOUR) / MINUTE;
    if days > 0 {
        push_decimal(&mut out, days);
        out.append("d");
    }
    if hours > 0 {
        if days > 0 {
            out.append(" ");
        }
        push_decimal(&mut out, hours);
        out.append("h");
    }
    if minutes > 0 {
        if days > 0 || hours > 0 {
            out.append(" ");
        }
        push_decimal(&mut out, minutes);
        out.append("m");
    }
    assert(out@ =~= duration_text(seconds as int));
    out
}

/// The time until the battery is full, while it charges, and until it is
/// empty otherwise.
pub fn time_remaining(properties: &UpowerProperties) -> (text: String)
    ensures
        text@ == remaining_text(properties@),
{
    let state = properties.state();
    if state == BatteryState::Charging || state == BatteryState::PendingCharge {
        seconds_to_string(properties.time_to_full())
    } else {
        seconds_to_string(properties.time_to_empty())
    }
}

/// The line of details for a battery.
pub fn details(properties: &UpowerProperties) -> (text: String)
    ensures
        text@ == details_text(properties@),
{
    let state = properties.state();
    match state {
        BatteryState::Charging | BatteryState::PendingCharge => {
            let seconds: i64 = properties.time_to_full();
            if seconds > 0 {
                let mut out = String::from_str("Full in ");
                out.append(seconds_to_string(seconds).as_str());
                out
            } else {
                String::new()
            }
        },
        BatteryState::Discharging | BatteryState::PendingDischarge => {
            let seconds: i64 = properties.time_to_empty();
            if seconds > 0 {
                let mut out = String::from_str("Empty in ");
                out.append(seconds_to_string(seconds).as_str());
                out
            } else {
                String::new()
            }
        },
        _ => String::new(),
    }
}

/// Fills the tokens of a label format: `{percentage}` with the given text
/// of the charge level, `{time_remaining}` with the time that matters for
/// the battery, `{state}` with the words for its state.
pub fn render_label(format: &str, percentage: &str, properties: &UpowerProperties) -> (text: String)
    ensures
        text@ == label_text(format@, percentage@, properties@),
{
    proof {
        reveal_strlit("{percentage}");
        reveal_strlit("{time_remaining}");
        reveal_strlit("{state}");
    }
    let remaining = time_remaining(properties);
    let first = replace_all(format, "{percentage}", percentage);
    let second = replace_all(first.as_str(), "{time_remaining}", remaining.as_str());
    replace_all(second.as_str(), "{state}", battery_state_to_string(properties.state()))
}

/// What is asked of the image provider for a battery's icon.
pub fn icon_request(properties: &UpowerProperties) -> (name: String)
    ensures
        name@ == icon_request_text(properties@),
{
    let mut name = String::from_str("icon:");
    name.append(properties.icon_name());
    name
}

/// The device whose telemetry the widget shows.
pub const PRIMARY_BATTERY: &'static str = "BAT0";

/// The record of the device that the widget shows, if the snapshot holds
/// one. Early snapshots may hold none.
pub fn primary_record(snapshot: &Store) -> (found: Option<&UpowerProperties>)
    requires
        snapshot.wf(),
    ensures
        found is Some <==> snapshot@.dom().contains(PRIMARY_BATTERY@),
        found is Some ==> found->Some_0@ == snapshot@[PRIMARY_BATTERY@],
{
    snapshot.get(PRIMARY_BATTERY)
}

/// The line of details in the popup for a snapshot: that of the device the
/// widget shows, and nothing while the snapshot has no such device.
pub fn popup_text(snapshot: &Store) -> (text: Option<String>)
    requires
        snapshot.wf(),
    ensures
        text is Some <==> snapshot@.dom().contains(PRIMARY_BATTERY@),
        text is Some ==> text->Some_0@ == details_text(snapshot@[PRIMARY_BATTERY@]),
{
    match primary_record(snapshot) {
        Some(properties) => Some(details(properties)),
        None => None,
    }
}

/// The label and the icon request of the widget for a snapshot, from the
/// label format and the text of the rounded charge level; nothing while
/// the snapshot has no record of the device the widget shows.
pub fn widget_texts(format: &str, percentage: &str, snapshot: &Store) -> (texts: Option<
    (String, String),
>)
    requires
        snapshot.wf(),
    ensures
        texts is Some <==> snapshot@.dom().contains(PRIMARY_BATTERY@),
        texts is Some ==> texts->Some_0.0@ == label_text(
            format@,
            percentage@,
            snapshot@[PRIMARY_BATTERY@],
        ) && texts->Some_0.1@ == icon_request_text(snapshot@[PRIMARY_BATTERY@]),
{
    match primary_record(snapshot) {
        Some(properties) => Some(
            (render_label(format, percentage, properties), icon_request(properties)),
        ),
        None => None,
    }
}

} // verus!
