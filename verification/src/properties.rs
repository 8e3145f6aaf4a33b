//! The telemetry of one battery, and how a change notification alters it.

use vstd::prelude::*;
use crate::state::{battery_state_from_code, state_or_unknown, BatteryState};
use crate::wire::{
    as_double, as_int64, as_text, as_uint32, same_text, views, Property, PropertyView, WireValue,
    WireView,
};

verus! {

/// The telemetry of one battery.
#[derive(Debug)]
pub struct UpowerProperties {
    percentage: u64,
    icon_name: String,
    state: BatteryState,
    time_to_full: i64,
    time_to_empty: i64,
}

/// The mathematical content of a `UpowerProperties`.
pub ghost struct PropertiesView {
    /// The charge level, a 64-bit float given by its bit pattern.
    pub percentage: u64,
    pub icon_name: Seq<char>,
    pub state: BatteryState,
    /// Seconds until full; 0 when not charging or unknown.
    pub time_to_full: i64,
    /// Seconds until empty; 0 when not discharging or unknown.
    pub time_to_empty: i64,
}

/// The five fields of the telemetry.
pub ghost enum Field {
    Percentage,
    IconName,
    State,
    TimeToFull,
    TimeToEmpty,
}

/// A decoded value together with the field it belongs to.
pub ghost enum FieldValue {
    Percentage(u64),
    IconName(Seq<char>),
    State(BatteryState),
    TimeToFull(i64),
    TimeToEmpty(i64),
}

/// The field that a decoded value belongs to.
pub open spec fn field_of(value: FieldValue) -> Field {
    match value {
        FieldValue::Percentage(_) => Field::Percentage,
        FieldValue::IconName(_) => Field::IconName,
        FieldValue::State(_) => Field::State,
        FieldValue::TimeToFull(_) => Field::TimeToFull,
        FieldValue::TimeToEmpty(_) => Field::TimeToEmpty,
    }
}

/// What a record holds in a field.
pub open spec fn get_field(properties: PropertiesView, field: Field) -> FieldValue {
    match field {
        Field::Percentage => FieldValue::Percentage(properties.percentage),
        Field::IconName => FieldValue::IconName(properties.icon_name),
        Field::State => FieldValue::State(properties.state),
        Field::TimeToFull => FieldValue::TimeToFull(properties.time_to_full),
        Field::TimeToEmpty => FieldValue::TimeToEmpty(properties.time_to_empty),
    }
}

/// The record with one field replaced.
pub open spec fn set_field(properties: PropertiesView, value: FieldValue) -> PropertiesView {
    match value {
        FieldValue::Percentage(bits) => PropertiesView { percentage: bits, ..properties },
        FieldValue::IconName(name) => PropertiesView { icon_name: name, ..properties },
        FieldValue::State(state) => PropertiesView { state, ..properties },
        FieldValue::TimeToFull(seconds) => PropertiesView { time_to_full: seconds, ..properties },
        FieldValue::TimeToEmpty(seconds) => PropertiesView { time_to_empty: seconds, ..properties },
    }
}

/// The record that a device has before anything is known of it: charge
/// level `0.0` (all bits zero), no icon, state `Unknown`, both times zero.
pub open spec fn default_properties() -> PropertiesView {
    PropertiesView {
        percentage: 0,
        icon_name: Seq::empty(),
        state: BatteryState::Unknown,
        time_to_full: 0,
        time_to_empty: 0,
    }
}

/// What one entry of a change notification decodes to: a value for one of
/// the five fields where the name is one of theirs and the wire value has
/// the field's type, and nothing otherwise. A state code that stands for no
/// state decodes to `Unknown`.
pub open spec fn decode_change(name: Seq<char>, value: WireView) -> Option<FieldValue> {
    if name == "Percentage"@ {
        match as_double(value) {
            Some(bits) => Some(FieldValue::Percentage(bits)),
            None => None,
        }
    } else if name == "IconName"@ {
        match as_text(value) {
            Some(text) => Some(FieldValue::IconName(text)),
            None => None,
        }
    } else if name == "State"@ {
        match as_uint32(value) {
            Some(code) => Some(FieldValue::State(state_or_unknown(code))),
            None => None,
        }
    } else if name == "TimeToFull"@ {
        match as_int64(value) {
            Some(seconds) => Some(FieldValue::TimeToFull(seconds)),
            None => None,
        }
    } else if name == "TimeToEmpty"@ {
        match as_int64(value) {
            Some(seconds) => Some(FieldValue::TimeToEmpty(seconds)),
            None => None,
        }
    } else {
        None
    }
}

/// Whether a name is that of one of the five fields.
pub open spec fn is_field_name(name: Seq<char>) -> bool {
    name == "Percentage"@ || name == "IconName"@ || name == "State"@ || name == "TimeToFull"@
        || name == "TimeToEmpty"@
}

/// The record after one entry of a change notification: the entry's field
/// replaced where the entry decodes, the record as it was where it does not.
pub open spec fn with_change(properties: PropertiesView, change: PropertyView) -> PropertiesView {
    match decode_change(change.name, change.value) {
        Some(value) => set_field(properties, value),
        None => properties,
    }
}

/// The record after the entries of a change notification, applied in order.
pub open spec fn with_changes(properties: PropertiesView, changes: Seq<PropertyView>) -> PropertiesView
    decreases changes.len(),
{
    if changes.len() == 0 {
        properties
    } else {
        with_change(with_changes(properties, changes.drop_last()), changes.last())
    }
}

/// The record after a sequence of change notifications, applied in order.
pub open spec fn with_events(properties: PropertiesView, events: Seq<Seq<PropertyView>>) -> PropertiesView
    decreases events.len(),
{
    if events.len() == 0 {
        properties
    } else {
        with_changes(with_events(properties, events.drop_last()), events.last())
    }
}

/// The last value that the entries of a change notification decode to for a
/// field, if any entry decodes to one.
pub open spec fn last_decoded(changes: Seq<PropertyView>, field: Field) -> Option<FieldValue>
    decreases changes.len(),
{
    if changes.len() == 0 {
        None
    } else {
        match decode_change(changes.last().name, changes.last().value) {
            Some(value) if field_of(value) == field => Some(value),
            _ => last_decoded(changes.drop_last(), field),
        }
    }
}

/// The last value that a sequence of change notifications decodes to for a
/// field, if any of their entries decodes to one.
pub open spec fn last_decoded_in_events(events: Seq<Seq<PropertyView>>, field: Field) -> Option<
    FieldValue,
>
    decreases events.len(),
{
    if events.len() == 0 {
        None
    } else {
        match last_decoded(events.last(), field) {
            Some(value) => Some(value),
            None => last_decoded_in_events(events.drop_last(), field),
        }
    }
}

/// Replacing one field changes what is read from that field and from no
/// other.
pub proof fn lemma_set_field_touches_one_field(
    properties: PropertiesView,
    value: FieldValue,
    field: Field,
)
    ensures
        get_field(set_field(properties, value), field) == if field_of(value) == field {
            value
        } else {
            get_field(properties, field)
        },
{
}

/// After a change notification each field holds the last value that the
/// notification's entries decode to for it, and a field for which none
/// decodes holds what it held before.
pub proof fn lemma_changes_give_last_decoded(
    properties: PropertiesView,
    changes: Seq<PropertyView>,
    field: Field,
)
    ensures
        get_field(with_changes(properties, changes), field) == match last_decoded(changes, field) {
            Some(value) => value,
            None => get_field(properties, field),
        },
    decreases changes.len(),
{
    if changes.len() > 0 {
        lemma_changes_give_last_decoded(properties, changes.drop_last(), field);
    }
}

/// After a sequence of change notifications each field holds the last value
/// that any of their entries decodes to for it, and a field for which none
/// decodes holds what it held before the first of them.
pub proof fn lemma_events_give_last_decoded(
    properties: PropertiesView,
    events: Seq<Seq<PropertyView>>,
    field: Field,
)
    ensures
        get_field(with_events(properties, events), field) == match last_decoded_in_events(
            events,
            field,
        ) {
            Some(value) => value,
            None => get_field(properties, field),
        },
    decreases events.len(),
{
    if events.len() > 0 {
        lemma_events_give_last_decoded(properties, events.drop_last(), field);
        lemma_changes_give_last_decoded(
            with_events(properties, events.drop_last()),
            events.last(),
            field,
        );
    }
}

/// An entry whose name is none of the five fields' decodes to nothing and
/// leaves the record as it was.
pub proof fn lemma_unknown_name_changes_nothing(properties: PropertiesView, change: PropertyView)
    requires
        !is_field_name(change.name),
    ensures
        decode_change(change.name, change.value) is None,
        with_change(properties, change) == properties,
{
}

/// A change notification that names none of the five fields leaves the
/// record as it was.
pub proof fn lemma_unknown_names_change_nothing(
    properties: PropertiesView,
    changes: Seq<PropertyView>,
)
    requires
        forall|i: int| 0 <= i < changes.len() ==> !is_field_name(#[trigger] changes[i].name),
    ensures
        with_changes(properties, changes) == properties,
    decreases changes.len(),
{
    if changes.len() > 0 {
        assert(!is_field_name(changes[changes.len() - 1].name));
        lemma_unknown_names_change_nothing(properties, changes.drop_last());
    }
}

/// An entry that names a field but holds a value of another type than the
/// field's decodes to nothing and leaves the record as it was.
pub proof fn lemma_mistyped_value_changes_nothing(properties: PropertiesView, change: PropertyView)
    requires
        change.name == "Percentage"@ ==> as_double(change.value) is None,
        change.name == "IconName"@ ==> as_text(change.value) is None,
        change.name == "State"@ ==> as_uint32(change.value) is None,
        change.name == "TimeToFull"@ ==> as_int64(change.value) is None,
        change.name == "TimeToEmpty"@ ==> as_int64(change.value) is None,
    ensures
        decode_change(change.name, change.value) is None,
        with_change(properties, change) == properties,
{
}

/// An entry that decodes to nothing can be left out of its change
/// notification: the other entries are applied as if it were not there.
pub proof fn lemma_undecodable_entry_is_skipped(
    properties: PropertiesView,
    changes: Seq<PropertyView>,
    at: int,
)
    requires
        0 <= at < changes.len(),
        decode_change(changes[at].name, changes[at].value) is None,
    ensures
        with_changes(properties, changes) == with_changes(properties, changes.remove(at)),
    decreases changes.len(),
{
    if at == changes.len() - 1 {
        assert(changes.remove(at) == changes.drop_last());
    } else {
        assert(changes.remove(at).last() == changes.last());
        assert(changes.remove(at).drop_last() == changes.drop_last().remove(at));
        lemma_undecodable_entry_is_skipped(properties, changes.drop_last(), at);
    }
}

impl View for UpowerProperties {
    type V = PropertiesView;

    closed spec fn view(&self) -> PropertiesView {
        PropertiesView {
            percentage: self.percentage,
            icon_name: self.icon_name@,
            state: self.state,
            time_to_full: self.time_to_full,
            time_to_empty: self.time_to_empty,
        }
    }
}

impl Clone for UpowerProperties {
    fn clone(&self) -> (copy: Self)
        ensures
            copy@ == self@,
    {
        UpowerProperties {
            percentage: self.percentage,
            icon_name: self.icon_name.clone(),
            state: self.state,
            time_to_full: self.time_to_full,
            time_to_empty: self.time_to_empty,
        }
    }
}

impl Default for UpowerProperties {
    fn default() -> (properties: Self)
        ensures
            properties@ == default_properties(),
    {
        UpowerProperties {
            percentage: 0,
            icon_name: String::new(),
            state: BatteryState::Unknown,
            time_to_full: 0,
            time_to_empty: 0,
        }
    }
}

impl UpowerProperties {
    /// A record of the given values; the charge level is a 64-bit float
    /// given by its bit pattern.
    pub fn new(
        percentage: u64,
        icon_name: String,
        state: BatteryState,
        time_to_full: i64,
        time_to_empty: i64,
    ) -> (properties: Self)
        ensures
            properties@ == (PropertiesView {
                percentage,
                icon_name: icon_name@,
                state,
                time_to_full,
                time_to_empty,
            }),
    {
        UpowerProperties { percentage, icon_name, state, time_to_full, time_to_empty }
    }

    /// The charge level, a 64-bit float given by its bit pattern.
    pub fn percentage(&self) -> (bits: u64)
        ensures
            bits == self@.percentage,
    {
        self.percentage
    }

    pub fn icon_name(&self) -> (name: &str)
        ensures
            name@ == self@.icon_name,
    {
        self.icon_name.as_str()
    }

    pub fn state(&self) -> (state: BatteryState)
        ensures
            state == self@.state,
    {
        self.state
    }

    pub fn time_to_full(&self) -> (seconds: i64)
        ensures
            seconds == self@.time_to_full,
    {
        self.time_to_full
    }

    pub fn time_to_empty(&self) -> (seconds: i64)
        ensures
            seconds == self@.time_to_empty,
    {
        self.time_to_empty
    }

    /// Applies one entry of a change notification. An entry whose name is
    /// none of the five fields', or whose value has not the field's type,
    /// changes nothing.
    pub fn apply_change(&mut self, name: &str, value: &WireValue)
        ensures
            final(self)@ == with_change(old(self)@, (PropertyView { name: name@, value: value@ })),
    {
        if same_text(name, "Percentage") {
            if let WireValue::Double(bits) = value {
                self.percentage = *bits;
            }
        } else if same_text(name, "IconName") {
            if let WireValue::Text(text) = value {
                self.icon_name = text.clone();
            }
        } else if same_text(name, "State") {
            if let WireValue::Uint32(code) = value {
                self.state = battery_state_from_code(*code);
            }
        } else if same_text(name, "TimeToFull") {
            if let WireValue::Int64(seconds) = value {
                self.time_to_full = *seconds;
            }
        } else if same_text(name, "TimeToEmpty") {
            if let WireValue::Int64(seconds) = value {
                self.time_to_empty = *seconds;
            }
        }
    }

    /// Applies the entries of a change notification in order.
    pub fn apply_changes(&mut self, changes: &Vec<Property>)
        ensures
            final(self)@ == with_changes(old(self)@, views(changes@)),
    {
        let mut i: usize = 0;
        assert(views(changes@).take(0).len() == 0);
        while i < changes.len()
            invariant
                i <= changes.len(),
                self@ == with_changes(old(self)@, views(changes@).take(i as int)),
            decreases changes.len() - i,
        {
            let ghost next = views(changes@).take(i + 1);
            assert(next.last() == changes[i as int]@);
            assert(next.drop_last() == views(changes@).take(i as int));
            self.apply_change(changes[i].name.as_str(), &changes[i].value);
            i = i + 1;
        }
        assert(views(changes@).take(i as int) == views(changes@));
    }
}

} // verus!
