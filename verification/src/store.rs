//! The keyed store of battery telemetry: one record for each device
//! identity, merged from full reads and change notifications.

use vstd::prelude::*;
use crate::properties::{
    default_properties, get_field, last_decoded_in_events, lemma_events_give_last_decoded,
    with_changes, with_events, Field, PropertiesView, UpowerProperties,
};
use crate::wire::{same_text, views, Property, PropertyView};

verus! {

/// One device's record under its identity.
#[derive(Debug)]
struct Entry {
    identity: String,
    properties: UpowerProperties,
}

/// The mapping from device identity to telemetry.
///
/// The devices are kept in the order in which they first appeared.
#[derive(Debug)]
pub struct Store {
    entries: Vec<Entry>,
}

/// The mapping that a list of identities and records stands for.
pub open spec fn map_of(listing: Seq<(Seq<char>, PropertiesView)>) -> Map<Seq<char>, PropertiesView>
    decreases listing.len(),
{
    if listing.len() == 0 {
        Map::empty()
    } else {
        map_of(listing.drop_last()).insert(listing.last().0, listing.last().1)
    }
}

/// No identity stands twice in the list.
pub open spec fn distinct(listing: Seq<(Seq<char>, PropertiesView)>) -> bool {
    forall|i: int, j: int| 0 <= i < j < listing.len() ==> listing[i].0 != listing[j].0
}

/// The record that a change notification works on: the device's own, or
/// the default record for a device that has none yet.
pub open spec fn entry_or_default(
    store: Map<Seq<char>, PropertiesView>,
    identity: Seq<char>,
) -> PropertiesView {
    if store.dom().contains(identity) {
        store[identity]
    } else {
        default_properties()
    }
}

/// The order of the devices once a device has a record: as it was for a
/// device that had one, and with the device added at the end otherwise.
pub open spec fn joined(
    order: Seq<Seq<char>>,
    store: Map<Seq<char>, PropertiesView>,
    identity: Seq<char>,
) -> Seq<Seq<char>> {
    if store.dom().contains(identity) {
        order
    } else {
        order.push(identity)
    }
}

/// The store after one change notification for a device: its record, or
/// the default record if it had none, with the changes applied; every other
/// device as it was.
pub open spec fn after_event(
    store: Map<Seq<char>, PropertiesView>,
    identity: Seq<char>,
    changes: Seq<PropertyView>,
) -> Map<Seq<char>, PropertiesView> {
    store.insert(identity, with_changes(entry_or_default(store, identity), changes))
}

/// The store after a sequence of change notifications for one device.
pub open spec fn after_events(
    store: Map<Seq<char>, PropertiesView>,
    identity: Seq<char>,
    events: Seq<Seq<PropertyView>>,
) -> Map<Seq<char>, PropertiesView>
    decreases events.len(),
{
    if events.len() == 0 {
        store
    } else {
        after_event(after_events(store, identity, events.drop_last()), identity, events.last())
    }
}

proof fn lemma_absent(listing: Seq<(Seq<char>, PropertiesView)>, identity: Seq<char>)
    requires
        forall|i: int| 0 <= i < listing.len() ==> (#[trigger] listing[i]).0 != identity,
    ensures
        !map_of(listing).dom().contains(identity),
    decreases listing.len(),
{
    if listing.len() > 0 {
        assert(listing[listing.len() - 1].0 != identity);
        lemma_absent(listing.drop_last(), identity);
    }
}

proof fn lemma_present(listing: Seq<(Seq<char>, PropertiesView)>, at: int)
    requires
        distinct(listing),
        0 <= at < listing.len(),
    ensures
        map_of(listing).dom().contains(listing[at].0),
        map_of(listing)[listing[at].0] == listing[at].1,
    decreases listing.len(),
{
    if at < listing.len() - 1 {
        lemma_present(listing.drop_last(), at);
    }
}

proof fn lemma_replace(listing: Seq<(Seq<char>, PropertiesView)>, at: int, record: PropertiesView)
    requires
        distinct(listing),
        0 <= at < listing.len(),
    ensures
        distinct(listing.update(at, (listing[at].0, record))),
        map_of(listing.update(at, (listing[at].0, record))) == map_of(listing).insert(
            listing[at].0,
            record,
        ),
    decreases listing.len(),
{
    let changed = listing.update(at, (listing[at].0, record));
    if at == listing.len() - 1 {
        assert(changed.drop_last() == listing.drop_last());
    } else {
        assert(changed.drop_last() == listing.drop_last().update(at, (listing[at].0, record)));
        lemma_replace(listing.drop_last(), at, record);
    }
    assert(map_of(changed) =~= map_of(listing).insert(listing[at].0, record));
}

proof fn lemma_count(listing: Seq<(Seq<char>, PropertiesView)>)
    requires
        distinct(listing),
    ensures
        map_of(listing).dom().finite(),
        map_of(listing).dom().len() == listing.len(),
    decreases listing.len(),
{
    if listing.len() > 0 {
        lemma_count(listing.drop_last());
        lemma_absent(listing.drop_last(), listing.last().0);
    }
}

impl Store {
    /// The devices and their records, in the order in which the devices
    /// first appeared.
    pub closed spec fn listing(&self) -> Seq<(Seq<char>, PropertiesView)> {
        Seq::new(
            self.entries@.len(),
            |i: int| (self.entries@[i].identity@, self.entries@[i].properties@),
        )
    }

    /// The devices, in the order in which they first appeared.
    pub open spec fn identities(&self) -> Seq<Seq<char>> {
        Seq::new(self.listing().len(), |i: int| self.listing()[i].0)
    }

    /// No device stands twice in the store.
    pub open spec fn wf(&self) -> bool {
        distinct(self.listing())
    }

    /// The store as a mapping from device identity to record.
    pub open spec fn view(&self) -> Map<Seq<char>, PropertiesView> {
        map_of(self.listing())
    }

    /// The listing holds each device of the mapping once, with its record.
    pub proof fn lemma_listing(&self)
        requires
            self.wf(),
        ensures
            self@.dom().finite(),
            self@.dom().len() == self.listing().len(),
            forall|i: int|
                0 <= i < self.listing().len() ==> self@.dom().contains(
                    (#[trigger] self.listing()[i]).0,
                ) && self@[self.listing()[i].0] == self.listing()[i].1,
    {
        lemma_count(self.listing());
        assert forall|i: int| 0 <= i < self.listing().len() implies self@.dom().contains(
            (#[trigger] self.listing()[i]).0,
        ) && self@[self.listing()[i].0] == self.listing()[i].1 by {
            lemma_present(self.listing(), i);
        }
    }

    /// The empty store.
    pub fn new() -> (store: Store)
        ensures
            store.wf(),
            store@ == Map::<Seq<char>, PropertiesView>::empty(),
            store.listing() == Seq::<(Seq<char>, PropertiesView)>::empty(),
    {
        Store { entries: Vec::new() }
    }

    /// The number of devices.
    pub fn len(&self) -> (count: usize)
        requires
            self.wf(),
        ensures
            count == self@.dom().len(),
            count == self.listing().len(),
    {
        proof {
            lemma_count(self.listing());
        }
        self.entries.len()
    }

    /// Whether the store holds no device.
    pub fn is_empty(&self) -> (empty: bool)
        requires
            self.wf(),
        ensures
            empty == (self@ == Map::<Seq<char>, PropertiesView>::empty()),
    {
        proof {
            lemma_count(self.listing());
            if self.listing().len() == 0 {
                assert(self@ =~= Map::<Seq<char>, PropertiesView>::empty());
            }
        }
        self.entries.len() == 0
    }

    fn position(&self, identity: &str) -> (found: Option<usize>)
        ensures
            match found {
                Some(at) => at < self.listing().len() && self.listing()[at as int].0 == identity@,
                None => forall|i: int|
                    0 <= i < self.listing().len() ==> (#[trigger] self.listing()[i]).0
                        != identity@,
            },
    {
        let mut i: usize = 0;
        while i < self.entries.len()
            invariant
                i <= self.entries.len(),
                self.listing().len() == self.entries.len(),
                forall|j: int| 0 <= j < i ==> (#[trigger] self.listing()[j]).0 != identity@,
            decreases self.entries.len() - i,
        {
            if same_text(self.entries[i].identity.as_str(), identity) {
                return Some(i);
            }
            i = i + 1;
        }
        None
    }

    /// Whether the store holds a record for a device.
    pub fn contains(&self, identity: &str) -> (held: bool)
        requires
            self.wf(),
        ensures
            held == self@.dom().contains(identity@),
    {
        match self.position(identity) {
            Some(at) => {
                proof {
                    lemma_present(self.listing(), at as int);
                }
                true
            },
            None => {
                proof {
                    lemma_absent(self.listing(), identity@);
                }
                false
            },
        }
    }

    /// The record of a device, if the store holds one.
    pub fn get(&self, identity: &str) -> (found: Option<&UpowerProperties>)
        requires
            self.wf(),
        ensures
            match found {
                Some(properties) => self@.dom().contains(identity@) && self@[identity@]
                    == properties@,
                None => !self@.dom().contains(identity@),
            },
    {
        match self.position(identity) {
            Some(at) => {
                proof {
                    lemma_present(self.listing(), at as int);
                }
                Some(&self.entries[at].properties)
            },
            None => {
                proof {
                    lemma_absent(self.listing(), identity@);
                }
                None
            },
        }
    }

    /// The device at a place of the listing, with its record.
    pub fn entry_at(&self, index: usize) -> (entry: (&str, &UpowerProperties))
        requires
            index < self.listing().len(),
        ensures
            (entry.0@, entry.1@) == self.listing()[index as int],
    {
        (self.entries[index].identity.as_str(), &self.entries[index].properties)
    }

    /// Puts a record under a device's identity, in place of the one that
    /// the device had, if it had one. A device that had none comes last in
    /// the order; the order of the others stays.
    pub fn insert(&mut self, identity: String, properties: UpowerProperties)
        requires
            old(self).wf(),
        ensures
            final(self).wf(),
            final(self)@ == old(self)@.insert(identity@, properties@),
            final(self).identities() == joined(old(self).identities(), old(self)@, identity@),
    {
        match self.position(identity.as_str()) {
            Some(at) => {
                proof {
                    lemma_replace(self.listing(), at as int, properties@);
                    lemma_present(self.listing(), at as int);
                }
                let ghost before = self.listing();
                self.entries.set(at, Entry { identity, properties });
                assert(self.listing() == before.update(at as int, (identity@, properties@)));
                assert(self.identities() == old(self).identities());
            },
            None => {
                proof {
                    lemma_absent(self.listing(), identity@);
                }
                let ghost before = self.listing();
                self.entries.push(Entry { identity, properties });
                assert(self.listing() == before.push((identity@, properties@)));
                assert(self.listing().drop_last() == before);
                assert(self.identities() == old(self).identities().push(identity@));
            },
        }
    }

    /// Applies one change notification to a device's record. A device that
    /// has no record yet gets the default record first, so the device has a
    /// record afterwards whatever the notification holds.
    pub fn apply_event(&mut self, identity: &str, changes: &Vec<Property>)
        requires
            old(self).wf(),
        ensures
            final(self).wf(),
            final(self)@ == after_event(old(self)@, identity@, views(changes@)),
            final(self).identities() == joined(old(self).identities(), old(self)@, identity@),
    {
        let mut properties = match self.get(identity) {
            Some(current) => current.clone(),
            None => UpowerProperties::default(),
        };
        properties.apply_changes(changes);
        self.insert(identity.to_owned(), properties);
    }

    /// A copy of the whole store, as it is now.
    pub fn snapshot(&self) -> (copy: Store)
        ensures
            copy.listing() == self.listing(),
            copy@ == self@,
            copy.wf() == self.wf(),
    {
        let mut entries: Vec<Entry> = Vec::new();
        let mut i: usize = 0;
        while i < self.entries.len()
            invariant
                i <= self.entries.len(),
                entries@.len() == i,
                forall|j: int|
                    0 <= j < i ==> (#[trigger] entries@[j]).identity@ == self.entries@[j].identity@
                        && entries@[j].properties@ == self.entries@[j].properties@,
            decreases self.entries.len() - i,
        {
            entries.push(
                Entry {
                    identity: self.entries[i].identity.clone(),
                    properties: self.entries[i].properties.clone(),
                },
            );
            i = i + 1;
        }
        let copy = Store { entries };
        assert(copy.listing() == self.listing());
        copy
    }
}

/// A change notification alters no other device's record.
pub proof fn lemma_event_keeps_other_devices(
    store: Map<Seq<char>, PropertiesView>,
    identity: Seq<char>,
    changes: Seq<PropertyView>,
    other: Seq<char>,
)
    requires
        other != identity,
    ensures
        after_event(store, identity, changes).dom().contains(other) == store.dom().contains(other),
        store.dom().contains(other) ==> after_event(store, identity, changes)[other]
            == store[other],
{
}

/// After one or more change notifications the device has a record, and it
/// is the record it had before them, or the default record if it had none,
/// with the notifications applied in order.
pub proof fn lemma_events_merge(
    store: Map<Seq<char>, PropertiesView>,
    identity: Seq<char>,
    events: Seq<Seq<PropertyView>>,
)
    requires
        events.len() > 0,
    ensures
        after_events(store, identity, events).dom().contains(identity),
        after_events(store, identity, events)[identity] == with_events(
            entry_or_default(store, identity),
            events,
        ),
    decreases events.len(),
{
    if events.len() > 1 {
        lemma_events_merge(store, identity, events.drop_last());
    } else {
        assert(after_events(store, identity, events.drop_last()) == store);
        assert(with_events(entry_or_default(store, identity), events.drop_last())
            == entry_or_default(store, identity));
    }
}

/// Change notifications applied to the empty store leave in each field of
/// the device's record the last value that any of them decodes to for that
/// field, and the default where none does.
pub proof fn lemma_events_on_empty_store(
    identity: Seq<char>,
    events: Seq<Seq<PropertyView>>,
    field: Field,
)
    requires
        events.len() > 0,
    ensures
        after_events(Map::empty(), identity, events).dom().contains(identity),
        get_field(after_events(Map::empty(), identity, events)[identity], field)
            == match last_decoded_in_events(events, field) {
            Some(value) => value,
            None => get_field(default_properties(), field),
        },
{
    lemma_events_merge(Map::empty(), identity, events);
    lemma_events_give_last_decoded(default_properties(), events, field);
}

/// A change notification that names none of the five fields leaves a
/// device that has a record with that record, and gives a device that has
/// none the default record; no other device is touched.
pub proof fn lemma_unknown_names_keep_store(
    store: Map<Seq<char>, PropertiesView>,
    identity: Seq<char>,
    changes: Seq<PropertyView>,
)
    requires
        forall|i: int|
            0 <= i < changes.len() ==> !crate::properties::is_field_name(
                #[trigger] changes[i].name,
            ),
    ensures
        store.dom().contains(identity) ==> after_event(store, identity, changes) == store,
        after_event(store, identity, changes) == store.insert(
            identity,
            entry_or_default(store, identity),
        ),
{
    crate::properties::lemma_unknown_names_change_nothing(
        entry_or_default(store, identity),
        changes,
    );
    if store.dom().contains(identity) {
        assert(store.insert(identity, store[identity]) =~= store);
    }
}

} // verus!
