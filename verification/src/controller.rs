//! The decisions of the aggregator: what a full read and what a change
//! notification do to the store, and what is published afterwards.
//!
//! Each step takes the store exclusively and works on a whole event, so a
//! published snapshot never shows an event half applied.

use vstd::prelude::*;
use crate::fetch::{decode_device, device_reading, DEVICE_INTERFACE};
use crate::properties::{get_field, last_decoded, lemma_changes_give_last_decoded, Field, PropertiesView};
use crate::store::{after_event, entry_or_default, joined, Store};
use crate::wire::{same_text, views, DecodeError, DecodeErrorView, Property, PropertyView};

verus! {

/// The store after the full read of one device: the battery's record put
/// under its identity, and the store as it was for a device that is no
/// battery or whose read does not decode.
pub open spec fn after_fetch(
    store: Map<Seq<char>, PropertiesView>,
    entries: Seq<PropertyView>,
) -> Map<Seq<char>, PropertiesView> {
    match device_reading(entries) {
        Ok(Some(reading)) => store.insert(reading.0, reading.1),
        _ => store,
    }
}

/// The store after a notification sent under some interface: the event
/// applied where the interface is the device interface, and the store as it
/// was where it is any other.
pub open spec fn after_notification(
    store: Map<Seq<char>, PropertiesView>,
    identity: Seq<char>,
    interface: Seq<char>,
    changes: Seq<PropertyView>,
) -> Map<Seq<char>, PropertiesView> {
    if interface == DEVICE_INTERFACE@ {
        after_event(store, identity, changes)
    } else {
        store
    }
}

/// A snapshot holds what the store holds, device by device.
pub open spec fn is_copy(snapshot: Store, store: Store) -> bool {
    snapshot.wf() && snapshot.listing() == store.listing()
}

/// Takes the full property read of one device into the store.
///
/// A battery's record is put under its identity and the snapshot to publish
/// is returned. A device that is no battery is passed over: no record, no
/// snapshot, no error. A read that does not decode gives its error and
/// leaves the store as it was.
pub fn fetch_device(store: &mut Store, entries: &Vec<Property>) -> (result: Result<
    Option<Store>,
    DecodeError,
>)
    requires
        old(store).wf(),
    ensures
        final(store).wf(),
        final(store)@ == after_fetch(old(store)@, views(entries@)),
        result is Err <==> device_reading(views(entries@)) is Err,
        result is Err ==> result->Err_0@ == device_reading(views(entries@))->Err_0,
        result is Ok ==> (result->Ok_0 is Some <==> device_reading(views(entries@))->Ok_0 is Some),
        result is Ok && result->Ok_0 is Some ==> is_copy(result->Ok_0->Some_0, *final(store)),
        final(store).identities() == match device_reading(views(entries@)) {
            Ok(Some(reading)) => joined(old(store).identities(), old(store)@, reading.0),
            _ => old(store).identities(),
        },
{
    match decode_device(entries) {
        Err(error) => Err(error),
        Ok(None) => Ok(None),
        Ok(Some((identity, properties))) => {
            store.insert(identity, properties);
            Ok(Some(store.snapshot()))
        },
    }
}

/// Takes one change notification for a device into the store.
///
/// A notification under the device interface is applied as a whole, and the
/// snapshot to publish, taken after its last entry, is returned. One under
/// any other interface is discarded: the store stays as it was and nothing
/// is published.
pub fn handle_event(
    store: &mut Store,
    identity: &str,
    interface: &str,
    changes: &Vec<Property>,
) -> (published: Option<Store>)
    requires
        old(store).wf(),
    ensures
        final(store).wf(),
        final(store)@ == after_notification(old(store)@, identity@, interface@, views(changes@)),
        published is Some <==> interface@ == DEVICE_INTERFACE@,
        published is Some ==> is_copy(published->Some_0, *final(store)),
        final(store).identities() == if interface@ == DEVICE_INTERFACE@ {
            joined(old(store).identities(), old(store)@, identity@)
        } else {
            old(store).identities()
        },
{
    if !same_text(interface, DEVICE_INTERFACE) {
        return None;
    }
    store.apply_event(identity, changes);
    Some(store.snapshot())
}

/// A device that is no battery leaves the store as it was.
pub proof fn lemma_skipped_device_adds_nothing(
    store: Map<Seq<char>, PropertiesView>,
    entries: Seq<PropertyView>,
)
    requires
        device_reading(entries) == Ok::<Option<(Seq<char>, PropertiesView)>, DecodeErrorView>(None),
    ensures
        after_fetch(store, entries) == store,
{
}

/// What is published after a change notification shows the whole
/// notification: in every field of the device's record stands the last
/// value that the notification decodes to for it, or what stood there
/// before the notification, and never a value from part of it only.
pub proof fn lemma_published_event_is_whole(
    store: Map<Seq<char>, PropertiesView>,
    identity: Seq<char>,
    changes: Seq<PropertyView>,
    field: Field,
)
    ensures
        after_notification(store, identity, DEVICE_INTERFACE@, changes).dom().contains(identity),
        get_field(after_notification(store, identity, DEVICE_INTERFACE@, changes)[identity], field)
            == match last_decoded(changes, field) {
            Some(value) => value,
            None => get_field(entry_or_default(store, identity), field),
        },
{
    lemma_changes_give_last_decoded(entry_or_default(store, identity), changes, field);
}

} // verus!
