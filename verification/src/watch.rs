//! Delivery rules of watch streams.

use vstd::prelude::*;
use crate::text::str_equal;
use crate::types::WatchEvent;

verus! {

/// What happened when an event was offered to a watcher's channel.
#[derive(Debug, Clone, Copy, PartialEq, Eq, Structural)]
pub enum Delivery {
    Delivered,
    /// The watcher's buffer was full.
    Full,
    /// The watcher went away.
    Closed,
}

/// Whether a watcher stays subscribed after an event: it stays when its
/// filter rejected the event (`None`) or the event reached it; a watcher
/// whose channel was full or closed is dropped.
pub fn keeps_watcher(delivery: Option<Delivery>) -> (b: bool)
    ensures
        b == (delivery is None || delivery == Some(Delivery::Delivered)),
{
    match delivery {
        None => true,
        Some(Delivery::Delivered) => true,
        Some(Delivery::Full) => false,
        Some(Delivery::Closed) => false,
    }
}

/// Whether an event belongs to a watch of `namespace`: every event does when
/// the watch spans all namespaces (`None`); otherwise those whose object
/// lives in that namespace.
pub fn event_in_namespace(event: &WatchEvent, namespace: Option<&str>) -> (b: bool)
    ensures
        b == match namespace {
            None => true,
            Some(ns) => event.object.metadata@.namespace == Some(ns@),
        },
{
    match namespace {
        None => true,
        Some(ns) => match &event.object.metadata.namespace {
            Some(n) => str_equal(n.as_str(), ns),
            None => false,
        },
    }
}

} // verus!
