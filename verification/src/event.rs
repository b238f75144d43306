//! Structured event records for the append-only log.
//!
//! Every successful mutating operation is described by one event: its
//! kind, the current time, the subject account's address, the subject's
//! freshly packed byte image, and the addresses of the parties involved.
//! Emission is a side effect of the host environment; the core only
//! builds the record.

use vstd::prelude::*;
use crate::addr::Address;

verus! {

/// One entry of the append-only event log.
pub struct EventRecord {
    pub kind: u8,
    pub time: i64,
    pub subject: Address,
    /// The subject record's packed bytes after the mutation.
    pub record_image: Vec<u8>,
    /// Addresses of the parties involved (payer, authority, and so on).
    pub parties: Vec<Address>,
}

/// The mathematical image of an event record.
pub struct EventView {
    pub kind: u8,
    pub time: i64,
    pub subject: Seq<u8>,
    pub record_image: Seq<u8>,
    pub parties: Seq<Seq<u8>>,
}

impl View for EventRecord {
    type V = EventView;

    open spec fn view(&self) -> EventView {
        EventView {
            kind: self.kind,
            time: self.time,
            subject: self.subject@,
            record_image: self.record_image@,
            parties: self.parties@.map_values(|a: Address| a@),
        }
    }
}

/// Builds the event record describing one successful mutation.
pub fn event_record(
    kind: u8,
    time: i64,
    subject: &Address,
    record_image: Vec<u8>,
    parties: Vec<Address>,
) -> (e: EventRecord)
    ensures
        e@ == (EventView {
            kind: kind,
            time: time,
            subject: subject@,
            record_image: record_image@,
            parties: parties@.map_values(|a: Address| a@),
        }),
{
    EventRecord { kind, time, subject: subject.dup(), record_image, parties }
}

} // verus!
