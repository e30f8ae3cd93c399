//! The log of events: the one channel on which both registries announce
//! their changes.
//!
//! The log is handed to every operation that may change a registry. An
//! operation only ever appends to it, one record for each change that
//! succeeds; observers read it and cannot act on the registries through it.

use vstd::prelude::*;
use crate::health_ai;
use crate::sign_data;

verus! {

/// One entry of the log: an event of either registry.
#[derive(Debug)]
pub enum Record {
    /// An event of the relation registry or of the catalog of taboo foods.
    HealthAi(health_ai::Event),
    /// An event of the device registry.
    SignData(sign_data::Event),
}

/// What a [`Record`] holds, as mathematical values.
pub enum RecordView {
    HealthAi(health_ai::EventView),
    SignData(sign_data::EventView),
}

impl View for Record {
    type V = RecordView;

    open spec fn view(&self) -> RecordView {
        match *self {
            Record::HealthAi(event) => RecordView::HealthAi(event@),
            Record::SignData(event) => RecordView::SignData(event@),
        }
    }
}

impl Clone for Record {
    /// A record with the same contents.
    fn clone(&self) -> (copy: Self)
        ensures
            copy@ == self@,
    {
        match self {
            Record::HealthAi(event) => Record::HealthAi(event.clone()),
            Record::SignData(event) => Record::SignData(event.clone()),
        }
    }
}

impl PartialEq for Record {
    /// Two records are equal when they hold equal events of the same registry.
    fn eq(&self, other: &Self) -> (same: bool) {
        match (self, other) {
            (Record::HealthAi(event), Record::HealthAi(other_event)) => event == other_event,
            (Record::SignData(event), Record::SignData(other_event)) => event == other_event,
            _ => false,
        }
    }
}

impl vstd::std_specs::cmp::PartialEqSpecImpl for Record {
    open spec fn obeys_eq_spec() -> bool {
        true
    }

    open spec fn eq_spec(&self, other: &Self) -> bool {
        self@ == other@
    }
}

/// The log of events, oldest first.
pub struct EventLog {
    records: Vec<Record>,
}

impl View for EventLog {
    type V = Seq<RecordView>;

    closed spec fn view(&self) -> Seq<RecordView> {
        self.records@.map_values(|record: Record| record@)
    }
}

impl EventLog {
    /// A log without records.
    pub fn new() -> (log: Self)
        ensures
            log@ == Seq::<RecordView>::empty(),
    {
        let log = EventLog { records: Vec::new() };
        assert(log@ =~= Seq::empty());
        log
    }

    /// Appends `record` as the newest entry.
    pub fn deposit_event(&mut self, record: Record)
        ensures
            final(self)@ == old(self)@.push(record@),
    {
        self.records.push(record);
        assert(final(self)@ =~= old(self)@.push(record@));
    }

    /// The number of records.
    pub fn len(&self) -> (len: usize)
        ensures
            len == self@.len(),
    {
        self.records.len()
    }

    /// Whether the log holds no record.
    pub fn is_empty(&self) -> (empty: bool)
        ensures
            empty == (self@.len() == 0),
    {
        self.records.len() == 0
    }

    /// The records, oldest first.
    pub fn records(&self) -> (records: &Vec<Record>)
        ensures
            records@.map_values(|record: Record| record@) == self@,
    {
        &self.records
    }
}

} // verus!
