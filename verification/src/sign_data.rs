//! The registry of devices bound to an account's relations.
//!
//! A device is filed under the account, the relation type and the device
//! type. It can be bound only while the account has a person bound under
//! that relation type, and unbound only while it is bound. Every change that
//! succeeds appends one event to the log that the call was handed; a call
//! that is refused changes nothing.

use vstd::prelude::*;
use std::collections::BTreeMap;
use crate::bytes::{copy_bytes, same_bytes};
use crate::health_ai;
use crate::health_ai::RelationType;
use crate::log::{EventLog, Record, RecordView};
use crate::origin::{AccountId, Origin, ensure_signed};

verus! {

/// The tag that tells what kind of device is bound: a wearable, a mattress
/// sensor, a glucometer and so on. Callers agree on the values; the registry
/// only compares them.
pub type DeviceType = u8;

/// A notification of one change to the registry.
#[derive(Debug)]
pub enum Event {
    /// An account bound a device, given by its serial, to one of its relations.
    RelationDeviceStored(AccountId, (RelationType, DeviceType), Vec<u8>),
    /// An account unbound the device of one of its relations.
    RelationDeviceUnbind(AccountId, (RelationType, DeviceType)),
}

/// What an [`Event`] holds, as mathematical values.
pub enum EventView {
    RelationDeviceStored(AccountId, (RelationType, DeviceType), Seq<u8>),
    RelationDeviceUnbind(AccountId, (RelationType, DeviceType)),
}

impl View for Event {
    type V = EventView;

    open spec fn view(&self) -> EventView {
        match *self {
            Event::RelationDeviceStored(who, key, sn) => EventView::RelationDeviceStored(
                who,
                key,
                sn@,
            ),
            Event::RelationDeviceUnbind(who, key) => EventView::RelationDeviceUnbind(who, key),
        }
    }
}

impl Clone for Event {
    /// An event with the same contents.
    fn clone(&self) -> (copy: Self)
        ensures
            copy@ == self@,
    {
        match self {
            Event::RelationDeviceStored(who, key, sn) => Event::RelationDeviceStored(
                *who,
                *key,
                copy_bytes(sn),
            ),
            Event::RelationDeviceUnbind(who, key) => Event::RelationDeviceUnbind(*who, *key),
        }
    }
}

impl PartialEq for Event {
    /// Two events are equal when they are of the same kind and hold the same
    /// values.
    fn eq(&self, other: &Self) -> (same: bool) {
        match (self, other) {
            (Event::RelationDeviceStored(a, k, sn), Event::RelationDeviceStored(b, l, other_sn)) => *a
                == *b && k.0 == l.0 && k.1 == l.1 && same_bytes(sn, other_sn),
            (Event::RelationDeviceUnbind(a, k), Event::RelationDeviceUnbind(b, l)) => *a == *b && k.0
                == l.0 && k.1 == l.1,
            _ => false,
        }
    }
}

impl vstd::std_specs::cmp::PartialEqSpecImpl for Event {
    open spec fn obeys_eq_spec() -> bool {
        true
    }

    open spec fn eq_spec(&self, other: &Self) -> bool {
        self@ == other@
    }
}

/// Why a call was refused.
#[derive(Clone, Copy, Debug, PartialEq, Eq, Structural)]
pub enum Error {
    /// A required value is missing. No operation of this module returns it.
    NoneValue,
    /// A stored value would overflow. No operation of this module returns it.
    StorageOverflow,
    /// The account has not bound the relation.
    RelationIsNotStored,
    /// The account has not bound the device.
    RelationDeviceIsNotStored,
    /// The caller is not an authenticated account.
    BadOrigin,
}

/// The registry as mathematical values: the serial of each bound device.
pub struct State {
    pub devices: Map<(AccountId, RelationType, DeviceType), Seq<u8>>,
}

/// What a call leaves behind: the registry, the log and the answer.
pub struct Outcome {
    pub state: State,
    pub log: Seq<RecordView>,
    pub result: Result<(), Error>,
}

impl State {
    /// The registry before any call.
    pub open spec fn empty() -> State {
        State { devices: Map::empty() }
    }

    /// Whether `who` has a device of `device_type` bound to `relation_type`.
    pub open spec fn device_stored(
        self,
        who: AccountId,
        relation_type: RelationType,
        device_type: DeviceType,
    ) -> bool {
        self.devices.contains_key((who, relation_type, device_type))
    }

    /// The serial of the device that `who` has bound under `key`, a relation
    /// type and a device type, if any.
    pub open spec fn owned_devices(self, who: AccountId, key: (RelationType, DeviceType)) -> Option<
        Seq<u8>,
    > {
        if self.device_stored(who, key.0, key.1) {
            Some(self.devices[(who, key.0, key.1)])
        } else {
            None
        }
    }

    /// A refusal: registry and log stay as they are.
    pub open spec fn refuse(self, log: Seq<RecordView>, error: Error) -> Outcome {
        Outcome { state: self, log, result: Err(error) }
    }

    /// `who` binds the device `sn`: the entry is set, whatever was there, and
    /// one event is appended to the log.
    pub open spec fn store_device(
        self,
        log: Seq<RecordView>,
        who: AccountId,
        relation_type: RelationType,
        device_type: DeviceType,
        sn: Seq<u8>,
    ) -> Outcome {
        Outcome {
            state: State { devices: self.devices.insert((who, relation_type, device_type), sn) },
            log: log.push(
                RecordView::SignData(
                    EventView::RelationDeviceStored(who, (relation_type, device_type), sn),
                ),
            ),
            result: Ok(()),
        }
    }

    /// `who` unbinds a device: the entry is gone and one event is appended to
    /// the log.
    pub open spec fn drop_device(
        self,
        log: Seq<RecordView>,
        who: AccountId,
        relation_type: RelationType,
        device_type: DeviceType,
    ) -> Outcome {
        Outcome {
            state: State { devices: self.devices.remove((who, relation_type, device_type)) },
            log: log.push(
                RecordView::SignData(EventView::RelationDeviceUnbind(who, (relation_type, device_type))),
            ),
            result: Ok(()),
        }
    }

    /// What binding a device does, given the relation registry as it is at
    /// the call.
    pub open spec fn bind(
        self,
        relations: health_ai::State,
        log: Seq<RecordView>,
        origin: Origin,
        relation_type: RelationType,
        device_type: DeviceType,
        sn: Seq<u8>,
    ) -> Outcome {
        match origin.signer() {
            None => self.refuse(log, Error::BadOrigin),
            Some(who) => if relations.relation_stored(who, relation_type) {
                self.store_device(log, who, relation_type, device_type, sn)
            } else {
                self.refuse(log, Error::RelationIsNotStored)
            },
        }
    }

    /// What unbinding a device does.
    pub open spec fn unbind(
        self,
        log: Seq<RecordView>,
        origin: Origin,
        relation_type: RelationType,
        device_type: DeviceType,
    ) -> Outcome {
        match origin.signer() {
            None => self.refuse(log, Error::BadOrigin),
            Some(who) => if self.device_stored(who, relation_type, device_type) {
                self.drop_device(log, who, relation_type, device_type)
            } else {
                self.refuse(log, Error::RelationDeviceIsNotStored)
            },
        }
    }
}

/// The device registry.
pub struct Pallet {
    devices: BTreeMap<(AccountId, RelationType, DeviceType), Vec<u8>>,
}

impl View for Pallet {
    type V = State;

    closed spec fn view(&self) -> State {
        State { devices: self.devices@.map_values(|sn: Vec<u8>| sn@) }
    }
}

impl Pallet {
    /// An empty registry: no device bound.
    pub fn new() -> (pallet: Self)
        ensures
            pallet@ == State::empty(),
    {
        let pallet = Pallet { devices: BTreeMap::new() };
        assert(pallet@.devices =~= Map::empty());
        pallet
    }

    /// The serial of the device that `owner` has bound under `key`, a
    /// relation type and a device type, if any.
    pub fn owned_devices(&self, owner: &AccountId, key: &(RelationType, DeviceType)) -> (found:
        Option<Vec<u8>>)
        ensures
            match found {
                Some(sn) => self@.owned_devices(*owner, *key) == Some(sn@),
                None => self@.owned_devices(*owner, *key) is None,
            },
    {
        let full = (*owner, key.0, key.1);
        match self.devices.get(&full) {
            Some(sn) => Some(copy_bytes(sn)),
            None => None,
        }
    }

    /// Binds the device with serial `sn` to the relation `relation_type` of
    /// the calling account, as a device of `device_type`. `relations` is the
    /// relation registry that answers whether the relation is bound.
    ///
    /// A caller that is not a signed account is refused with `BadOrigin`; a
    /// signed caller is refused with `RelationIsNotStored` exactly when it has
    /// no person bound under `relation_type`. A refusal leaves the registry
    /// and the log as they were. Otherwise the entry is set, replacing any
    /// earlier one, and one `RelationDeviceStored` event is appended to `log`.
    pub fn bind(
        &mut self,
        relations: &health_ai::Pallet,
        log: &mut EventLog,
        origin: Origin,
        relation_type: RelationType,
        device_type: DeviceType,
        sn: Vec<u8>,
    ) -> (result: Result<(), Error>)
        ensures
            ({
                let outcome = old(self)@.bind(
                    relations@,
                    old(log)@,
                    origin,
                    relation_type,
                    device_type,
                    sn@,
                );
                &&& final(self)@ == outcome.state
                &&& final(log)@ == outcome.log
                &&& result == outcome.result
            }),
            origin matches Origin::Signed(who) ==> (result == Err::<(), Error>(
                Error::RelationIsNotStored,
            ) <==> !relations@.relation_stored(who, relation_type)),
            result is Err ==> final(self)@ == old(self)@ && final(log)@ == old(log)@,
    {
        let sender = match ensure_signed(origin) {
            Some(who) => who,
            None => { return Err(Error::BadOrigin); },
        };
        let is_stored = relations.relation_stored(&sender, &relation_type);
        if !is_stored {
            return Err(Error::RelationIsNotStored);
        }
        let logged = copy_bytes(&sn);
        self.devices.insert((sender, relation_type, device_type), sn);
        log.deposit_event(
            Record::SignData(Event::RelationDeviceStored(sender, (relation_type, device_type), logged)),
        );
        assert(final(self)@.devices =~= old(self)@.devices.insert(
            (sender, relation_type, device_type),
            sn@,
        ));
        Ok(())
    }

    /// Unbinds the device of `device_type` from the relation `relation_type`
    /// of the calling account.
    ///
    /// A caller that is not a signed account is refused with `BadOrigin`; a
    /// signed caller is refused with `RelationDeviceIsNotStored` exactly when
    /// no such device is bound. A refusal leaves the registry and the log as
    /// they were. Otherwise the entry is removed and one
    /// `RelationDeviceUnbind` event is appended to `log`.
    pub fn unbind(
        &mut self,
        log: &mut EventLog,
        origin: Origin,
        relation_type: RelationType,
        device_type: DeviceType,
    ) -> (result: Result<(), Error>)
        ensures
            ({
                let outcome = old(self)@.unbind(old(log)@, origin, relation_type, device_type);
                &&& final(self)@ == outcome.state
                &&& final(log)@ == outcome.log
                &&& result == outcome.result
            }),
            origin matches Origin::Signed(who) ==> (result == Err::<(), Error>(
                Error::RelationDeviceIsNotStored,
            ) <==> !old(self)@.device_stored(who, relation_type, device_type)),
            result is Err ==> final(self)@ == old(self)@ && final(log)@ == old(log)@,
    {
        let sender = match ensure_signed(origin) {
            Some(who) => who,
            None => { return Err(Error::BadOrigin); },
        };
        let key = (sender, relation_type, device_type);
        if !self.devices.contains_key(&key) {
            return Err(Error::RelationDeviceIsNotStored);
        }
        self.devices.remove(&key);
        log.deposit_event(
            Record::SignData(Event::RelationDeviceUnbind(sender, (relation_type, device_type))),
        );
        assert(final(self)@.devices =~= old(self)@.devices.remove(key));
        Ok(())
    }
}

/// A signed caller's bind is refused with `RelationIsNotStored` exactly when
/// the caller has no person bound under the relation type at the call, and
/// the refusal leaves the device registry and the log as they were.
pub proof fn lemma_bind_needs_relation(
    state: State,
    relations: health_ai::State,
    log: Seq<RecordView>,
    who: AccountId,
    relation_type: RelationType,
    device_type: DeviceType,
    sn: Seq<u8>,
)
    ensures
        ({
            let bound = state.bind(
                relations,
                log,
                Origin::Signed(who),
                relation_type,
                device_type,
                sn,
            );
            &&& bound.result == Err::<(), Error>(Error::RelationIsNotStored)
                <==> !relations.relation_stored(who, relation_type)
            &&& !relations.relation_stored(who, relation_type) ==> bound.state == state && bound.log
                == log
        }),
{
}

/// Binding a device and unbinding it at once leaves no device under that
/// key, whether the bind was accepted or refused, and every other key as it
/// was; the unbind is accepted whenever the bind was. Unbinding once more is
/// then refused with `RelationDeviceIsNotStored` and changes nothing.
pub proof fn lemma_bind_then_unbind(
    state: State,
    relations: health_ai::State,
    log: Seq<RecordView>,
    who: AccountId,
    relation_type: RelationType,
    device_type: DeviceType,
    sn: Seq<u8>,
)
    ensures
        ({
            let origin = Origin::Signed(who);
            let bound = state.bind(relations, log, origin, relation_type, device_type, sn);
            let unbound = bound.state.unbind(bound.log, origin, relation_type, device_type);
            let again = unbound.state.unbind(unbound.log, origin, relation_type, device_type);
            &&& !unbound.state.device_stored(who, relation_type, device_type)
            &&& unbound.state.devices == state.devices.remove((who, relation_type, device_type))
            &&& bound.result is Ok ==> unbound.result is Ok
            &&& again == unbound.state.refuse(unbound.log, Error::RelationDeviceIsNotStored)
        }),
{
    let origin = Origin::Signed(who);
    let bound = state.bind(relations, log, origin, relation_type, device_type, sn);
    let unbound = bound.state.unbind(bound.log, origin, relation_type, device_type);
    assert(unbound.state.devices =~= state.devices.remove((who, relation_type, device_type)));
}

} // verus!
