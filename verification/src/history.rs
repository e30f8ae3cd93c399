//! What holds of the two registries over every sequence of calls.
//!
//! The registries are driven one call at a time. This module models the pair
//! of them with their log, a call, and a run of calls, and proves what any
//! run preserves:
//! a relation is bound exactly from the first accepted bind on, a bound
//! device always belongs to a bound relation, and a refused call leaves no
//! trace.

use vstd::prelude::*;
use crate::health_ai;
use crate::health_ai::{PersonInfoView, RelationType};
use crate::log::RecordView;
use crate::origin::{AccountId, Origin};
use crate::sign_data;
use crate::sign_data::DeviceType;

verus! {

/// One call to either registry, with its arguments as mathematical values.
pub enum Call {
    /// `health_ai::Pallet::bind`
    Bind { origin: Origin, relation_type: RelationType, decoded: Option<PersonInfoView> },
    /// `health_ai::Pallet::bind_info`
    BindInfo { origin: Origin, relation_type: RelationType, ps_info: PersonInfoView },
    /// `health_ai::Pallet::save_taboo_foods`
    SaveTabooFoods { origin: Origin, chronic: u16, food: Seq<u8> },
    /// `sign_data::Pallet::bind`
    BindDevice { origin: Origin, relation_type: RelationType, device_type: DeviceType, sn: Seq<u8> },
    /// `sign_data::Pallet::unbind`
    UnbindDevice { origin: Origin, relation_type: RelationType, device_type: DeviceType },
}

impl Call {
    /// Whether the call is a bind of a person by the signed account `who`
    /// under `relation_type`, with a payload that decoded where it carries
    /// one: the binds that the relation registry accepts for that entry.
    pub open spec fn binds(self, who: AccountId, relation_type: RelationType) -> bool {
        match self {
            Call::Bind { origin, relation_type: r, decoded } => origin == Origin::Signed(who) && r
                == relation_type && decoded is Some,
            Call::BindInfo { origin, relation_type: r, ps_info } => origin == Origin::Signed(who)
                && r == relation_type,
            _ => false,
        }
    }
}

/// The two registries and the log that they share.
pub struct World {
    pub registry: health_ai::State,
    pub devices: sign_data::State,
    pub log: Seq<RecordView>,
}

impl World {
    /// Both registries and the log before any call.
    pub open spec fn empty() -> World {
        World {
            registry: health_ai::State::empty(),
            devices: sign_data::State::empty(),
            log: Seq::empty(),
        }
    }

    /// The world in which the relation registry made a call with `outcome`.
    pub open spec fn after_registry(self, outcome: health_ai::Outcome) -> World {
        World { registry: outcome.state, devices: self.devices, log: outcome.log }
    }

    /// The world in which the device registry made a call with `outcome`.
    pub open spec fn after_devices(self, outcome: sign_data::Outcome) -> World {
        World { registry: self.registry, devices: outcome.state, log: outcome.log }
    }

    /// Whether the call is accepted in this state.
    pub open spec fn accepts(self, call: Call) -> bool {
        match call {
            Call::Bind { origin, relation_type, decoded } => self.registry.bind(
                self.log,
                origin,
                relation_type,
                decoded,
            ).result is Ok,
            Call::BindInfo { origin, relation_type, ps_info } => self.registry.bind_info(
                self.log,
                origin,
                relation_type,
                ps_info,
            ).result is Ok,
            Call::SaveTabooFoods { origin, chronic, food } => self.registry.save_taboo_foods(
                self.log,
                origin,
                chronic,
                food,
            ).result is Ok,
            Call::BindDevice { origin, relation_type, device_type, sn } => self.devices.bind(
                self.registry,
                self.log,
                origin,
                relation_type,
                device_type,
                sn,
            ).result is Ok,
            Call::UnbindDevice { origin, relation_type, device_type } => self.devices.unbind(
                self.log,
                origin,
                relation_type,
                device_type,
            ).result is Ok,
        }
    }

    /// The state after one call.
    pub open spec fn step(self, call: Call) -> World {
        match call {
            Call::Bind { origin, relation_type, decoded } => self.after_registry(
                self.registry.bind(self.log, origin, relation_type, decoded),
            ),
            Call::BindInfo { origin, relation_type, ps_info } => self.after_registry(
                self.registry.bind_info(self.log, origin, relation_type, ps_info),
            ),
            Call::SaveTabooFoods { origin, chronic, food } => self.after_registry(
                self.registry.save_taboo_foods(self.log, origin, chronic, food),
            ),
            Call::BindDevice { origin, relation_type, device_type, sn } => self.after_devices(
                self.devices.bind(self.registry, self.log, origin, relation_type, device_type, sn),
            ),
            Call::UnbindDevice { origin, relation_type, device_type } => self.after_devices(
                self.devices.unbind(self.log, origin, relation_type, device_type),
            ),
        }
    }

    /// The state after the calls of `calls`, made in order.
    pub open spec fn run(self, calls: Seq<Call>) -> World
        decreases calls.len(),
    {
        if calls.len() == 0 {
            self
        } else {
            self.run(calls.drop_last()).step(calls.last())
        }
    }

    /// How many of the calls of `calls`, made in order, are accepted.
    pub open spec fn accepted(self, calls: Seq<Call>) -> nat
        decreases calls.len(),
    {
        if calls.len() == 0 {
            0
        } else if self.run(calls.drop_last()).accepts(calls.last()) {
            self.accepted(calls.drop_last()) + 1
        } else {
            self.accepted(calls.drop_last())
        }
    }

    /// Whether every bound device belongs to a bound relation.
    pub open spec fn devices_have_relations(self) -> bool {
        forall|who: AccountId, relation_type: RelationType, device_type: DeviceType|
            #[trigger] self.devices.device_stored(who, relation_type, device_type)
                ==> self.registry.relation_stored(who, relation_type)
    }
}

/// A refused call leaves both registries and the log exactly as they were.
pub proof fn lemma_refused_call_changes_nothing(world: World, call: Call)
    requires
        !world.accepts(call),
    ensures
        world.step(call) == world,
{
}

/// An accepted call appends exactly one record to the log: what was logged
/// before stays, in its order, and one record follows it.
pub proof fn lemma_accepted_call_logs_one_event(world: World, call: Call)
    requires
        world.accepts(call),
    ensures
        world.step(call).log.len() == world.log.len() + 1,
        world.step(call).log.drop_last() == world.log,
{
    assert(world.step(call).log.drop_last() =~= world.log);
}

/// After a run of calls the log holds what it held before, in its order,
/// and after that exactly one record for each call of the run that was
/// accepted.
pub proof fn lemma_run_logs_accepted_calls(world: World, calls: Seq<Call>)
    ensures
        world.log.is_prefix_of(world.run(calls).log),
        world.run(calls).log.len() == world.log.len() + world.accepted(calls),
        world.accepted(calls) <= calls.len(),
    decreases calls.len(),
{
    if calls.len() > 0 {
        let mid = world.run(calls.drop_last());
        lemma_run_logs_accepted_calls(world, calls.drop_last());
        if mid.accepts(calls.last()) {
            lemma_accepted_call_logs_one_event(mid, calls.last());
            assert(mid.log.is_prefix_of(mid.step(calls.last()).log));
        } else {
            lemma_refused_call_changes_nothing(mid, calls.last());
        }
    }
}

/// A bind of a person by a signed account with a payload that decoded is
/// accepted in every state, and the relation is bound right after it.
pub proof fn lemma_bind_is_accepted(
    world: World,
    call: Call,
    who: AccountId,
    relation_type: RelationType,
)
    requires
        call.binds(who, relation_type),
    ensures
        world.accepts(call),
        world.step(call).registry.relation_stored(who, relation_type),
{
}

/// A call that is no accepted bind of a relation leaves the relation as it
/// was: bound if it was bound, unbound if it was not.
pub proof fn lemma_only_bind_stores_relation(
    world: World,
    call: Call,
    who: AccountId,
    relation_type: RelationType,
)
    requires
        !call.binds(who, relation_type),
    ensures
        world.step(call).registry.relation_stored(who, relation_type)
            == world.registry.relation_stored(who, relation_type),
{
}

/// No call unbinds a relation: one that is bound stays bound after any call.
pub proof fn lemma_step_keeps_relations(
    world: World,
    call: Call,
    who: AccountId,
    relation_type: RelationType,
)
    requires
        world.registry.relation_stored(who, relation_type),
    ensures
        world.step(call).registry.relation_stored(who, relation_type),
{
}

/// After any run of calls, an account has a relation bound exactly if it had
/// it bound before the run or some call of the run was an accepted bind of
/// it. So the relation is unbound until the first such bind and bound ever
/// after, however many binds follow.
pub proof fn lemma_relation_stored_iff_bound(
    world: World,
    calls: Seq<Call>,
    who: AccountId,
    relation_type: RelationType,
)
    ensures
        world.run(calls).registry.relation_stored(who, relation_type) <==> (
        world.registry.relation_stored(who, relation_type) || exists|i: int|
            0 <= i < calls.len() && (#[trigger] calls[i]).binds(who, relation_type)),
    decreases calls.len(),
{
    if calls.len() > 0 {
        let before = calls.drop_last();
        let last = calls.last();
        lemma_relation_stored_iff_bound(world, before, who, relation_type);
        let mid = world.run(before);
        if mid.registry.relation_stored(who, relation_type) {
            lemma_step_keeps_relations(mid, last, who, relation_type);
            if !world.registry.relation_stored(who, relation_type) {
                let i = choose|i: int|
                    0 <= i < before.len() && (#[trigger] before[i]).binds(who, relation_type);
                assert(calls[i] == before[i]);
            }
        } else if last.binds(who, relation_type) {
            assert(calls[calls.len() - 1] == last);
        } else {
            assert forall|i: int| 0 <= i < calls.len() implies !(#[trigger] calls[i]).binds(
                who,
                relation_type,
            ) by {
                if i < before.len() {
                    assert(calls[i] == before[i]);
                }
            }
        }
    }
}

/// Starting from the empty registries, an account has a relation bound
/// exactly if some call so far was an accepted bind of it.
pub proof fn lemma_relation_stored_from_empty(
    calls: Seq<Call>,
    who: AccountId,
    relation_type: RelationType,
)
    ensures
        World::empty().run(calls).registry.relation_stored(who, relation_type) <==> exists|i: int|
            0 <= i < calls.len() && (#[trigger] calls[i]).binds(who, relation_type),
{
    lemma_relation_stored_iff_bound(World::empty(), calls, who, relation_type);
}

/// One call keeps every bound device with a bound relation.
pub proof fn lemma_step_keeps_devices_with_relations(world: World, call: Call)
    requires
        world.devices_have_relations(),
    ensures
        world.step(call).devices_have_relations(),
{
    let after = world.step(call);
    assert forall|who: AccountId, relation_type: RelationType, device_type: DeviceType|
        #[trigger] after.devices.device_stored(
            who,
            relation_type,
            device_type,
        ) implies after.registry.relation_stored(who, relation_type) by {
        if world.devices.device_stored(who, relation_type, device_type) {
            lemma_step_keeps_relations(world, call, who, relation_type);
        }
    }
}

/// Whatever calls are made, in whatever order, every bound device belongs to
/// a bound relation, provided that this held before the first of them.
pub proof fn lemma_run_keeps_devices_with_relations(world: World, calls: Seq<Call>)
    requires
        world.devices_have_relations(),
    ensures
        world.run(calls).devices_have_relations(),
    decreases calls.len(),
{
    if calls.len() > 0 {
        lemma_run_keeps_devices_with_relations(world, calls.drop_last());
        lemma_step_keeps_devices_with_relations(world.run(calls.drop_last()), calls.last());
    }
}

/// In every state that calls can reach from the empty registries, every
/// bound device belongs to a bound relation.
pub proof fn lemma_devices_have_relations(calls: Seq<Call>)
    ensures
        World::empty().run(calls).devices_have_relations(),
{
    lemma_run_keeps_devices_with_relations(World::empty(), calls);
}

} // verus!
