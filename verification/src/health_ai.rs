//! The relation registry and the catalog of taboo foods.
//!
//! An account binds a person to itself under a relation type; the privileged
//! caller maintains, for each chronic condition, the foods to avoid. Every
//! change that succeeds appends one event to the log that the call was handed;
//! a call that is refused changes nothing.

use vstd::prelude::*;
use std::collections::BTreeMap;
use crate::bytes::{copy_bytes, same_bytes};
use crate::log::{EventLog, Record, RecordView};
use crate::origin::{AccountId, Origin, ensure_root, ensure_signed};
pub use crate::person::{PersonInfo, PersonInfoView, de_string_to_bytes};

verus! {

/// The tag under which an account files a person: self, father, mother and
/// so on. Callers agree on the values; the registry only compares them.
pub type RelationType = u8;

/// A notification of one change to the registry.
#[derive(Debug)]
pub enum Event {
    /// An account stored a person under a relation type.
    RelationStored(AccountId, RelationType, PersonInfo),
    /// The taboo foods of a chronic condition were set.
    ChronicTabooFoods(u16, Vec<u8>),
}

/// What an [`Event`] holds, as mathematical values.
pub enum EventView {
    RelationStored(AccountId, RelationType, PersonInfoView),
    ChronicTabooFoods(u16, Seq<u8>),
}

impl View for Event {
    type V = EventView;

    open spec fn view(&self) -> EventView {
        match *self {
            Event::RelationStored(who, relation_type, info) => EventView::RelationStored(
                who,
                relation_type,
                info@,
            ),
            Event::ChronicTabooFoods(chronic, food) => EventView::ChronicTabooFoods(chronic, food@),
        }
    }
}

impl Clone for Event {
    /// An event with the same contents.
    fn clone(&self) -> (copy: Self)
        ensures
            copy@ == self@,
    {
        match self {
            Event::RelationStored(who, relation_type, info) => Event::RelationStored(
                *who,
                *relation_type,
                info.clone(),
            ),
            Event::ChronicTabooFoods(chronic, food) => Event::ChronicTabooFoods(
                *chronic,
                copy_bytes(food),
            ),
        }
    }
}

impl PartialEq for Event {
    /// Two events are equal when they are of the same kind and hold the same
    /// values.
    fn eq(&self, other: &Self) -> (same: bool) {
        match (self, other) {
            (Event::RelationStored(a, r, info), Event::RelationStored(b, q, other_info)) => *a == *b
                && *r == *q && info == other_info,
            (Event::ChronicTabooFoods(c, food), Event::ChronicTabooFoods(d, other_food)) => *c == *d
                && same_bytes(food, other_food),
            _ => false,
        }
    }
}

impl vstd::std_specs::cmp::PartialEqSpecImpl for Event {
    open spec fn obeys_eq_spec() -> bool {
        true
    }

    open spec fn eq_spec(&self, other: &Self) -> bool {
        self@ == other@
    }
}

/// Why a call was refused.
#[derive(Clone, Copy, Debug, PartialEq, Eq, Structural)]
pub enum Error {
    /// A required value is missing. No operation of this module returns it.
    NoneValue,
    /// A stored value would overflow. No operation of this module returns it.
    StorageOverflow,
    /// The payload does not decode into a person's record.
    JsonParamError,
    /// The account has not bound the relation.
    RelationIsNotStored,
    /// The caller does not hold the privileged capability.
    IsNotRoot,
    /// The caller is not an authenticated account.
    BadOrigin,
}

/// The registry as mathematical values: who is bound to whom, and which
/// foods each condition forbids.
pub struct State {
    pub relations: Map<(AccountId, RelationType), PersonInfoView>,
    pub taboos: Map<u16, Seq<u8>>,
}

/// What a call leaves behind: the registry, the log and the answer.
pub struct Outcome {
    pub state: State,
    pub log: Seq<RecordView>,
    pub result: Result<(), Error>,
}

impl State {
    /// The registry before any call.
    pub open spec fn empty() -> State {
        State { relations: Map::empty(), taboos: Map::empty() }
    }

    /// Whether `who` has a person bound under `relation_type`.
    pub open spec fn relation_stored(self, who: AccountId, relation_type: RelationType) -> bool {
        self.relations.contains_key((who, relation_type))
    }

    /// The person that `who` has bound under `relation_type`, if any.
    pub open spec fn relation_persion(self, who: AccountId, relation_type: RelationType) -> Option<
        PersonInfoView,
    > {
        if self.relation_stored(who, relation_type) {
            Some(self.relations[(who, relation_type)])
        } else {
            None
        }
    }

    /// The foods that are taboo for the condition `chronic`, if any were set.
    pub open spec fn chronic_taboo(self, chronic: u16) -> Option<Seq<u8>> {
        if self.taboos.contains_key(chronic) {
            Some(self.taboos[chronic])
        } else {
            None
        }
    }

    /// A refusal: registry and log stay as they are.
    pub open spec fn refuse(self, log: Seq<RecordView>, error: Error) -> Outcome {
        Outcome { state: self, log, result: Err(error) }
    }

    /// `who` stores `info` under `relation_type`: the entry is set, whatever
    /// was there, and one event is appended to the log.
    pub open spec fn store_relation(
        self,
        log: Seq<RecordView>,
        who: AccountId,
        relation_type: RelationType,
        info: PersonInfoView,
    ) -> Outcome {
        Outcome {
            state: State {
                relations: self.relations.insert((who, relation_type), info),
                taboos: self.taboos,
            },
            log: log.push(RecordView::HealthAi(EventView::RelationStored(who, relation_type, info))),
            result: Ok(()),
        }
    }

    /// The foods of `chronic` are set to `food`: the entry is set, whatever
    /// was there, and one event is appended to the log.
    pub open spec fn store_taboo(self, log: Seq<RecordView>, chronic: u16, food: Seq<u8>) -> Outcome {
        Outcome {
            state: State { relations: self.relations, taboos: self.taboos.insert(chronic, food) },
            log: log.push(RecordView::HealthAi(EventView::ChronicTabooFoods(chronic, food))),
            result: Ok(()),
        }
    }

    /// What binding a decoded payload does. The origin is examined first,
    /// then the payload.
    pub open spec fn bind(
        self,
        log: Seq<RecordView>,
        origin: Origin,
        relation_type: RelationType,
        decoded: Option<PersonInfoView>,
    ) -> Outcome {
        match (origin.signer(), decoded) {
            (None, _) => self.refuse(log, Error::BadOrigin),
            (Some(_), None) => self.refuse(log, Error::JsonParamError),
            (Some(who), Some(info)) => self.store_relation(log, who, relation_type, info),
        }
    }

    /// What binding a record does.
    pub open spec fn bind_info(
        self,
        log: Seq<RecordView>,
        origin: Origin,
        relation_type: RelationType,
        info: PersonInfoView,
    ) -> Outcome {
        self.bind(log, origin, relation_type, Some(info))
    }

    /// What setting taboo foods does.
    pub open spec fn save_taboo_foods(
        self,
        log: Seq<RecordView>,
        origin: Origin,
        chronic: u16,
        food: Seq<u8>,
    ) -> Outcome {
        if origin.is_root() {
            self.store_taboo(log, chronic, food)
        } else {
            self.refuse(log, Error::IsNotRoot)
        }
    }
}

/// The relation registry together with the catalog of taboo foods.
pub struct Pallet {
    relations: BTreeMap<(AccountId, RelationType), PersonInfo>,
    taboos: BTreeMap<u16, Vec<u8>>,
}

impl View for Pallet {
    type V = State;

    closed spec fn view(&self) -> State {
        State {
            relations: self.relations@.map_values(|info: PersonInfo| info@),
            taboos: self.taboos@.map_values(|food: Vec<u8>| food@),
        }
    }
}

impl Pallet {
    /// An empty registry: nothing bound, no foods set.
    pub fn new() -> (pallet: Self)
        ensures
            pallet@ == State::empty(),
    {
        let pallet = Pallet { relations: BTreeMap::new(), taboos: BTreeMap::new() };
        assert(pallet@.relations =~= Map::empty());
        assert(pallet@.taboos =~= Map::empty());
        pallet
    }

    /// Whether `owner` has bound a person under `relation_type`.
    pub fn relation_stored(&self, owner: &AccountId, relation_type: &RelationType) -> (stored: bool)
        ensures
            stored == self@.relation_stored(*owner, *relation_type),
    {
        let key = (*owner, *relation_type);
        self.relations.contains_key(&key)
    }

    /// The person that `owner` has bound under `relation_type`, if any.
    pub fn relation_persion(&self, owner: &AccountId, relation_type: &RelationType) -> (found:
        Option<PersonInfo>)
        ensures
            match found {
                Some(info) => self@.relation_persion(*owner, *relation_type) == Some(info@),
                None => self@.relation_persion(*owner, *relation_type) is None,
            },
    {
        let key = (*owner, *relation_type);
        match self.relations.get(&key) {
            Some(info) => Some(info.clone()),
            None => None,
        }
    }

    /// The foods that are taboo for the condition `chronic`, if any were set.
    pub fn chronic_taboo(&self, chronic: &u16) -> (found: Option<Vec<u8>>)
        ensures
            match found {
                Some(food) => self@.chronic_taboo(*chronic) == Some(food@),
                None => self@.chronic_taboo(*chronic) is None,
            },
    {
        match self.taboos.get(chronic) {
            Some(food) => Some(copy_bytes(food)),
            None => None,
        }
    }

    /// Files `info` under `(who, relation_type)` and logs the event.
    fn store_relation(
        &mut self,
        log: &mut EventLog,
        who: AccountId,
        relation_type: RelationType,
        info: PersonInfo,
    )
        ensures
            final(self)@ == old(self)@.store_relation(old(log)@, who, relation_type, info@).state,
            final(log)@ == old(self)@.store_relation(old(log)@, who, relation_type, info@).log,
    {
        let logged = info.clone();
        self.relations.insert((who, relation_type), info);
        log.deposit_event(Record::HealthAi(Event::RelationStored(who, relation_type, logged)));
        assert(final(self)@.relations =~= old(self)@.relations.insert((who, relation_type), info@));
        assert(final(self)@.taboos =~= old(self)@.taboos);
    }

    /// Binds the person of a decoded payload to the calling account under
    /// `relation_type`. `decoded` is what decoding the caller's payload gave:
    /// the record, or `None` where the payload is malformed.
    ///
    /// A caller that is not a signed account is refused with `BadOrigin`, a
    /// malformed payload with `JsonParamError`; a refusal leaves the registry
    /// and the log as they were. Otherwise the entry is set, replacing any
    /// earlier one, and one `RelationStored` event is appended to `log`.
    pub fn bind(
        &mut self,
        log: &mut EventLog,
        origin: Origin,
        relation_type: RelationType,
        decoded: Option<PersonInfo>,
    ) -> (result: Result<(), Error>)
        ensures
            ({
                let outcome = old(self)@.bind(
                    old(log)@,
                    origin,
                    relation_type,
                    match decoded {
                        Some(info) => Some(info@),
                        None => None,
                    },
                );
                &&& final(self)@ == outcome.state
                &&& final(log)@ == outcome.log
                &&& result == outcome.result
            }),
            result is Err ==> final(self)@ == old(self)@ && final(log)@ == old(log)@,
    {
        let sender = match ensure_signed(origin) {
            Some(who) => who,
            None => { return Err(Error::BadOrigin); },
        };
        let ps_info = match decoded {
            Some(info) => info,
            None => { return Err(Error::JsonParamError); },
        };
        self.store_relation(log, sender, relation_type, ps_info);
        Ok(())
    }

    /// Binds `ps_info` to the calling account under `relation_type`.
    ///
    /// A caller that is not a signed account is refused with `BadOrigin`, and
    /// the registry and the log stay as they were. Otherwise the entry is
    /// set, replacing any earlier one, and one `RelationStored` event is
    /// appended to `log`.
    pub fn bind_info(
        &mut self,
        log: &mut EventLog,
        origin: Origin,
        relation_type: RelationType,
        ps_info: PersonInfo,
    ) -> (result: Result<(), Error>)
        ensures
            ({
                let outcome = old(self)@.bind_info(old(log)@, origin, relation_type, ps_info@);
                &&& final(self)@ == outcome.state
                &&& final(log)@ == outcome.log
                &&& result == outcome.result
            }),
            result is Err ==> final(self)@ == old(self)@ && final(log)@ == old(log)@,
    {
        let sender = match ensure_signed(origin) {
            Some(who) => who,
            None => { return Err(Error::BadOrigin); },
        };
        self.store_relation(log, sender, relation_type, ps_info);
        Ok(())
    }

    /// Sets the taboo foods of the condition `chronic`.
    ///
    /// Only the privileged caller may do so: every other caller is refused
    /// with `IsNotRoot`, and the catalog and the log stay as they were.
    /// Otherwise the entry is set, replacing any earlier one, and one
    /// `ChronicTabooFoods` event is appended to `log`.
    pub fn save_taboo_foods(
        &mut self,
        log: &mut EventLog,
        origin: Origin,
        chronic: u16,
        food: Vec<u8>,
    ) -> (result: Result<(), Error>)
        ensures
            ({
                let outcome = old(self)@.save_taboo_foods(old(log)@, origin, chronic, food@);
                &&& final(self)@ == outcome.state
                &&& final(log)@ == outcome.log
                &&& result == outcome.result
            }),
            !origin.is_root() ==> result == Err::<(), Error>(Error::IsNotRoot) && final(self)@ == old(
                self,
            )@ && final(log)@ == old(log)@,
    {
        if !ensure_root(origin) {
            return Err(Error::IsNotRoot);
        }
        let logged = copy_bytes(&food);
        self.taboos.insert(chronic, food);
        log.deposit_event(Record::HealthAi(Event::ChronicTabooFoods(chronic, logged)));
        assert(final(self)@.relations =~= old(self)@.relations);
        assert(final(self)@.taboos =~= old(self)@.taboos.insert(chronic, food@));
        Ok(())
    }
}

/// A read is answered from the registry's state alone. Two registries in the
/// same state, such as one registry at two moments with no change between
/// them, give the same answers to `relation_stored`, `relation_persion` and
/// `chronic_taboo`.
pub proof fn lemma_reads_repeat(
    first: Pallet,
    second: Pallet,
    who: AccountId,
    relation_type: RelationType,
    chronic: u16,
)
    requires
        first@ == second@,
    ensures
        first@.relation_stored(who, relation_type) == second@.relation_stored(who, relation_type),
        first@.relation_persion(who, relation_type) == second@.relation_persion(who, relation_type),
        first@.chronic_taboo(chronic) == second@.chronic_taboo(chronic),
{
}

/// A caller without the privileged capability cannot change the catalog of
/// taboo foods: the call is refused with `IsNotRoot`, and the registry and
/// the log are what they were.
pub proof fn lemma_taboo_foods_need_root(
    state: State,
    log: Seq<RecordView>,
    origin: Origin,
    chronic: u16,
    food: Seq<u8>,
)
    requires
        !origin.is_root(),
    ensures
        state.save_taboo_foods(log, origin, chronic, food) == (Outcome {
            state,
            log,
            result: Err(Error::IsNotRoot),
        }),
{
}

} // verus!
