//! The entity registry and its state-transition operations.
use vstd::prelude::*;
use std::collections::BTreeMap;
use crate::currency::{after_transfer, Currency, ExistenceRequirement, LedgerError};
use crate::hashing::{blake2_128, blake2_128_of, pallet_account, pallet_account_of};
use crate::kitty::{encode_payload, payload_bytes, AccountId, Kitty, KittyId, Seed, KITTY_SIZE};
use crate::migrations::LayoutStep;
use crate::storage::RawStore;

verus! {

/// Execution cost reported to the host.
pub type Weight = u64;

/// The constants a registry runs with.
#[derive(Clone, Copy, Debug, PartialEq, Eq)]
pub struct Config {
    /// Price of creating or breeding an entity, and of buying one.
    pub kitty_price: u128,
    /// Identifier from which the treasury account is derived.
    pub pallet_id: [u8; 8],
    /// The record layout version this code works with.
    pub storage_version: u16,
}

/// Why an operation was rejected.
#[derive(Clone, Copy, Debug, PartialEq, Eq, Structural)]
pub enum Error {
    /// The entity does not exist, or no identifier is left.
    InvalidKittyId,
    /// The two parents are the same entity.
    SameKittyId,
    /// The caller does not own the entity.
    NotOwner,
    /// The entity is already listed.
    AlreadyOnSale,
    /// The entity has no owner.
    NoOwner,
    /// The caller already owns the entity.
    AlreadyOwned,
    /// The entity is not listed.
    NotOnSale,
}

/// The failure of an operation: a rule of the registry, or the ledger.
#[derive(Clone, Copy, Debug, PartialEq, Eq, Structural)]
pub enum DispatchError {
    Module(Error),
    Ledger(LedgerError),
}

/// A notification of an applied operation.
#[derive(Clone, Copy, Debug, PartialEq, Eq)]
pub enum Event {
    KittyCreated { who: AccountId, kitty_id: KittyId, kitty: Kitty },
    KittyBred { who: AccountId, kitty_id: KittyId, kitty: Kitty },
    KittyTransferred { who: AccountId, recipient: AccountId, kitty_id: KittyId },
    KittyOnSale { who: AccountId, kitty_id: KittyId },
    KittyBought { who: AccountId, current_owner: AccountId, kitty_id: KittyId },
}

impl Event {
    /// This is the notification of `who` creating `kitty_id` with record bytes `record`.
    pub open spec fn is_created(self, who: AccountId, kitty_id: KittyId, record: Seq<u8>) -> bool {
        match self {
            Event::KittyCreated { who: w, kitty_id: i, kitty: k } => w == who && i == kitty_id
                && k.encoded() == record,
            _ => false,
        }
    }

    /// This is the notification of `who` breeding `kitty_id` with record bytes `record`.
    pub open spec fn is_bred(self, who: AccountId, kitty_id: KittyId, record: Seq<u8>) -> bool {
        match self {
            Event::KittyBred { who: w, kitty_id: i, kitty: k } => w == who && i == kitty_id
                && k.encoded() == record,
            _ => false,
        }
    }
}

/// The record bytes of an entity created by `who` with `name`: the digest of the
/// entropy payload as genetic code, then the name.
pub open spec fn created_record(
    seed: Seq<u8>,
    who: AccountId,
    index: Option<u32>,
    name: Seq<u8>,
) -> Seq<u8> {
    blake2_128_of(payload_bytes(seed, who, index)) + name
}

/// The record bytes of a bred entity: an all-zero genetic code, then the name.
pub open spec fn bred_record(name: Seq<u8>) -> Seq<u8> {
    Seq::new(16, |i: int| 0u8) + name
}

/// The registry's state: the allocator, the four registries and the schema version.
pub struct PalletState {
    pub config: Config,
    pub next_kitty_id: KittyId,
    pub kitties: Map<KittyId, Seq<u8>>,
    pub owners: Map<KittyId, AccountId>,
    pub parents: Map<KittyId, (KittyId, KittyId)>,
    pub on_sale: Set<KittyId>,
    pub on_chain_version: u16,
}

impl PalletState {
    /// Every entity has exactly one owner and every owner entry an entity; all
    /// identifiers in use lie below the counter; lineage and sale markers only
    /// concern existing entities.
    pub open spec fn valid(self) -> bool {
        &&& self.kitties.dom() == self.owners.dom()
        &&& forall|id: KittyId| #[trigger] self.kitties.contains_key(id) ==> id < self.next_kitty_id
        &&& self.parents.dom().subset_of(self.kitties.dom())
        &&& self.on_sale.subset_of(self.kitties.dom())
    }

    /// The account that creation fees are paid to.
    pub open spec fn treasury(self) -> AccountId {
        pallet_account_of(self.config.pallet_id@)
    }

    /// The state after the next identifier is given to a new entity owned by `who`.
    pub open spec fn minted(
        self,
        who: AccountId,
        record: Seq<u8>,
        parents: Option<(KittyId, KittyId)>,
    ) -> PalletState {
        let id = self.next_kitty_id;
        PalletState {
            next_kitty_id: (id + 1) as KittyId,
            kitties: self.kitties.insert(id, record),
            owners: self.owners.insert(id, who),
            parents: match parents {
                Some(p) => self.parents.insert(id, p),
                None => self.parents,
            },
            ..self
        }
    }

    /// The rule that `create` or `breed` breaks in this state, if any: no identifier is
    /// left.
    pub open spec fn create_check(self) -> Option<Error> {
        if self.next_kitty_id == u32::MAX {
            Some(Error::InvalidKittyId)
        } else {
            None
        }
    }

    /// The rule that `breed` of `kitty_id_1` and `kitty_id_2` breaks, if any: the parents
    /// must be two distinct existing entities, and an identifier must be left.
    pub open spec fn breed_check(self, kitty_id_1: KittyId, kitty_id_2: KittyId) -> Option<Error> {
        if kitty_id_1 == kitty_id_2 {
            Some(Error::SameKittyId)
        } else if !self.kitties.contains_key(kitty_id_1) || !self.kitties.contains_key(kitty_id_2) {
            Some(Error::InvalidKittyId)
        } else {
            self.create_check()
        }
    }

    /// The rule that `who` handing on `kitty_id` breaks, if any.
    pub open spec fn transfer_check(self, who: AccountId, kitty_id: KittyId) -> Option<Error> {
        if !self.owners.contains_key(kitty_id) {
            Some(Error::InvalidKittyId)
        } else if self.owners[kitty_id] != who {
            Some(Error::NotOwner)
        } else {
            None
        }
    }

    /// The state after `recipient` becomes the owner of `kitty_id`.
    pub open spec fn with_owner(self, kitty_id: KittyId, recipient: AccountId) -> PalletState {
        PalletState { owners: self.owners.insert(kitty_id, recipient), ..self }
    }

    /// The rule that `who` listing `kitty_id` breaks, if any.
    pub open spec fn sale_check(self, who: AccountId, kitty_id: KittyId) -> Option<Error> {
        if !self.kitties.contains_key(kitty_id) {
            Some(Error::InvalidKittyId)
        } else if !self.owners.contains_key(kitty_id) || self.owners[kitty_id] != who {
            Some(Error::NotOwner)
        } else if self.on_sale.contains(kitty_id) {
            Some(Error::AlreadyOnSale)
        } else {
            None
        }
    }

    /// The state after `kitty_id` is listed.
    pub open spec fn listed(self, kitty_id: KittyId) -> PalletState {
        PalletState { on_sale: self.on_sale.insert(kitty_id), ..self }
    }

    /// The rule that `who` buying `kitty_id` breaks, if any.
    pub open spec fn buy_check(self, who: AccountId, kitty_id: KittyId) -> Option<Error> {
        if !self.kitties.contains_key(kitty_id) {
            Some(Error::InvalidKittyId)
        } else if !self.owners.contains_key(kitty_id) {
            Some(Error::NoOwner)
        } else if self.owners[kitty_id] == who {
            Some(Error::AlreadyOwned)
        } else if !self.on_sale.contains(kitty_id) {
            Some(Error::NotOnSale)
        } else {
            None
        }
    }

    /// The state after `who` buys `kitty_id`: `who` owns it and it is no longer listed.
    pub open spec fn bought(self, who: AccountId, kitty_id: KittyId) -> PalletState {
        PalletState {
            owners: self.owners.insert(kitty_id, who),
            on_sale: self.on_sale.remove(kitty_id),
            ..self
        }
    }

    /// The state after every record is rewritten by `step`.
    pub open spec fn migrated(self, step: LayoutStep) -> PalletState {
        PalletState {
            kitties: self.kitties.map_values(|b: Seq<u8>| step.upgraded(b)),
            on_chain_version: step.to_version(),
            ..self
        }
    }

    /// Whether the version gate lets `step` run.
    pub open spec fn step_due(self, step: LayoutStep) -> bool {
        self.on_chain_version == step.from_version() && step.to_version()
            <= self.config.storage_version
    }

    /// The state after an upgrade: each layout step offered in order of version.
    pub open spec fn upgraded(self) -> PalletState {
        self.after_step(LayoutStep::V1).after_step(LayoutStep::V2)
    }

    /// The state after `step` is offered: applied if due, else nothing changes.
    pub open spec fn after_step(self, step: LayoutStep) -> PalletState {
        if self.step_due(step) {
            self.migrated(step)
        } else {
            self
        }
    }
}

/// The registry.
pub struct Pallet {
    config: Config,
    next_kitty_id: KittyId,
    kitties: RawStore,
    kitty_owner: BTreeMap<KittyId, AccountId>,
    kitty_parents: BTreeMap<KittyId, (KittyId, KittyId)>,
    kitty_on_sale: BTreeMap<KittyId, ()>,
    on_chain_version: u16,
    events: Vec<Event>,
}

impl View for Pallet {
    type V = PalletState;

    closed spec fn view(&self) -> PalletState {
        PalletState {
            config: self.config,
            next_kitty_id: self.next_kitty_id,
            kitties: self.kitties@,
            owners: self.kitty_owner@,
            parents: self.kitty_parents@,
            on_sale: self.kitty_on_sale@.dom(),
            on_chain_version: self.on_chain_version,
        }
    }
}


impl Pallet {
    /// The notifications emitted so far, oldest first.
    pub closed spec fn event_log(&self) -> Seq<Event> {
        self.events@
    }

    /// The Entity Store's own bookkeeping is consistent.
    pub closed spec fn store_wf(&self) -> bool {
        self.kitties.wf()
    }

    /// The registry is well formed.
    pub open spec fn wf(&self) -> bool {
        self.store_wf() && self@.valid()
    }

    /// An empty registry whose stored data is at schema version `on_chain_version`.
    pub fn new(config: Config, on_chain_version: u16) -> (p: Pallet)
        ensures
            p.wf(),
            p@ == (PalletState {
                config,
                next_kitty_id: 0,
                kitties: Map::empty(),
                owners: Map::empty(),
                parents: Map::empty(),
                on_sale: Set::empty(),
                on_chain_version,
            }),
            p.event_log() == Seq::<Event>::empty(),
    {
        let p = Pallet {
            config,
            next_kitty_id: 0,
            kitties: RawStore::new(),
            kitty_owner: BTreeMap::new(),
            kitty_parents: BTreeMap::new(),
            kitty_on_sale: BTreeMap::new(),
            on_chain_version,
            events: Vec::new(),
        };
        assert(p@.on_sale =~= Set::<KittyId>::empty());
        p
    }

    /// The identifier the next entity will get.
    pub fn next_kitty_id(&self) -> (r: KittyId)
        ensures
            r == self@.next_kitty_id,
    {
        self.next_kitty_id
    }

    /// Moves the identifier counter forward to `id`.
    pub fn set_next_kitty_id(&mut self, id: KittyId)
        requires
            old(self).wf(),
            id >= old(self)@.next_kitty_id,
        ensures
            final(self).wf(),
            final(self)@ == (PalletState { next_kitty_id: id, ..old(self)@ }),
            final(self).event_log() == old(self).event_log(),
    {
        self.next_kitty_id = id;
    }

    /// The record of entity `id`, decoded under the current layout.
    pub fn kitties(&self, id: KittyId) -> (r: Option<Kitty>)
        ensures
            r is Some <==> self@.kitties.contains_key(id) && self@.kitties[id].len() >= KITTY_SIZE,
            r matches Some(k) ==> k.decodes_from(self@.kitties[id]),
    {
        match self.kitties.get(id) {
            Some(bytes) => Kitty::decode(bytes.as_slice()),
            None => None,
        }
    }

    /// The owner of entity `id`.
    pub fn kitty_owner(&self, id: KittyId) -> (r: Option<AccountId>)
        ensures
            r == (if self@.owners.contains_key(id) {
                Some(self@.owners[id])
            } else {
                None::<AccountId>
            }),
    {
        match self.kitty_owner.get(&id) {
            Some(who) => Some(*who),
            None => None,
        }
    }

    /// The parents of entity `id`, if it was bred.
    pub fn kitty_parents(&self, id: KittyId) -> (r: Option<(KittyId, KittyId)>)
        ensures
            r == (if self@.parents.contains_key(id) {
                Some(self@.parents[id])
            } else {
                None::<(KittyId, KittyId)>
            }),
    {
        match self.kitty_parents.get(&id) {
            Some(p) => Some(*p),
            None => None,
        }
    }

    /// The sale marker of entity `id`.
    pub fn kitty_on_sale(&self, id: KittyId) -> (r: Option<()>)
        ensures
            r is Some <==> self@.on_sale.contains(id),
    {
        if self.kitty_on_sale.contains_key(&id) {
            Some(())
        } else {
            None
        }
    }

    /// The schema version of the stored data.
    pub fn on_chain_storage_version(&self) -> (r: u16)
        ensures
            r == self@.on_chain_version,
    {
        self.on_chain_version
    }

    /// The schema version this code works with.
    pub fn current_storage_version(&self) -> (r: u16)
        ensures
            r == self@.config.storage_version,
    {
        self.config.storage_version
    }

    /// The latest notification.
    pub fn last_event(&self) -> (r: Option<Event>)
        ensures
            r == (if self.event_log().len() > 0 {
                Some(self.event_log().last())
            } else {
                None::<Event>
            }),
    {
        if self.events.len() > 0 {
            Some(self.events[self.events.len() - 1])
        } else {
            None
        }
    }

    /// Takes the next identifier: returns the counter and increments it, or fails
    /// with `InvalidKittyId`, changing nothing, when the increment would overflow.
    pub fn get_next_id(&mut self) -> (r: Result<KittyId, DispatchError>)
        requires
            old(self).wf(),
        ensures
            final(self).wf(),
            final(self).event_log() == old(self).event_log(),
            old(self)@.next_kitty_id < u32::MAX ==> r == Ok::<KittyId, DispatchError>(
                old(self)@.next_kitty_id,
            ) && final(self)@ == (PalletState {
                next_kitty_id: (old(self)@.next_kitty_id + 1) as KittyId,
                ..old(self)@
            }),
            old(self)@.next_kitty_id == u32::MAX ==> r == Err::<KittyId, DispatchError>(
                DispatchError::Module(Error::InvalidKittyId),
            ) && final(self)@ == old(self)@,
    {
        let current_id = self.next_kitty_id;
        match current_id.checked_add(1) {
            Some(next) => {
                self.next_kitty_id = next;
                Ok(current_id)
            },
            None => Err(DispatchError::Module(Error::InvalidKittyId)),
        }
    }

    /// A genetic code derived from the block's seed, the caller and the caller's
    /// position in the batch.
    pub fn random_value(seed: &Seed, sender: AccountId, extrinsic_index: Option<u32>) -> (r: [u8; 16])
        ensures
            r@ == blake2_128_of(payload_bytes(seed@, sender, extrinsic_index)),
    {
        let payload = encode_payload(seed, sender, extrinsic_index);
        blake2_128(&payload)
    }

    /// The treasury account that creation fees are paid to.
    pub fn get_account_id(&self) -> (r: AccountId)
        ensures
            r == self@.treasury(),
    {
        pallet_account(self.config.pallet_id)
    }

    /// Gives the next identifier to `kitty`, owned by `who` and with lineage `parents`,
    /// once `who` has paid the price to the treasury, keeping the minimum balance.
    /// Fails with `InvalidKittyId` when no identifier is left, or with the ledger's error
    /// when the ledger refuses the payment; either way nothing changes.
    pub fn mint<L: Currency>(
        &mut self,
        ledger: &mut L,
        who: AccountId,
        kitty: Kitty,
        parents: Option<(KittyId, KittyId)>,
    ) -> (r: Result<KittyId, DispatchError>)
        requires
            old(self).wf(),
        ensures
            final(self).wf(),
            final(ledger).minimum_balance() == old(ledger).minimum_balance(),
            final(self).event_log() == old(self).event_log(),
            match old(self)@.create_check() {
                Some(e) => {
                    &&& r == Err::<KittyId, DispatchError>(DispatchError::Module(e))
                    &&& final(self)@ == old(self)@
                    &&& *final(ledger) == *old(ledger)
                },
                None => {
                    &&& (r is Ok <==> old(ledger).transfer_ok(
                        who,
                        old(self)@.treasury(),
                        old(self)@.config.kitty_price,
                        ExistenceRequirement::KeepAlive,
                    ))
                    &&& match r {
                        Ok(id) => {
                            &&& id == old(self)@.next_kitty_id
                            &&& final(self)@ == old(self)@.minted(who, kitty.encoded(), parents)
                            &&& final(ledger).balances() == after_transfer(
                                old(ledger).balances(),
                                who,
                                old(self)@.treasury(),
                                old(self)@.config.kitty_price as nat,
                            )
                        },
                        Err(e) => {
                            &&& e is Ledger
                            &&& final(self)@ == old(self)@
                            &&& final(ledger).balances() == old(ledger).balances()
                        },
                    }
                },
            },
    {
        let kitty_id = match self.get_next_id() {
            Ok(id) => id,
            Err(e) => {
                return Err(e);
            },
        };
        let price = self.config.kitty_price;
        let treasury = self.get_account_id();
        match ledger.transfer(who, treasury, price, ExistenceRequirement::KeepAlive) {
            Ok(()) => {},
            Err(e) => {
                self.next_kitty_id = kitty_id;
                return Err(DispatchError::Ledger(e));
            },
        }
        self.kitties.insert(kitty_id, kitty.encode());
        self.kitty_owner.insert(kitty_id, who);
        match parents {
            Some(p) => {
                self.kitty_parents.insert(kitty_id, p);
            },
            None => {},
        }
        let ghost expected = old(self)@.minted(who, kitty.encoded(), parents);
        assert(self@.kitties.dom() =~= self@.owners.dom());
        assert(self@.parents =~= expected.parents);
        assert(self@ == expected);
        Ok(kitty_id)
    }
}


impl Pallet {
    /// `who` creates an entity named `name`, paying the price to the treasury. Its
    /// genetic code is the digest of the block's `seed`, `who` and the caller's
    /// `extrinsic_index`. Once an identifier is left, it succeeds exactly when the ledger
    /// accepts the payment.
    pub fn create<L: Currency>(
        &mut self,
        ledger: &mut L,
        who: AccountId,
        name: [u8; 4],
        seed: &Seed,
        extrinsic_index: Option<u32>,
    ) -> (r: Result<(), DispatchError>)
        requires
            old(self).wf(),
        ensures
            final(self).wf(),
            final(ledger).minimum_balance() == old(ledger).minimum_balance(),
            match old(self)@.create_check() {
                Some(e) => {
                    &&& r == Err::<(), DispatchError>(DispatchError::Module(e))
                    &&& final(self)@ == old(self)@
                    &&& final(self).event_log() == old(self).event_log()
                    &&& *final(ledger) == *old(ledger)
                },
                None => {
                    &&& (r is Ok <==> old(ledger).transfer_ok(
                        who,
                        old(self)@.treasury(),
                        old(self)@.config.kitty_price,
                        ExistenceRequirement::KeepAlive,
                    ))
                    &&& match r {
                        Ok(()) => {
                            let record = created_record(seed@, who, extrinsic_index, name@);
                            &&& final(self)@ == old(self)@.minted(who, record, None)
                            &&& final(ledger).balances() == after_transfer(
                                old(ledger).balances(),
                                who,
                                old(self)@.treasury(),
                                old(self)@.config.kitty_price as nat,
                            )
                            &&& final(self).event_log() == old(self).event_log().push(
                                final(self).event_log().last(),
                            )
                            &&& final(self).event_log().last().is_created(
                                who,
                                old(self)@.next_kitty_id,
                                record,
                            )
                        },
                        Err(e) => {
                            &&& e is Ledger
                            &&& final(self)@ == old(self)@
                            &&& final(self).event_log() == old(self).event_log()
                            &&& final(ledger).balances() == old(ledger).balances()
                        },
                    }
                },
            },
    {
        let dna = Self::random_value(seed, who, extrinsic_index);
        let kitty = Kitty { dna, name };
        let kitty_id = match self.mint(ledger, who, kitty, None) {
            Ok(id) => id,
            Err(e) => {
                return Err(e);
            },
        };
        self.events.push(Event::KittyCreated { who, kitty_id, kitty });
        assert(self.event_log().last().is_created(
            who,
            old(self)@.next_kitty_id,
            kitty.encoded(),
        ));
        Ok(())
    }

    /// `who` breeds `kitty_id_1` and `kitty_id_2` into a new entity named `name`, paying
    /// the price to the treasury. Fails with `SameKittyId` when the parents are one
    /// entity, and with `InvalidKittyId` when a parent does not exist or no identifier
    /// is left; otherwise it succeeds exactly when the ledger accepts the payment. The
    /// new genetic code is all zero, and the lineage is recorded.
    pub fn breed<L: Currency>(
        &mut self,
        ledger: &mut L,
        who: AccountId,
        kitty_id_1: KittyId,
        kitty_id_2: KittyId,
        name: [u8; 4],
    ) -> (r: Result<(), DispatchError>)
        requires
            old(self).wf(),
        ensures
            final(self).wf(),
            final(ledger).minimum_balance() == old(ledger).minimum_balance(),
            match old(self)@.breed_check(kitty_id_1, kitty_id_2) {
                Some(e) => {
                    &&& r == Err::<(), DispatchError>(DispatchError::Module(e))
                    &&& final(self)@ == old(self)@
                    &&& final(self).event_log() == old(self).event_log()
                    &&& *final(ledger) == *old(ledger)
                },
                None => {
                    &&& (r is Ok <==> old(ledger).transfer_ok(
                        who,
                        old(self)@.treasury(),
                        old(self)@.config.kitty_price,
                        ExistenceRequirement::KeepAlive,
                    ))
                    &&& match r {
                        Ok(()) => {
                            &&& final(self)@ == old(self)@.minted(
                                who,
                                bred_record(name@),
                                Some((kitty_id_1, kitty_id_2)),
                            )
                            &&& final(ledger).balances() == after_transfer(
                                old(ledger).balances(),
                                who,
                                old(self)@.treasury(),
                                old(self)@.config.kitty_price as nat,
                            )
                            &&& final(self).event_log() == old(self).event_log().push(
                                final(self).event_log().last(),
                            )
                            &&& final(self).event_log().last().is_bred(
                                who,
                                old(self)@.next_kitty_id,
                                bred_record(name@),
                            )
                        },
                        Err(e) => {
                            &&& e is Ledger
                            &&& final(self)@ == old(self)@
                            &&& final(self).event_log() == old(self).event_log()
                            &&& final(ledger).balances() == old(ledger).balances()
                        },
                    }
                },
            },
    {
        if kitty_id_1 == kitty_id_2 {
            return Err(DispatchError::Module(Error::SameKittyId));
        }
        if !self.kitties.contains_key(kitty_id_1) || !self.kitties.contains_key(kitty_id_2) {
            return Err(DispatchError::Module(Error::InvalidKittyId));
        }
        let kitty = Kitty { dna: [0u8; 16], name };
        assert(kitty.encoded() =~= bred_record(name@));
        let kitty_id = match self.mint(ledger, who, kitty, Some((kitty_id_1, kitty_id_2))) {
            Ok(id) => id,
            Err(e) => {
                return Err(e);
            },
        };
        self.events.push(Event::KittyBred { who, kitty_id, kitty });
        Ok(())
    }

    /// `who` hands entity `kitty_id` to `recipient`. Fails with `InvalidKittyId` when
    /// the entity has no owner and with `NotOwner` when `who` is not its owner.
    pub fn transfer(&mut self, who: AccountId, recipient: AccountId, kitty_id: KittyId) -> (r:
        Result<(), DispatchError>)
        requires
            old(self).wf(),
        ensures
            final(self).wf(),
            match old(self)@.transfer_check(who, kitty_id) {
                Some(e) => {
                    &&& r == Err::<(), DispatchError>(DispatchError::Module(e))
                    &&& final(self)@ == old(self)@
                    &&& final(self).event_log() == old(self).event_log()
                },
                None => {
                    &&& r == Ok::<(), DispatchError>(())
                    &&& final(self)@ == old(self)@.with_owner(kitty_id, recipient)
                    &&& final(self).event_log() == old(self).event_log().push(
                        Event::KittyTransferred { who, recipient, kitty_id },
                    )
                },
            },
    {
        if !self.kitty_owner.contains_key(&kitty_id) {
            return Err(DispatchError::Module(Error::InvalidKittyId));
        }
        if self.kitty_owner(kitty_id) != Some(who) {
            return Err(DispatchError::Module(Error::NotOwner));
        }
        self.kitty_owner.insert(kitty_id, recipient);
        self.events.push(Event::KittyTransferred { who, recipient, kitty_id });
        assert(self@.kitties.dom() =~= self@.owners.dom());
        Ok(())
    }

    /// `who` lists entity `kitty_id` for sale. Fails with `InvalidKittyId` when the
    /// entity does not exist, `NotOwner` when `who` is not its owner, and
    /// `AlreadyOnSale` when it is listed already.
    pub fn sale(&mut self, who: AccountId, kitty_id: KittyId) -> (r: Result<(), DispatchError>)
        requires
            old(self).wf(),
        ensures
            final(self).wf(),
            match old(self)@.sale_check(who, kitty_id) {
                Some(e) => {
                    &&& r == Err::<(), DispatchError>(DispatchError::Module(e))
                    &&& final(self)@ == old(self)@
                    &&& final(self).event_log() == old(self).event_log()
                },
                None => {
                    &&& r == Ok::<(), DispatchError>(())
                    &&& final(self)@ == old(self)@.listed(kitty_id)
                    &&& final(self).event_log() == old(self).event_log().push(
                        Event::KittyOnSale { who, kitty_id },
                    )
                },
            },
    {
        if !self.kitties.contains_key(kitty_id) {
            return Err(DispatchError::Module(Error::InvalidKittyId));
        }
        if self.kitty_owner(kitty_id) != Some(who) {
            return Err(DispatchError::Module(Error::NotOwner));
        }
        if self.kitty_on_sale.contains_key(&kitty_id) {
            return Err(DispatchError::Module(Error::AlreadyOnSale));
        }
        self.kitty_on_sale.insert(kitty_id, ());
        self.events.push(Event::KittyOnSale { who, kitty_id });
        assert(self@.on_sale =~= old(self)@.on_sale.insert(kitty_id));
        Ok(())
    }

    /// `who` buys entity `kitty_id` at the price, paid to its owner. Fails with
    /// `InvalidKittyId` when the entity does not exist, `NoOwner` when it has no
    /// owner, `AlreadyOwned` when `who` owns it, `NotOnSale` when it is not listed,
    /// or with the ledger's error when the ledger refuses the payment; on any failure
    /// nothing changes.
    pub fn buy<L: Currency>(&mut self, ledger: &mut L, who: AccountId, kitty_id: KittyId) -> (r:
        Result<(), DispatchError>)
        requires
            old(self).wf(),
        ensures
            final(self).wf(),
            final(ledger).minimum_balance() == old(ledger).minimum_balance(),
            r is Err ==> {
                &&& final(self)@ == old(self)@
                &&& final(self).event_log() == old(self).event_log()
                &&& final(ledger).balances() == old(ledger).balances()
            },
            match old(self)@.buy_check(who, kitty_id) {
                Some(e) => {
                    &&& r == Err::<(), DispatchError>(DispatchError::Module(e))
                    &&& *final(ledger) == *old(ledger)
                },
                None => {
                    &&& (r is Ok <==> old(ledger).transfer_ok(
                        who,
                        old(self)@.owners[kitty_id],
                        old(self)@.config.kitty_price,
                        ExistenceRequirement::KeepAlive,
                    ))
                    &&& match r {
                        Ok(()) => {
                            let seller = old(self)@.owners[kitty_id];
                            &&& final(self)@ == old(self)@.bought(who, kitty_id)
                            &&& final(ledger).balances() == after_transfer(
                                old(ledger).balances(),
                                who,
                                seller,
                                old(self)@.config.kitty_price as nat,
                            )
                            &&& final(self).event_log() == old(self).event_log().push(
                                Event::KittyBought { who, current_owner: seller, kitty_id },
                            )
                        },
                        Err(e) => e is Ledger,
                    }
                },
            },
    {
        if !self.kitties.contains_key(kitty_id) {
            return Err(DispatchError::Module(Error::InvalidKittyId));
        }
        let current_owner = match self.kitty_owner(kitty_id) {
            Some(owner) => owner,
            None => {
                return Err(DispatchError::Module(Error::NoOwner));
            },
        };
        if current_owner == who {
            return Err(DispatchError::Module(Error::AlreadyOwned));
        }
        if !self.kitty_on_sale.contains_key(&kitty_id) {
            return Err(DispatchError::Module(Error::NotOnSale));
        }
        let price = self.config.kitty_price;
        match ledger.transfer(who, current_owner, price, ExistenceRequirement::KeepAlive) {
            Ok(()) => {},
            Err(e) => {
                return Err(DispatchError::Ledger(e));
            },
        }
        self.kitty_owner.insert(kitty_id, who);
        self.kitty_on_sale.remove(&kitty_id);
        self.events.push(Event::KittyBought { who, current_owner, kitty_id });
        assert(self@.kitties.dom() =~= self@.owners.dom());
        assert(self@.on_sale =~= old(self)@.on_sale.remove(kitty_id));
        Ok(())
    }
}


impl Pallet {
    /// Rewrites every stored record by `step` and records the schema version it leads
    /// to; returns the number of records visited.
    pub(crate) fn upgrade_records(&mut self, step: LayoutStep) -> (w: Weight)
        requires
            old(self).wf(),
        ensures
            final(self).wf(),
            final(self)@ == old(self)@.migrated(step),
            final(self).event_log() == old(self).event_log(),
            w == old(self)@.kitties.dom().len(),
    {
        let n = self.kitties.upgrade_all(step);
        self.on_chain_version = step.version_after();
        assert(self@.kitties.dom() =~= old(self)@.kitties.dom());
        n as Weight
    }

    /// Runs the layout steps in order of version, each only where its version gate
    /// lets it; returns the cost of the steps that ran: the number of records each
    /// step visited, summed (saturating).
    pub fn on_runtime_upgrade(&mut self) -> (w: Weight)
        requires
            old(self).wf(),
        ensures
            final(self).wf(),
            final(self)@ == old(self)@.upgraded(),
            final(self).event_log() == old(self).event_log(),
            ({
                let n = old(self)@.kitties.dom().len();
                let cost = (if old(self)@.step_due(LayoutStep::V1) {
                    n
                } else {
                    0
                }) + (if old(self)@.after_step(LayoutStep::V1).step_due(LayoutStep::V2) {
                    n
                } else {
                    0
                });
                w == (if cost <= u64::MAX {
                    cost
                } else {
                    u64::MAX as nat
                })
            }),
    {
        let first = crate::migrations::v1::migrate(self);
        let second = crate::migrations::v2::migrate(self);
        first.saturating_add(second)
    }
}

} // verus!
