//! Properties that relate several operations, or hold of every state.
use vstd::prelude::*;
use crate::currency::{after_transfer, balance_in};
use crate::kitty::{AccountId, KittyId};
use crate::migrations::LayoutStep;
use crate::pallet::{Error, PalletState};

verus! {

/// A new entity takes the counter's value as its identifier and the counter moves up
/// by exactly one. The identifier was unused; afterwards it has both a record and an
/// owner, and the registry stays well formed.
pub proof fn lemma_mint_takes_counter(
    s: PalletState,
    who: AccountId,
    record: Seq<u8>,
    parents: Option<(KittyId, KittyId)>,
)
    requires
        s.valid(),
        s.create_check() is None,
    ensures
        ({
            let t = s.minted(who, record, parents);
            let id = s.next_kitty_id;
            &&& t.next_kitty_id == id + 1
            &&& !s.kitties.contains_key(id)
            &&& !s.owners.contains_key(id)
            &&& t.kitties.contains_key(id)
            &&& t.owners.contains_key(id)
            &&& t.owners[id] == who
            &&& t.valid()
        }),
{
    let t = s.minted(who, record, parents);
    assert(t.kitties.dom() =~= t.owners.dom());
}

/// When no identifier is left, creating and breeding (of two distinct parents) are
/// both refused with `InvalidKittyId`.
pub proof fn lemma_exhausted_counter_refuses(s: PalletState, kitty_id_1: KittyId, kitty_id_2: KittyId)
    requires
        s.next_kitty_id == u32::MAX,
        kitty_id_1 != kitty_id_2,
    ensures
        s.create_check() == Some(Error::InvalidKittyId),
        s.breed_check(kitty_id_1, kitty_id_2) == Some(Error::InvalidKittyId),
{
}

/// Breeding an entity with itself is refused with `SameKittyId` in every state.
pub proof fn lemma_breed_same_parent_refused(s: PalletState, kitty_id: KittyId)
    ensures
        s.breed_check(kitty_id, kitty_id) == Some(Error::SameKittyId),
{
}

/// Breeding from a parent that does not exist is refused with `InvalidKittyId`, so no
/// identifier is taken.
pub proof fn lemma_breed_missing_parent_refused(
    s: PalletState,
    kitty_id_1: KittyId,
    kitty_id_2: KittyId,
)
    requires
        kitty_id_1 != kitty_id_2,
        !s.kitties.contains_key(kitty_id_1) || !s.kitties.contains_key(kitty_id_2),
    ensures
        s.breed_check(kitty_id_1, kitty_id_2) == Some(Error::InvalidKittyId),
{
}

/// After its owner hands an entity on, the recipient owns it, and the registry stays
/// well formed; anyone else is refused with `NotOwner`.
pub proof fn lemma_transfer_moves_ownership(
    s: PalletState,
    who: AccountId,
    recipient: AccountId,
    kitty_id: KittyId,
)
    requires
        s.valid(),
    ensures
        s.transfer_check(who, kitty_id) is None ==> {
            &&& s.with_owner(kitty_id, recipient).owners[kitty_id] == recipient
            &&& s.with_owner(kitty_id, recipient).valid()
        },
        s.owners.contains_key(kitty_id) && s.owners[kitty_id] != who ==> s.transfer_check(
            who,
            kitty_id,
        ) == Some(Error::NotOwner),
{
    let t = s.with_owner(kitty_id, recipient);
    if s.transfer_check(who, kitty_id) is None {
        assert(t.kitties.dom() =~= t.owners.dom());
    }
}

/// Once its owner has listed an entity, listing it again is refused with
/// `AlreadyOnSale`; listing by anyone but the owner is refused with `NotOwner`.
pub proof fn lemma_listing_twice_refused(s: PalletState, who: AccountId, kitty_id: KittyId)
    requires
        s.valid(),
    ensures
        s.sale_check(who, kitty_id) is None ==> s.listed(kitty_id).sale_check(who, kitty_id)
            == Some(Error::AlreadyOnSale),
        s.sale_check(who, kitty_id) is None ==> s.listed(kitty_id).valid(),
        s.kitties.contains_key(kitty_id) && s.owners[kitty_id] != who ==> s.sale_check(
            who,
            kitty_id,
        ) == Some(Error::NotOwner),
{
}

/// Buying an entity that is not listed is refused with `NotOnSale`. A purchase makes
/// the buyer the owner, clears the sale marker, and moves exactly the price from the
/// buyer to the seller.
pub proof fn lemma_buy_pays_seller(
    s: PalletState,
    balances: Map<AccountId, nat>,
    who: AccountId,
    kitty_id: KittyId,
    price: nat,
)
    requires
        s.valid(),
    ensures
        s.kitties.contains_key(kitty_id) && s.owners[kitty_id] != who && !s.on_sale.contains(
            kitty_id,
        ) ==> s.buy_check(who, kitty_id) == Some(Error::NotOnSale),
        s.buy_check(who, kitty_id) is None && price <= balance_in(balances, who) ==> {
            let seller = s.owners[kitty_id];
            let t = s.bought(who, kitty_id);
            let paid = after_transfer(balances, who, seller, price);
            &&& t.owners[kitty_id] == who
            &&& !t.on_sale.contains(kitty_id)
            &&& t.valid()
            &&& balance_in(paid, seller) == balance_in(balances, seller) + price
            &&& balance_in(paid, who) == balance_in(balances, who) - price
        },
{
    if s.buy_check(who, kitty_id) is None {
        let t = s.bought(who, kitty_id);
        assert(t.kitties.dom() =~= t.owners.dom());
    }
}

/// Offering a layout step twice leaves the same state as offering it once: the step
/// moves the stored version off the one it expects.
pub proof fn lemma_step_idempotent(s: PalletState, step: LayoutStep)
    ensures
        s.after_step(step).after_step(step) == s.after_step(step),
{
}

/// Upgrading twice leaves the same state as upgrading once.
pub proof fn lemma_upgrade_idempotent(s: PalletState)
    ensures
        s.upgraded().upgraded() == s.upgraded(),
{
}

} // verus!
