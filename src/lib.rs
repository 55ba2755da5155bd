//! A registry of collectible entities: creation, breeding, ownership transfer,
//! a marketplace, and in-place migration of stored records between layouts.

pub mod kitty;
pub mod hashing;
pub mod storage;
pub mod migrations;
pub mod currency;
pub mod pallet;
pub mod laws;

pub use currency::{Balances, Currency, ExistenceRequirement, LedgerError};
pub use kitty::{AccountId, Kitty, KittyId, Seed};
pub use migrations::v1::OldKitty;
pub use migrations::v2::KittyV1;
pub use pallet::{Config, DispatchError, Error, Event, Pallet, Weight};
