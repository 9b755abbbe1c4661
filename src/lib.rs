//! Transaction construction and outcome reporting for a collection workload:
//! mint items into a collection, burn them out of it, and bootstrap the
//! collection itself.

pub mod address;
pub mod ident;
pub mod codec;
pub mod events;
pub mod builders;
pub mod bootstrap;

pub use address::AccountAddress;
pub use bootstrap::{
    BootstrapError, CollectionConfig, create_collection_call, on_activate_finalized, on_create_finalized,
    read_collection_config, set_minting_status_call,
};
pub use builders::{EntryFunction, NftBurnSignedTransactionBuilder, NftMintSignedTransactionBuilder, TransactionRequest};
pub use events::{ContractEvent, EventError, StructTag, TransactionOutcome};
pub use ident::{Identifier, InvalidIdentifier, ModuleId, get_module_id};
