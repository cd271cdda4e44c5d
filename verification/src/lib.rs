//! Escrow completion certificates: records that stay soulbound while the
//! escrow runs and become transferable once the oracle reports its outcome.
//!
//! The crate holds the record types, the seeds from which record addresses
//! are derived, the status state machine, the guards on callers, the text of
//! the public metadata and a record store with the five operations on it.

pub mod identity;
pub mod records;
pub mod address;
pub mod metadata;
pub mod ledger;
pub mod program;

pub use identity::Identity;
pub use records::{ErrorCode, EscrowData, EscrowDataView, EscrowNft, EscrowNftView, EscrowStatus, Master};
pub use metadata::{NftMetadata, NftMetadataView};
pub use ledger::{CertificateSlot, Ledger, LedgerView, TokenAccount, TransferOrder};
pub use program::{
    get_escrow_data, initialize, mint_escrow_nft, transfer_nft, update_escrow_status, GetEscrowData,
    Initialize, MintEscrowNft, TransferNft, UpdateEscrowStatus,
};
