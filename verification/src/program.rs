//! The five operations of the program, by agreement identifier: each derives
//! the record's address and then works on the record store.

use vstd::prelude::*;
use vstd::utf8::encode_utf8;
use crate::address::{derive_address, escrow_seeds, escrow_seeds_spec, master_seeds, master_seeds_spec, program_address};
use crate::identity::Identity;
use crate::ledger::{Ledger, LedgerView, TokenAccount, TransferOrder};
use crate::metadata::{created_metadata, updated_metadata, NftMetadata};
use crate::records::{
    issued, ErrorCode, EscrowData, EscrowStatus, Master, MAX_COMPLETION_SCORE, MAX_DESCRIPTION_BYTES,
    MAX_ESCROW_ID_BYTES,
};

verus! {

/// Who asks for the configuration record to be created.
#[derive(Clone, Copy, Debug, PartialEq, Eq)]
pub struct Initialize {
    pub authority: Identity,
}

/// Who asks for a certificate to be issued.
#[derive(Clone, Copy, Debug, PartialEq, Eq)]
pub struct MintEscrowNft {
    pub oracle: Identity,
}

/// Who reports an outcome, and for which agreement.
#[derive(Debug, PartialEq, Eq)]
pub struct UpdateEscrowStatus {
    pub oracle: Identity,
    pub escrow_id: String,
}

/// Who asks to pass a certificate on, with the token account that holds its
/// unit, the unit's mint, and who is to receive it.
#[derive(Debug, PartialEq, Eq)]
pub struct TransferNft {
    pub escrow_id: String,
    pub owner: Identity,
    pub from_token_account: TokenAccount,
    pub mint_account: Identity,
    pub to_authority: Identity,
}

/// Which agreement's certificate is to be read.
#[derive(Debug, PartialEq, Eq)]
pub struct GetEscrowData {
    pub escrow_id: String,
}

/// The address of the certificate of `escrow_id` in the program of `ledger`.
pub open spec fn certificate_address(ledger: LedgerView, escrow_id: Seq<char>) -> Option<(Seq<u8>, u8)> {
    program_address(escrow_seeds_spec(escrow_id), ledger.program_id)
}

/// Creates the configuration record, with the caller as the oracle. Works
/// once: a second call is refused with `RecordAlreadyExists`.
pub fn initialize(ledger: &mut Ledger, ctx: &Initialize) -> (res: Result<(), ErrorCode>)
    ensures
        old(ledger).wf() ==> final(ledger).wf(),
        match program_address(master_seeds_spec(), old(ledger).program_id@) {
            None => res == Err::<(), ErrorCode>(ErrorCode::AddressSpaceExhausted) && final(ledger)@ == old(
                ledger,
            )@,
            Some((_, bump)) => if old(ledger).master is None {
                &&& res is Ok
                &&& final(ledger)@ == (LedgerView {
                    master: Some(Master { authority: ctx.authority, bump, total_minted: 0 }),
                    ..old(ledger)@
                })
            } else {
                res == Err::<(), ErrorCode>(ErrorCode::RecordAlreadyExists) && final(ledger)@ == old(ledger)@
            },
        },
{
    let seeds = master_seeds();
    match derive_address(&seeds, &ledger.program_id) {
        Err(e) => Err(e),
        Ok(pair) => ledger.initialize_at(ctx.authority, pair.1),
    }
}

/// Issues the certificate of the agreement `escrow_id`. Refused with
/// `AddressSpaceExhausted` where no address can be derived, with
/// `RecordAlreadyExists` where the address is taken, with `RecordNotFound`
/// where the program was never initialized, and with `UnauthorizedOracle`
/// where the caller is not the oracle; a refusal changes nothing. On success
/// the certificate is active, soulbound and without a score, and the counter
/// has grown by one.
pub fn mint_escrow_nft(
    ledger: &mut Ledger,
    ctx: &MintEscrowNft,
    escrow_id: String,
    client_wallet: Identity,
    freelancer_wallet: Identity,
    amount: u64,
    project_description: String,
    timestamp: i64,
) -> (res: Result<NftMetadata, ErrorCode>)
    requires
        old(ledger).wf(),
        encode_utf8(escrow_id@).len() <= MAX_ESCROW_ID_BYTES,
        encode_utf8(project_description@).len() <= MAX_DESCRIPTION_BYTES,
        old(ledger).master matches Some(master) ==> master.total_minted < u64::MAX,
    ensures
        final(ledger).wf(),
        match certificate_address(old(ledger)@, escrow_id@) {
            None => res == Err::<NftMetadata, ErrorCode>(ErrorCode::AddressSpaceExhausted) && final(ledger)@
                == old(ledger)@,
            Some((address, bump)) => match old(ledger)@.mint_outcome(ctx.oracle@, address) {
                Ok(()) => {
                    &&& res matches Ok(data)
                    &&& data@ == created_metadata(escrow_id@, ctx.oracle@)
                    &&& final(ledger)@ == old(ledger)@.minted(
                        address,
                        issued(
                            escrow_id@,
                            client_wallet@,
                            freelancer_wallet@,
                            amount,
                            project_description@,
                            timestamp,
                            bump,
                        ),
                    )
                },
                Err(e) => res == Err::<NftMetadata, ErrorCode>(e) && final(ledger)@ == old(ledger)@,
            },
        },
        old(ledger)@.holds(escrow_id@) ==> res == Err::<NftMetadata, ErrorCode>(ErrorCode::RecordAlreadyExists),
{
    let seeds = escrow_seeds(escrow_id.as_str());
    match derive_address(&seeds, &ledger.program_id) {
        Err(e) => {
            proof {
                if ledger@.holds(escrow_id@) {
                    let i = choose|i: int|
                        0 <= i < ledger@.slots.len() && (#[trigger] ledger@.slots[i]).nft.escrow_data.escrow_id
                            == escrow_id@;
                    assert(ledger@.slots[i].nft.wf());
                }
            }
            Err(e)
        },
        Ok(pair) => ledger.mint_at(
            &ctx.oracle,
            pair.0,
            pair.1,
            escrow_id,
            client_wallet,
            freelancer_wallet,
            amount,
            project_description,
            timestamp,
        ),
    }
}

/// Records the outcome that the oracle reports for the agreement of `ctx`.
/// Refused with `RecordNotFound` where the program was never initialized,
/// with `UnauthorizedOracle` where the caller is not the oracle, with
/// `RecordNotFound` where the agreement has no certificate, and with
/// `InvalidStatusTransition` where the certificate is no longer active or
/// the new status is `Active`; a refusal changes nothing.
pub fn update_escrow_status(
    ledger: &mut Ledger,
    ctx: &UpdateEscrowStatus,
    new_status: EscrowStatus,
    completion_score: Option<u8>,
) -> (res: Result<NftMetadata, ErrorCode>)
    requires
        old(ledger).wf(),
        completion_score matches Some(score) ==> score <= MAX_COMPLETION_SCORE,
    ensures
        final(ledger).wf(),
        match update_outcome_for(old(ledger)@, ctx.oracle@, ctx.escrow_id@, new_status) {
            Ok(i) => {
                &&& res matches Ok(data)
                &&& data@ == updated_metadata(
                    old(ledger)@.slots[i].nft.escrow_data.escrow_id,
                    ctx.oracle@,
                    new_status,
                    completion_score,
                )
                &&& final(ledger)@ == old(ledger)@.updated(i, new_status, completion_score)
            },
            Err(e) => res == Err::<NftMetadata, ErrorCode>(e) && final(ledger)@ == old(ledger)@,
        },
{
    let seeds = escrow_seeds(ctx.escrow_id.as_str());
    match derive_address(&seeds, &ledger.program_id) {
        Ok(pair) => ledger.update_at(&ctx.oracle, &pair.0, new_status, completion_score),
        Err(_) => match ledger.master {
            None => Err(ErrorCode::RecordNotFound),
            Some(master) => match master.require_oracle(&ctx.oracle) {
                Err(e) => Err(e),
                Ok(()) => Err(ErrorCode::RecordNotFound),
            },
        },
    }
}

/// How a status update for the agreement `escrow_id` ends: as the update at
/// the derived address does, and as for an empty address where none can be
/// derived.
pub open spec fn update_outcome_for(
    ledger: LedgerView,
    oracle: Seq<u8>,
    escrow_id: Seq<char>,
    new_status: EscrowStatus,
) -> Result<int, ErrorCode> {
    match certificate_address(ledger, escrow_id) {
        Some((address, _)) => ledger.update_outcome(oracle, address, new_status),
        None => match ledger.oracle_guard(oracle) {
            Err(e) => Err(e),
            Ok(()) => Err(ErrorCode::RecordNotFound),
        },
    }
}

/// Nobody but the registered oracle can update a status, whatever the
/// agreement: from any other caller the update is refused with
/// `UnauthorizedOracle`.
pub proof fn lemma_update_needs_oracle(
    ledger: LedgerView,
    caller: Seq<u8>,
    escrow_id: Seq<char>,
    new_status: EscrowStatus,
)
    requires
        ledger.master matches Some(master) && caller != master.authority@,
    ensures
        update_outcome_for(ledger, caller, escrow_id, new_status) == Err::<int, ErrorCode>(
            ErrorCode::UnauthorizedOracle,
        ),
{
}

/// Decides the transfer that `ctx` asks for. Refused with `RecordNotFound`
/// where the agreement has no certificate, with `EscrowNotCompleted` while
/// the escrow is active, with `NftStillSoulbound` while the certificate is
/// locked, and with `UnauthorizedOwner` where the caller does not control the
/// unit. On success the result orders exactly one unit from the caller to
/// the receiver. The store is not changed.
pub fn transfer_nft(ledger: &Ledger, ctx: &TransferNft) -> (res: Result<TransferOrder, ErrorCode>)
    requires
        ledger.wf(),
    ensures
        match certificate_address(ledger@, ctx.escrow_id@) {
            None => res == Err::<TransferOrder, ErrorCode>(ErrorCode::RecordNotFound),
            Some((address, _)) => match ledger@.transfer_outcome(
                address,
                ctx.owner@,
                ctx.from_token_account,
                ctx.mint_account@,
            ) {
                Ok(_) => res == Ok::<TransferOrder, ErrorCode>(
                    TransferOrder { from: ctx.owner, to: ctx.to_authority, units: 1 },
                ),
                Err(e) => res == Err::<TransferOrder, ErrorCode>(e),
            },
        },
{
    let seeds = escrow_seeds(ctx.escrow_id.as_str());
    match derive_address(&seeds, &ledger.program_id) {
        Ok(pair) => ledger.transfer_at(
            &pair.0,
            &ctx.owner,
            &ctx.from_token_account,
            &ctx.mint_account,
            &ctx.to_authority,
        ),
        Err(_) => Err(ErrorCode::RecordNotFound),
    }
}

/// Reads the certificate of the agreement of `ctx`. Anyone may. Refused with
/// `RecordNotFound` where the agreement has no certificate.
pub fn get_escrow_data(ledger: &Ledger, ctx: &GetEscrowData) -> (res: Result<EscrowData, ErrorCode>)
    requires
        ledger.wf(),
    ensures
        match certificate_address(ledger@, ctx.escrow_id@) {
            None => res == Err::<EscrowData, ErrorCode>(ErrorCode::RecordNotFound),
            Some((address, _)) => match ledger@.position(address) {
                Some(i) => res matches Ok(data) && data@ == ledger@.slots[i].nft.escrow_data,
                None => res == Err::<EscrowData, ErrorCode>(ErrorCode::RecordNotFound),
            },
        },
{
    let seeds = escrow_seeds(ctx.escrow_id.as_str());
    match derive_address(&seeds, &ledger.program_id) {
        Ok(pair) => ledger.read(&pair.0),
        Err(_) => Err(ErrorCode::RecordNotFound),
    }
}

/// What the caller of a transfer is told once the token ledger has answered:
/// its refusal is passed on as `TransferFailure`.
pub fn transfer_result(accepted: bool) -> (res: Result<(), ErrorCode>)
    ensures
        accepted ==> res is Ok,
        !accepted ==> res == Err::<(), ErrorCode>(ErrorCode::TransferFailure),
{
    if accepted {
        Ok(())
    } else {
        Err(ErrorCode::TransferFailure)
    }
}

/// What is reported once the metadata service has answered. Its refusal is
/// reported as `SyncFailure` and fails no call: the record is already
/// written and stays.
pub fn publish_report(accepted: bool) -> (report: Option<ErrorCode>)
    ensures
        accepted ==> report is None,
        !accepted ==> report == Some(ErrorCode::SyncFailure),
{
    if accepted {
        None
    } else {
        Some(ErrorCode::SyncFailure)
    }
}

} // verus!
