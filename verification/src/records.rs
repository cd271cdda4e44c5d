//! The records and the status state machine of a certificate.

use vstd::prelude::*;
use vstd::utf8::encode_utf8;
use crate::identity::Identity;

verus! {

/// Longest agreement identifier, in bytes.
pub const MAX_ESCROW_ID_BYTES: usize = 64;

/// Longest description, in bytes.
pub const MAX_DESCRIPTION_BYTES: usize = 512;

/// Highest completion score.
pub const MAX_COMPLETION_SCORE: u8 = 100;

/// Where the escrow stands. `Active` is the initial state; `Released` and
/// `Disputed` are terminal.
#[derive(Clone, Copy, Debug, PartialEq, Eq, Structural)]
pub enum EscrowStatus {
    Active,
    Released,
    Disputed,
}

/// Why a call was refused.
#[derive(Clone, Copy, Debug, PartialEq, Eq, Structural)]
pub enum ErrorCode {
    UnauthorizedOracle,
    NftStillSoulbound,
    EscrowNotCompleted,
    UnauthorizedOwner,
    RecordAlreadyExists,
    RecordNotFound,
    InvalidStatusTransition,
    AddressSpaceExhausted,
    SyncFailure,
    TransferFailure,
}

/// What an error says.
pub open spec fn message_text(code: ErrorCode) -> Seq<char> {
    match code {
        ErrorCode::UnauthorizedOracle => "Unauthorized oracle"@,
        ErrorCode::NftStillSoulbound => "NFT is still soulbound and cannot be transferred"@,
        ErrorCode::EscrowNotCompleted => "Escrow is not completed"@,
        ErrorCode::UnauthorizedOwner => "Caller does not control the NFT"@,
        ErrorCode::RecordAlreadyExists => "Record already exists"@,
        ErrorCode::RecordNotFound => "Record not found"@,
        ErrorCode::InvalidStatusTransition => "Escrow status can no longer change"@,
        ErrorCode::AddressSpaceExhausted => "No address can be derived"@,
        ErrorCode::SyncFailure => "Metadata could not be published"@,
        ErrorCode::TransferFailure => "Token transfer was rejected"@,
    }
}

impl ErrorCode {
    /// The message of this error.
    pub fn message(&self) -> (text: &'static str)
        ensures
            text@ == message_text(*self),
    {
        match self {
            ErrorCode::UnauthorizedOracle => "Unauthorized oracle",
            ErrorCode::NftStillSoulbound => "NFT is still soulbound and cannot be transferred",
            ErrorCode::EscrowNotCompleted => "Escrow is not completed",
            ErrorCode::UnauthorizedOwner => "Caller does not control the NFT",
            ErrorCode::RecordAlreadyExists => "Record already exists",
            ErrorCode::RecordNotFound => "Record not found",
            ErrorCode::InvalidStatusTransition => "Escrow status can no longer change",
            ErrorCode::AddressSpaceExhausted => "No address can be derived",
            ErrorCode::SyncFailure => "Metadata could not be published",
            ErrorCode::TransferFailure => "Token transfer was rejected",
        }
    }
}

/// The transition table: `Active` may move to `Released` or `Disputed`, and
/// nothing else is allowed.
pub open spec fn transition_allowed(from: EscrowStatus, to: EscrowStatus) -> bool {
    from == EscrowStatus::Active && (to == EscrowStatus::Released || to == EscrowStatus::Disputed)
}

impl EscrowStatus {
    /// The escrow has resolved: `Released` or `Disputed`.
    pub open spec fn completed(self) -> bool {
        self == EscrowStatus::Released || self == EscrowStatus::Disputed
    }

    /// Whether the escrow has resolved.
    pub fn is_completed(&self) -> (done: bool)
        ensures
            done == self.completed(),
            done == (*self != EscrowStatus::Active),
    {
        match self {
            EscrowStatus::Active => false,
            EscrowStatus::Released => true,
            EscrowStatus::Disputed => true,
        }
    }

    /// Whether the table allows the move from `self` to `to`.
    pub fn can_become(&self, to: EscrowStatus) -> (allowed: bool)
        ensures
            allowed == transition_allowed(*self, to),
    {
        match self {
            EscrowStatus::Active => to.is_completed(),
            EscrowStatus::Released => false,
            EscrowStatus::Disputed => false,
        }
    }
}

/// The singleton configuration record.
#[derive(Clone, Copy, Debug, PartialEq, Eq)]
pub struct Master {
    pub authority: Identity,
    pub bump: u8,
    pub total_minted: u64,
}

impl Master {
    /// Bytes set aside for the configuration record.
    pub const SIZE: usize = 8 + 32 + 1 + 8;

    /// A fresh configuration: `authority` is the oracle and nothing has been
    /// issued.
    pub fn new(authority: Identity, bump: u8) -> (master: Master)
        ensures
            master.authority == authority,
            master.bump == bump,
            master.total_minted == 0,
    {
        Master { authority, bump, total_minted: 0 }
    }

    /// Admits the registered oracle and nobody else.
    pub fn require_oracle(&self, caller: &Identity) -> (res: Result<(), ErrorCode>)
        ensures
            res is Ok <==> caller@ == self.authority@,
            res is Err ==> res == Err::<(), ErrorCode>(ErrorCode::UnauthorizedOracle),
    {
        if caller.same(&self.authority) {
            Ok(())
        } else {
            Err(ErrorCode::UnauthorizedOracle)
        }
    }

    /// Counts one more certificate.
    pub fn record_mint(&mut self)
        requires
            old(self).total_minted < u64::MAX,
        ensures
            final(self).total_minted == old(self).total_minted + 1,
            final(self).authority == old(self).authority,
            final(self).bump == old(self).bump,
    {
        self.total_minted = self.total_minted + 1;
    }
}

/// What a certificate says of its agreement.
#[derive(Debug, PartialEq, Eq)]
pub struct EscrowData {
    pub escrow_id: String,
    pub client_wallet: Identity,
    pub freelancer_wallet: Identity,
    pub amount: u64,
    pub status: EscrowStatus,
    pub completion_score: Option<u8>,
    pub timestamp: i64,
    pub project_description: String,
}

/// The mathematical value of an [`EscrowData`].
pub ghost struct EscrowDataView {
    pub escrow_id: Seq<char>,
    pub client_wallet: Seq<u8>,
    pub freelancer_wallet: Seq<u8>,
    pub amount: u64,
    pub status: EscrowStatus,
    pub completion_score: Option<u8>,
    pub timestamp: i64,
    pub project_description: Seq<char>,
}

impl View for EscrowData {
    type V = EscrowDataView;

    open spec fn view(&self) -> EscrowDataView {
        EscrowDataView {
            escrow_id: self.escrow_id@,
            client_wallet: self.client_wallet@,
            freelancer_wallet: self.freelancer_wallet@,
            amount: self.amount,
            status: self.status,
            completion_score: self.completion_score,
            timestamp: self.timestamp,
            project_description: self.project_description@,
        }
    }
}

impl Clone for EscrowData {
    fn clone(&self) -> (copy: EscrowData)
        ensures
            copy@ == self@,
    {
        EscrowData {
            escrow_id: self.escrow_id.clone(),
            client_wallet: self.client_wallet,
            freelancer_wallet: self.freelancer_wallet,
            amount: self.amount,
            status: self.status,
            completion_score: self.completion_score,
            timestamp: self.timestamp,
            project_description: self.project_description.clone(),
        }
    }
}

/// A certificate record: the agreement's data, the soulbound flag derived
/// from its status, and the bump of the record's address.
#[derive(Debug, PartialEq, Eq)]
pub struct EscrowNft {
    pub escrow_data: EscrowData,
    pub is_soulbound: bool,
    pub bump: u8,
}

/// The mathematical value of an [`EscrowNft`].
pub ghost struct EscrowNftView {
    pub escrow_data: EscrowDataView,
    pub is_soulbound: bool,
    pub bump: u8,
}

impl View for EscrowNft {
    type V = EscrowNftView;

    open spec fn view(&self) -> EscrowNftView {
        EscrowNftView {
            escrow_data: self.escrow_data@,
            is_soulbound: self.is_soulbound,
            bump: self.bump,
        }
    }
}

impl Clone for EscrowNft {
    fn clone(&self) -> (copy: EscrowNft)
        ensures
            copy@ == self@,
    {
        EscrowNft {
            escrow_data: self.escrow_data.clone(),
            is_soulbound: self.is_soulbound,
            bump: self.bump,
        }
    }
}

/// The value of a freshly issued certificate.
pub open spec fn issued(
    escrow_id: Seq<char>,
    client_wallet: Seq<u8>,
    freelancer_wallet: Seq<u8>,
    amount: u64,
    project_description: Seq<char>,
    timestamp: i64,
    bump: u8,
) -> EscrowNftView {
    EscrowNftView {
        escrow_data: EscrowDataView {
            escrow_id,
            client_wallet,
            freelancer_wallet,
            amount,
            status: EscrowStatus::Active,
            completion_score: None,
            timestamp,
            project_description,
        },
        is_soulbound: true,
        bump,
    }
}

/// The value of a certificate after the oracle reported `new_status` with
/// `completion_score`: only the status, the score and the flag change.
pub open spec fn transitioned(
    before: EscrowNftView,
    new_status: EscrowStatus,
    completion_score: Option<u8>,
) -> EscrowNftView {
    EscrowNftView {
        escrow_data: EscrowDataView {
            status: new_status,
            completion_score,
            ..before.escrow_data
        },
        is_soulbound: new_status == EscrowStatus::Active,
        ..before
    }
}

impl EscrowNftView {
    /// The invariant of a certificate: it is soulbound exactly while the
    /// escrow is active, an active one has no score, a score is at most 100,
    /// and the two texts keep to their bounds.
    pub open spec fn wf(self) -> bool {
        &&& self.is_soulbound == (self.escrow_data.status == EscrowStatus::Active)
        &&& self.escrow_data.status == EscrowStatus::Active ==> self.escrow_data.completion_score is None
        &&& self.escrow_data.completion_score matches Some(score) ==> score <= MAX_COMPLETION_SCORE
        &&& encode_utf8(self.escrow_data.escrow_id).len() <= MAX_ESCROW_ID_BYTES
        &&& encode_utf8(self.escrow_data.project_description).len() <= MAX_DESCRIPTION_BYTES
    }

    /// The holder may pass the certificate on: it is unlocked and the escrow
    /// has resolved.
    pub open spec fn transferable(self) -> bool {
        !self.is_soulbound && self.escrow_data.status.completed()
    }
}

impl EscrowData {
    /// Bytes set aside for the data of a certificate.
    pub const SIZE: usize = 4 + 256 + 32 + 32 + 8 + 1 + 1 + 8 + 4 + 512;
}

impl EscrowNft {
    /// Bytes set aside for a certificate record.
    pub const SIZE: usize = 8 + EscrowData::SIZE + 1 + 1;

    /// See [`EscrowNftView::wf`].
    pub open spec fn wf(&self) -> bool {
        self@.wf()
    }

    /// Whether this certificate keeps its invariant.
    pub fn is_well_formed(&self) -> (sound: bool)
        ensures
            sound == self.wf(),
    {
        let flag_fits = self.is_soulbound == !self.escrow_data.status.is_completed();
        let score_fits = match self.escrow_data.completion_score {
            Some(score) => self.escrow_data.status.is_completed() && score <= MAX_COMPLETION_SCORE,
            None => true,
        };
        flag_fits && score_fits && self.escrow_data.escrow_id.as_str().as_bytes().len() <= MAX_ESCROW_ID_BYTES
            && self.escrow_data.project_description.as_str().as_bytes().len() <= MAX_DESCRIPTION_BYTES
    }

    /// Issues the certificate of an agreement: active, soulbound, no score.
    pub fn issue(
        escrow_id: String,
        client_wallet: Identity,
        freelancer_wallet: Identity,
        amount: u64,
        project_description: String,
        timestamp: i64,
        bump: u8,
    ) -> (nft: EscrowNft)
        requires
            encode_utf8(escrow_id@).len() <= MAX_ESCROW_ID_BYTES,
            encode_utf8(project_description@).len() <= MAX_DESCRIPTION_BYTES,
        ensures
            nft@ == issued(
                escrow_id@,
                client_wallet@,
                freelancer_wallet@,
                amount,
                project_description@,
                timestamp,
                bump,
            ),
            nft.wf(),
    {
        EscrowNft {
            escrow_data: EscrowData {
                escrow_id,
                client_wallet,
                freelancer_wallet,
                amount,
                status: EscrowStatus::Active,
                completion_score: None,
                timestamp,
                project_description,
            },
            is_soulbound: true,
            bump,
        }
    }

    /// Records the outcome that the oracle reports. Allowed once, from
    /// `Active` to a terminal status; any other move is refused and leaves
    /// the certificate as it was.
    pub fn transition_status(
        &mut self,
        new_status: EscrowStatus,
        completion_score: Option<u8>,
    ) -> (res: Result<(), ErrorCode>)
        requires
            completion_score matches Some(score) ==> score <= MAX_COMPLETION_SCORE,
        ensures
            res is Ok <==> transition_allowed(old(self)@.escrow_data.status, new_status),
            res is Ok ==> final(self)@ == transitioned(old(self)@, new_status, completion_score),
            res is Ok ==> !final(self).is_soulbound,
            res is Err ==> res == Err::<(), ErrorCode>(ErrorCode::InvalidStatusTransition),
            res is Err ==> *final(self) == *old(self),
            old(self).wf() ==> final(self).wf(),
    {
        if !self.escrow_data.status.can_become(new_status) {
            return Err(ErrorCode::InvalidStatusTransition);
        }
        self.escrow_data.status = new_status;
        self.escrow_data.completion_score = completion_score;
        self.is_soulbound = !new_status.is_completed();
        Ok(())
    }

    /// Whether the holder may pass the certificate on.
    pub fn authorize_transfer(&self) -> (eligible: bool)
        ensures
            eligible == self@.transferable(),
            self.wf() ==> eligible == self.escrow_data.status.completed(),
    {
        !self.is_soulbound && self.escrow_data.status.is_completed()
    }

    /// Refuses a transfer while the escrow is active (`EscrowNotCompleted`)
    /// and, that aside, while the certificate is locked (`NftStillSoulbound`).
    pub fn check_transfer(&self) -> (res: Result<(), ErrorCode>)
        ensures
            res is Ok <==> self@.transferable(),
            res == Err::<(), ErrorCode>(ErrorCode::EscrowNotCompleted)
                <==> self.escrow_data.status == EscrowStatus::Active,
            res == Err::<(), ErrorCode>(ErrorCode::NftStillSoulbound)
                <==> self.escrow_data.status != EscrowStatus::Active && self.is_soulbound,
    {
        if !self.escrow_data.status.is_completed() {
            Err(ErrorCode::EscrowNotCompleted)
        } else if self.is_soulbound {
            Err(ErrorCode::NftStillSoulbound)
        } else {
            Ok(())
        }
    }
}

/// A freshly issued certificate is active, soulbound and without a score,
/// and it is well formed where its two texts keep to their bounds.
pub proof fn lemma_issued_is_active(
    escrow_id: Seq<char>,
    client_wallet: Seq<u8>,
    freelancer_wallet: Seq<u8>,
    amount: u64,
    project_description: Seq<char>,
    timestamp: i64,
    bump: u8,
)
    ensures
        ({
            let nft = issued(
                escrow_id,
                client_wallet,
                freelancer_wallet,
                amount,
                project_description,
                timestamp,
                bump,
            );
            &&& nft.escrow_data.status == EscrowStatus::Active
            &&& nft.is_soulbound
            &&& nft.escrow_data.completion_score is None
            &&& !nft.transferable()
            &&& (encode_utf8(escrow_id).len() <= MAX_ESCROW_ID_BYTES && encode_utf8(project_description).len()
                <= MAX_DESCRIPTION_BYTES ==> nft.wf())
        }),
{
}

/// A well-formed certificate may be passed on exactly when its escrow has
/// resolved, and it is unlocked in exactly those states: never while
/// `Active`, always once `Released` or `Disputed`.
pub proof fn lemma_transferable_iff_completed(nft: EscrowNftView)
    requires
        nft.wf(),
    ensures
        nft.transferable() == nft.escrow_data.status.completed(),
        !nft.is_soulbound == nft.escrow_data.status.completed(),
        nft.escrow_data.status == EscrowStatus::Active ==> !nft.transferable(),
        nft.escrow_data.status == EscrowStatus::Released ==> nft.transferable(),
        nft.escrow_data.status == EscrowStatus::Disputed ==> nft.transferable(),
{
}

/// An allowed transition leaves a well-formed certificate well formed,
/// unlocked and transferable, and no further transition is allowed from
/// where it leads.
pub proof fn lemma_transition_is_final(
    before: EscrowNftView,
    new_status: EscrowStatus,
    completion_score: Option<u8>,
    later: EscrowStatus,
)
    requires
        before.wf(),
        transition_allowed(before.escrow_data.status, new_status),
        completion_score matches Some(score) ==> score <= MAX_COMPLETION_SCORE,
    ensures
        transitioned(before, new_status, completion_score).wf(),
        transitioned(before, new_status, completion_score).transferable(),
        !transition_allowed(new_status, later),
{
}

} // verus!
