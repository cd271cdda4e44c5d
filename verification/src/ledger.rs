//! The record store: the configuration record and the certificates, each
//! certificate at the address derived from its agreement's identifier.

use vstd::prelude::*;
use crate::address::{derive_address, escrow_seeds, escrow_seeds_spec, program_address};
use crate::identity::Identity;
use crate::metadata::{create_nft_metadata, created_metadata, update_nft_metadata, updated_metadata, NftMetadata};
use crate::records::{
    issued, transition_allowed, transitioned, ErrorCode, EscrowData, EscrowNft, EscrowNftView,
    EscrowStatus, Master, MAX_COMPLETION_SCORE, MAX_DESCRIPTION_BYTES, MAX_ESCROW_ID_BYTES,
};
use vstd::utf8::encode_utf8;

verus! {

/// A token account as the token ledger reports it: which mint its units
/// belong to, who controls it, and how many units it holds.
#[derive(Clone, Copy, Debug, PartialEq, Eq)]
pub struct TokenAccount {
    pub mint: Identity,
    pub owner: Identity,
    pub amount: u64,
}

/// What the token ledger is asked to do once a transfer is authorized.
#[derive(Clone, Copy, Debug, PartialEq, Eq)]
pub struct TransferOrder {
    pub from: Identity,
    pub to: Identity,
    pub units: u64,
}

/// A certificate and the address it lives at.
#[derive(Debug, PartialEq, Eq)]
pub struct CertificateSlot {
    pub address: Identity,
    pub nft: EscrowNft,
}

/// The mathematical value of a [`CertificateSlot`].
pub ghost struct SlotView {
    pub address: Seq<u8>,
    pub nft: EscrowNftView,
}

impl View for CertificateSlot {
    type V = SlotView;

    open spec fn view(&self) -> SlotView {
        SlotView { address: self.address@, nft: self.nft@ }
    }
}

/// All records of one program.
#[derive(Debug)]
pub struct Ledger {
    pub program_id: Identity,
    pub master: Option<Master>,
    pub slots: Vec<CertificateSlot>,
}

/// The mathematical value of a [`Ledger`].
pub ghost struct LedgerView {
    pub program_id: Seq<u8>,
    pub master: Option<Master>,
    pub slots: Seq<SlotView>,
}

impl View for Ledger {
    type V = LedgerView;

    open spec fn view(&self) -> LedgerView {
        LedgerView {
            program_id: self.program_id@,
            master: self.master,
            slots: Seq::new(self.slots@.len(), |i: int| self.slots@[i]@),
        }
    }
}

impl LedgerView {
    /// Some certificate lives at `address`.
    pub open spec fn occupied(self, address: Seq<u8>) -> bool {
        exists|i: int| 0 <= i < self.slots.len() && (#[trigger] self.slots[i]).address == address
    }

    /// The place of the certificate at `address`, if there is one.
    pub open spec fn position(self, address: Seq<u8>) -> Option<int> {
        if self.occupied(address) {
            Some(choose|i: int| 0 <= i < self.slots.len() && (#[trigger] self.slots[i]).address == address)
        } else {
            None
        }
    }

    /// Some certificate belongs to the agreement `escrow_id`.
    pub open spec fn holds(self, escrow_id: Seq<char>) -> bool {
        exists|i: int|
            0 <= i < self.slots.len() && (#[trigger] self.slots[i]).nft.escrow_data.escrow_id == escrow_id
    }

    /// The invariant of the store: every certificate is well formed and lives
    /// at the address derived from its agreement's identifier, and no two
    /// certificates share an address.
    pub open spec fn wf(self) -> bool {
        &&& forall|i: int|
            0 <= i < self.slots.len() ==> {
                &&& (#[trigger] self.slots[i]).nft.wf()
                &&& program_address(
                    escrow_seeds_spec(self.slots[i].nft.escrow_data.escrow_id),
                    self.program_id,
                ) == Some((self.slots[i].address, self.slots[i].nft.bump))
            }
        &&& forall|i: int, j: int|
            0 <= i < j < self.slots.len() ==> (#[trigger] self.slots[i]).address != (
            #[trigger] self.slots[j]).address
    }

    /// The store after a certificate was issued at `address`: the counter
    /// has grown by one and the certificate stands last.
    pub open spec fn minted(self, address: Seq<u8>, nft: EscrowNftView) -> LedgerView {
        LedgerView {
            master: Some(
                Master {
                    total_minted: (self.master->0.total_minted + 1) as u64,
                    ..self.master->0
                },
            ),
            slots: self.slots.push(SlotView { address, nft }),
            ..self
        }
    }

    /// The store after the certificate at place `i` moved to `new_status`
    /// with `completion_score`: nothing else has changed.
    pub open spec fn updated(self, i: int, new_status: EscrowStatus, completion_score: Option<u8>) -> LedgerView {
        LedgerView {
            slots: self.slots.update(
                i,
                SlotView { nft: transitioned(self.slots[i].nft, new_status, completion_score), ..self.slots[i] },
            ),
            ..self
        }
    }

    /// Whether `oracle` may change the store: the error, if not.
    pub open spec fn oracle_guard(self, oracle: Seq<u8>) -> Result<(), ErrorCode> {
        match self.master {
            None => Err(ErrorCode::RecordNotFound),
            Some(master) => if oracle == master.authority@ {
                Ok(())
            } else {
                Err(ErrorCode::UnauthorizedOracle)
            },
        }
    }

    /// How a minting call ends: the error, or nothing where the certificate
    /// is created at `address`.
    pub open spec fn mint_outcome(self, oracle: Seq<u8>, address: Seq<u8>) -> Result<(), ErrorCode> {
        if self.occupied(address) {
            Err(ErrorCode::RecordAlreadyExists)
        } else {
            match self.master {
                None => Err(ErrorCode::RecordNotFound),
                Some(master) => if oracle == master.authority@ {
                    Ok(())
                } else {
                    Err(ErrorCode::UnauthorizedOracle)
                },
            }
        }
    }

    /// How a status update ends: the error, or the place of the certificate
    /// that changes.
    pub open spec fn update_outcome(
        self,
        oracle: Seq<u8>,
        address: Seq<u8>,
        new_status: EscrowStatus,
    ) -> Result<int, ErrorCode> {
        match self.master {
            None => Err(ErrorCode::RecordNotFound),
            Some(master) => if oracle != master.authority@ {
                Err(ErrorCode::UnauthorizedOracle)
            } else {
                match self.position(address) {
                    None => Err(ErrorCode::RecordNotFound),
                    Some(i) => if transition_allowed(self.slots[i].nft.escrow_data.status, new_status) {
                        Ok(i)
                    } else {
                        Err(ErrorCode::InvalidStatusTransition)
                    },
                }
            },
        }
    }

    /// How a transfer request ends: the error, or the place of the
    /// certificate whose unit may move.
    pub open spec fn transfer_outcome(
        self,
        address: Seq<u8>,
        owner: Seq<u8>,
        from_token_account: TokenAccount,
        mint_account: Seq<u8>,
    ) -> Result<int, ErrorCode> {
        match self.position(address) {
            None => Err(ErrorCode::RecordNotFound),
            Some(i) => match transfer_refusal(self.slots[i].nft, owner, from_token_account, mint_account) {
                Some(e) => Err(e),
                None => Ok(i),
            },
        }
    }
}

/// `caller` controls the unit of `mint_account`: the token account holds
/// units of that mint and is `caller`'s.
pub open spec fn controls_unit(caller: Seq<u8>, from_token_account: TokenAccount, mint_account: Seq<u8>) -> bool {
    from_token_account.owner@ == caller && from_token_account.mint@ == mint_account
}

/// Why the unit of `nft` may not move at `owner`'s request, if it may not:
/// the escrow is still active, or else the certificate is still locked, or
/// else `owner` does not control the unit.
pub open spec fn transfer_refusal(
    nft: EscrowNftView,
    owner: Seq<u8>,
    from_token_account: TokenAccount,
    mint_account: Seq<u8>,
) -> Option<ErrorCode> {
    if nft.escrow_data.status == EscrowStatus::Active {
        Some(ErrorCode::EscrowNotCompleted)
    } else if nft.is_soulbound {
        Some(ErrorCode::NftStillSoulbound)
    } else if !controls_unit(owner, from_token_account, mint_account) {
        Some(ErrorCode::UnauthorizedOwner)
    } else {
        None
    }
}

/// Admits the holder of the certificate's unit and nobody else.
pub fn require_owner(caller: &Identity, from_token_account: &TokenAccount, mint_account: &Identity) -> (res: Result<
    (),
    ErrorCode,
>)
    ensures
        res is Ok <==> controls_unit(caller@, *from_token_account, mint_account@),
        res is Err ==> res == Err::<(), ErrorCode>(ErrorCode::UnauthorizedOwner),
{
    if from_token_account.owner.same(caller) && from_token_account.mint.same(mint_account) {
        Ok(())
    } else {
        Err(ErrorCode::UnauthorizedOwner)
    }
}

/// Decides whether the unit of `nft` may move from `owner` to
/// `to_authority`, and orders the move of exactly one unit where it may.
pub fn order_transfer(
    nft: &EscrowNft,
    owner: &Identity,
    from_token_account: &TokenAccount,
    mint_account: &Identity,
    to_authority: &Identity,
) -> (res: Result<TransferOrder, ErrorCode>)
    ensures
        match transfer_refusal(nft@, owner@, *from_token_account, mint_account@) {
            Some(e) => res == Err::<TransferOrder, ErrorCode>(e),
            None => res == Ok::<TransferOrder, ErrorCode>(
                TransferOrder { from: *owner, to: *to_authority, units: 1 },
            ),
        },
{
    match nft.check_transfer() {
        Err(e) => {
            return Err(e);
        },
        Ok(()) => {},
    }
    if require_owner(owner, from_token_account, mint_account).is_err() {
        return Err(ErrorCode::UnauthorizedOwner);
    }
    Ok(TransferOrder { from: *owner, to: *to_authority, units: 1 })
}

impl Ledger {
    /// See [`LedgerView::wf`].
    pub open spec fn wf(&self) -> bool {
        self@.wf()
    }

    /// The empty store of the program `program_id`.
    pub fn new(program_id: Identity) -> (ledger: Ledger)
        ensures
            ledger@ == (LedgerView { program_id: program_id@, master: None, slots: Seq::empty() }),
            ledger.wf(),
    {
        let ledger = Ledger { program_id, master: None, slots: Vec::new() };
        proof {
            assert(ledger@.slots =~= Seq::empty());
        }
        ledger
    }

    /// The number of certificates in the store.
    pub fn len(&self) -> (n: usize)
        ensures
            n == self@.slots.len(),
    {
        self.slots.len()
    }

    /// Looks up the certificate at `address`.
    pub fn find(&self, address: &Identity) -> (found: Option<usize>)
        ensures
            found matches Some(i) ==> i < self@.slots.len() && self@.slots[i as int].address == address@,
            found is Some <==> self@.occupied(address@),
            self.wf() ==> (found matches Some(i) ==> self@.position(address@) == Some(i as int)),
            found is None ==> self@.position(address@) is None,
    {
        let mut i: usize = 0;
        while i < self.slots.len()
            invariant
                i <= self.slots.len(),
                forall|k: int| 0 <= k < i ==> (#[trigger] self@.slots[k]).address != address@,
            decreases self.slots.len() - i,
        {
            if self.slots[i].address.same(address) {
                assert(self@.slots[i as int].address == address@);
                return Some(i);
            }
            i += 1;
        }
        None
    }

    /// Whether the certificate at place `i` is well formed and lives at the
    /// address derived from its identifier.
    pub fn slot_is_sound(&self, i: usize) -> (sound: bool)
        requires
            i < self.slots.len(),
        ensures
            sound == (self@.slots[i as int].nft.wf() && program_address(
                escrow_seeds_spec(self@.slots[i as int].nft.escrow_data.escrow_id),
                self.program_id@,
            ) == Some((self@.slots[i as int].address, self@.slots[i as int].nft.bump))),
    {
        let slot = &self.slots[i];
        if !slot.nft.is_well_formed() {
            return false;
        }
        let seeds = escrow_seeds(slot.nft.escrow_data.escrow_id.as_str());
        match derive_address(&seeds, &self.program_id) {
            Ok(pair) => pair.0.same(&slot.address) && pair.1 == slot.nft.bump,
            Err(_) => false,
        }
    }

    /// Whether the store keeps its invariant, found by deriving every
    /// certificate's address anew and comparing the addresses in pairs.
    pub fn audit(&self) -> (sound: bool)
        ensures
            sound == self.wf(),
    {
        let n = self.slots.len();
        let mut i: usize = 0;
        while i < n
            invariant
                n == self.slots.len(),
                i <= n,
                forall|k: int|
                    0 <= k < i ==> {
                        &&& (#[trigger] self@.slots[k]).nft.wf()
                        &&& program_address(
                            escrow_seeds_spec(self@.slots[k].nft.escrow_data.escrow_id),
                            self@.program_id,
                        ) == Some((self@.slots[k].address, self@.slots[k].nft.bump))
                    },
                forall|k: int, j: int|
                    0 <= k < j < i ==> (#[trigger] self@.slots[k]).address != (#[trigger] self@.slots[j]).address,
            decreases n - i,
        {
            if !self.slot_is_sound(i) {
                return false;
            }
            let mut k: usize = 0;
            while k < i
                invariant
                    n == self.slots.len(),
                    k <= i < n,
                    forall|m: int| 0 <= m < k ==> (#[trigger] self@.slots[m]).address != self@.slots[i as int].address,
                decreases i - k,
            {
                if self.slots[k].address.same(&self.slots[i].address) {
                    assert(self@.slots[k as int].address == self@.slots[i as int].address);
                    return false;
                }
                k += 1;
            }
            i += 1;
        }
        true
    }

    /// Creates the configuration record with `authority` as the oracle, once.
    pub fn initialize_at(&mut self, authority: Identity, bump: u8) -> (res: Result<(), ErrorCode>)
        ensures
            res is Ok <==> old(self).master is None,
            res is Ok ==> final(self)@ == (LedgerView {
                master: Some(Master { authority, bump, total_minted: 0 }),
                ..old(self)@
            }),
            res is Err ==> res == Err::<(), ErrorCode>(ErrorCode::RecordAlreadyExists),
            res is Err ==> final(self)@ == old(self)@,
    {
        if self.master.is_some() {
            return Err(ErrorCode::RecordAlreadyExists);
        }
        self.master = Some(Master::new(authority, bump));
        Ok(())
    }

    /// Reads the certificate at `address`. Anyone may.
    pub fn read(&self, address: &Identity) -> (res: Result<EscrowData, ErrorCode>)
        requires
            self.wf(),
        ensures
            match self@.position(address@) {
                Some(i) => res matches Ok(data) && data@ == self@.slots[i].nft.escrow_data,
                None => res == Err::<EscrowData, ErrorCode>(ErrorCode::RecordNotFound),
            },
    {
        match self.find(address) {
            Some(i) => Ok(self.slots[i].nft.escrow_data.clone()),
            None => Err(ErrorCode::RecordNotFound),
        }
    }

    /// Issues the certificate of `escrow_id` at `address`, the address derived
    /// from that identifier. Refused where the address is taken, where the
    /// store has no configuration, and where `oracle` is not the registered
    /// oracle; a refusal changes nothing. On success the certificate is
    /// active, soulbound and without a score, the counter has grown by one,
    /// and the result is the metadata to publish.
    pub fn mint_at(
        &mut self,
        oracle: &Identity,
        address: Identity,
        bump: u8,
        escrow_id: String,
        client_wallet: Identity,
        freelancer_wallet: Identity,
        amount: u64,
        project_description: String,
        timestamp: i64,
    ) -> (res: Result<NftMetadata, ErrorCode>)
        requires
            old(self).wf(),
            program_address(escrow_seeds_spec(escrow_id@), old(self).program_id@) == Some((address@, bump)),
            encode_utf8(escrow_id@).len() <= MAX_ESCROW_ID_BYTES,
            encode_utf8(project_description@).len() <= MAX_DESCRIPTION_BYTES,
            old(self).master matches Some(master) ==> master.total_minted < u64::MAX,
        ensures
            final(self).wf(),
            match old(self)@.mint_outcome(oracle@, address@) {
                Ok(()) => {
                    &&& res matches Ok(data)
                    &&& data@ == created_metadata(escrow_id@, oracle@)
                    &&& final(self)@ == old(self)@.minted(
                        address@,
                        issued(
                            escrow_id@,
                            client_wallet@,
                            freelancer_wallet@,
                            amount,
                            project_description@,
                            timestamp,
                            bump,
                        ),
                    )
                },
                Err(e) => res == Err::<NftMetadata, ErrorCode>(e) && final(self)@ == old(self)@,
            },
            old(self)@.holds(escrow_id@) ==> res == Err::<NftMetadata, ErrorCode>(
                ErrorCode::RecordAlreadyExists,
            ),
    {
        proof {
            lemma_held_is_occupied(self@, escrow_id@, address@, bump);
        }
        if self.find(&address).is_some() {
            return Err(ErrorCode::RecordAlreadyExists);
        }
        let mut master = match self.master {
            None => {
                return Err(ErrorCode::RecordNotFound);
            },
            Some(master) => master,
        };
        if master.require_oracle(oracle).is_err() {
            return Err(ErrorCode::UnauthorizedOracle);
        }
        let data = create_nft_metadata(escrow_id.as_str(), *oracle);
        let nft = EscrowNft::issue(
            escrow_id,
            client_wallet,
            freelancer_wallet,
            amount,
            project_description,
            timestamp,
            bump,
        );
        master.record_mint();
        self.master = Some(master);
        self.slots.push(CertificateSlot { address, nft });
        proof {
            assert(final(self)@.slots =~= old(self)@.slots.push(
                SlotView { address: address@, nft: nft@ },
            ));
            assert forall|i: int, j: int| 0 <= i < j < self@.slots.len() implies (
            #[trigger] self@.slots[i]).address != (#[trigger] self@.slots[j]).address by {
                if j == self@.slots.len() - 1 {
                    assert(old(self)@.slots[i].address != address@);
                } else {
                    assert(old(self)@.slots[i].address != old(self)@.slots[j].address);
                }
            }
        }
        Ok(data)
    }

    /// Records the outcome that the oracle reports for the certificate at
    /// `address`. Refused where the store has no configuration, where
    /// `oracle` is not the registered oracle, where no certificate lives
    /// there, and where the certificate is no longer active; a refusal
    /// changes nothing. On success only that certificate's status, score and
    /// flag change, and the result is the metadata to publish.
    pub fn update_at(
        &mut self,
        oracle: &Identity,
        address: &Identity,
        new_status: EscrowStatus,
        completion_score: Option<u8>,
    ) -> (res: Result<NftMetadata, ErrorCode>)
        requires
            old(self).wf(),
            completion_score matches Some(score) ==> score <= MAX_COMPLETION_SCORE,
        ensures
            final(self).wf(),
            match old(self)@.update_outcome(oracle@, address@, new_status) {
                Ok(i) => {
                    &&& res matches Ok(data)
                    &&& data@ == updated_metadata(
                        old(self)@.slots[i].nft.escrow_data.escrow_id,
                        oracle@,
                        new_status,
                        completion_score,
                    )
                    &&& final(self)@ == old(self)@.updated(i, new_status, completion_score)
                },
                Err(e) => res == Err::<NftMetadata, ErrorCode>(e) && final(self)@ == old(self)@,
            },
    {
        let master = match self.master {
            None => {
                return Err(ErrorCode::RecordNotFound);
            },
            Some(master) => master,
        };
        if master.require_oracle(oracle).is_err() {
            return Err(ErrorCode::UnauthorizedOracle);
        }
        let i = match self.find(address) {
            None => {
                return Err(ErrorCode::RecordNotFound);
            },
            Some(i) => i,
        };
        let mut nft = self.slots[i].nft.clone();
        if nft.transition_status(new_status, completion_score).is_err() {
            return Err(ErrorCode::InvalidStatusTransition);
        }
        let data = update_nft_metadata(nft.escrow_data.escrow_id.as_str(), *oracle, new_status, completion_score);
        let slot_address = self.slots[i].address;
        self.slots.set(i, CertificateSlot { address: slot_address, nft });
        proof {
            let moved = SlotView {
                nft: transitioned(old(self)@.slots[i as int].nft, new_status, completion_score),
                ..old(self)@.slots[i as int]
            };
            assert(final(self)@.slots =~= old(self)@.slots.update(i as int, moved));
            assert forall|k: int| 0 <= k < self@.slots.len() implies {
                &&& (#[trigger] self@.slots[k]).nft.wf()
                &&& program_address(escrow_seeds_spec(self@.slots[k].nft.escrow_data.escrow_id), self@.program_id)
                    == Some((self@.slots[k].address, self@.slots[k].nft.bump))
            } by {
                assert(old(self)@.slots[k].nft.wf());
            }
            assert forall|k: int, j: int| 0 <= k < j < self@.slots.len() implies (
            #[trigger] self@.slots[k]).address != (#[trigger] self@.slots[j]).address by {
                assert(old(self)@.slots[k].address != old(self)@.slots[j].address);
            }
        }
        Ok(data)
    }

    /// Decides a transfer of the unit of the certificate at `address` from
    /// `owner` to `to_authority`. Refused where no certificate lives there,
    /// while the escrow is active, while the certificate is locked, and where
    /// `owner` does not control the unit. On success the result is the order
    /// for the token ledger: exactly one unit.
    pub fn transfer_at(
        &self,
        address: &Identity,
        owner: &Identity,
        from_token_account: &TokenAccount,
        mint_account: &Identity,
        to_authority: &Identity,
    ) -> (res: Result<TransferOrder, ErrorCode>)
        requires
            self.wf(),
        ensures
            match self@.transfer_outcome(address@, owner@, *from_token_account, mint_account@) {
                Ok(_) => res == Ok::<TransferOrder, ErrorCode>(
                    TransferOrder { from: *owner, to: *to_authority, units: 1 },
                ),
                Err(e) => res == Err::<TransferOrder, ErrorCode>(e),
            },
    {
        let i = match self.find(address) {
            None => {
                return Err(ErrorCode::RecordNotFound);
            },
            Some(i) => i,
        };
        order_transfer(&self.slots[i].nft, owner, from_token_account, mint_account, to_authority)
    }
}

/// In a well-formed store the certificate of an agreement lives at the
/// address derived from the agreement's identifier, so that address is taken.
pub proof fn lemma_held_is_occupied(ledger: LedgerView, escrow_id: Seq<char>, address: Seq<u8>, bump: u8)
    requires
        ledger.wf(),
        program_address(escrow_seeds_spec(escrow_id), ledger.program_id) == Some((address, bump)),
    ensures
        ledger.holds(escrow_id) ==> ledger.occupied(address),
{
    if ledger.holds(escrow_id) {
        let i = choose|i: int|
            0 <= i < ledger.slots.len() && (#[trigger] ledger.slots[i]).nft.escrow_data.escrow_id == escrow_id;
        assert(ledger.slots[i].address == address);
    }
}

/// In a well-formed store an address names at most one place.
pub proof fn lemma_position_unique(ledger: LedgerView, address: Seq<u8>, i: int)
    requires
        ledger.wf(),
        0 <= i < ledger.slots.len(),
        ledger.slots[i].address == address,
    ensures
        ledger.position(address) == Some(i),
{
    let j = choose|j: int| 0 <= j < ledger.slots.len() && (#[trigger] ledger.slots[j]).address == address;
    if j < i {
        assert(ledger.slots[j].address != ledger.slots[i].address);
    } else if i < j {
        assert(ledger.slots[i].address != ledger.slots[j].address);
    }
}

/// Issuing a certificate adds one to the counter and changes nothing else of
/// the configuration; the new certificate is active, soulbound and without
/// a score.
pub proof fn lemma_mint_counts_one(
    ledger: LedgerView,
    oracle: Seq<u8>,
    address: Seq<u8>,
    escrow_id: Seq<char>,
    client_wallet: Seq<u8>,
    freelancer_wallet: Seq<u8>,
    amount: u64,
    project_description: Seq<char>,
    timestamp: i64,
    bump: u8,
)
    requires
        ledger.mint_outcome(oracle, address) is Ok,
        ledger.master->0.total_minted < u64::MAX,
    ensures
        ({
            let after = ledger.minted(
                address,
                issued(escrow_id, client_wallet, freelancer_wallet, amount, project_description, timestamp, bump),
            );
            &&& after.master is Some
            &&& after.master->0.total_minted == ledger.master->0.total_minted + 1
            &&& after.master->0.authority == ledger.master->0.authority
            &&& after.slots.len() == ledger.slots.len() + 1
            &&& after.slots.last().nft.escrow_data.status == EscrowStatus::Active
            &&& after.slots.last().nft.is_soulbound
            &&& after.slots.last().nft.escrow_data.completion_score is None
        }),
{
}

/// An identifier that already has a certificate cannot be used again: the
/// call is refused with `RecordAlreadyExists`, whoever makes it.
pub proof fn lemma_used_identifier_refused(
    ledger: LedgerView,
    oracle: Seq<u8>,
    escrow_id: Seq<char>,
    address: Seq<u8>,
    bump: u8,
)
    requires
        ledger.wf(),
        ledger.holds(escrow_id),
        program_address(escrow_seeds_spec(escrow_id), ledger.program_id) == Some((address, bump)),
    ensures
        ledger.mint_outcome(oracle, address) == Err::<(), ErrorCode>(ErrorCode::RecordAlreadyExists),
{
    lemma_held_is_occupied(ledger, escrow_id, address, bump);
}

/// Nobody but the registered oracle can update a status: from any other
/// caller the update is refused with `UnauthorizedOracle`.
pub proof fn lemma_stranger_cannot_update(
    ledger: LedgerView,
    caller: Seq<u8>,
    address: Seq<u8>,
    new_status: EscrowStatus,
)
    requires
        ledger.master matches Some(master) && caller != master.authority@,
    ensures
        ledger.update_outcome(caller, address, new_status) == Err::<int, ErrorCode>(
            ErrorCode::UnauthorizedOracle,
        ),
{
}

/// An update keeps the store well formed and every certificate in its place.
pub proof fn lemma_updated_keeps_places(
    ledger: LedgerView,
    i: int,
    new_status: EscrowStatus,
    completion_score: Option<u8>,
)
    requires
        ledger.wf(),
        0 <= i < ledger.slots.len(),
        transition_allowed(ledger.slots[i].nft.escrow_data.status, new_status),
        completion_score matches Some(score) ==> score <= MAX_COMPLETION_SCORE,
    ensures
        ledger.updated(i, new_status, completion_score).wf(),
        ledger.updated(i, new_status, completion_score).position(ledger.slots[i].address) == Some(i),
{
    let after = ledger.updated(i, new_status, completion_score);
    assert forall|k: int| 0 <= k < after.slots.len() implies {
        &&& (#[trigger] after.slots[k]).nft.wf()
        &&& program_address(escrow_seeds_spec(after.slots[k].nft.escrow_data.escrow_id), after.program_id)
            == Some((after.slots[k].address, after.slots[k].nft.bump))
    } by {
        assert(ledger.slots[k].nft.wf());
    }
    assert forall|k: int, j: int| 0 <= k < j < after.slots.len() implies (#[trigger] after.slots[k]).address != (
    #[trigger] after.slots[j]).address by {
        assert(ledger.slots[k].address != ledger.slots[j].address);
    }
    lemma_position_unique(after, ledger.slots[i].address, i);
}

/// A transfer is refused with `EscrowNotCompleted` while the escrow is
/// active; once the oracle has reported the outcome, the same request from
/// the holder of the unit is granted.
pub proof fn lemma_transfer_after_update(
    ledger: LedgerView,
    oracle: Seq<u8>,
    address: Seq<u8>,
    new_status: EscrowStatus,
    completion_score: Option<u8>,
    owner: Seq<u8>,
    from_token_account: TokenAccount,
    mint_account: Seq<u8>,
)
    requires
        ledger.wf(),
        ledger.update_outcome(oracle, address, new_status) is Ok,
        completion_score matches Some(score) ==> score <= MAX_COMPLETION_SCORE,
        controls_unit(owner, from_token_account, mint_account),
    ensures
        ledger.transfer_outcome(address, owner, from_token_account, mint_account) == Err::<int, ErrorCode>(
            ErrorCode::EscrowNotCompleted,
        ),
        ledger.updated(
            ledger.update_outcome(oracle, address, new_status)->Ok_0,
            new_status,
            completion_score,
        ).transfer_outcome(address, owner, from_token_account, mint_account) is Ok,
{
    let i = ledger.position(address)->0;
    assert(ledger.slots[i].address == address);
    lemma_updated_keeps_places(ledger, i, new_status, completion_score);
}

/// A status is reported once: after an update, every further update of the
/// same certificate is refused, with `InvalidStatusTransition` where the
/// oracle makes it, and the certificate keeps its status and score.
pub proof fn lemma_update_is_final(
    ledger: LedgerView,
    oracle: Seq<u8>,
    address: Seq<u8>,
    new_status: EscrowStatus,
    completion_score: Option<u8>,
    caller: Seq<u8>,
    later: EscrowStatus,
)
    requires
        ledger.wf(),
        ledger.update_outcome(oracle, address, new_status) is Ok,
        completion_score matches Some(score) ==> score <= MAX_COMPLETION_SCORE,
    ensures
        ({
            let i = ledger.update_outcome(oracle, address, new_status)->Ok_0;
            let after = ledger.updated(i, new_status, completion_score);
            &&& after.slots[i].nft.escrow_data.status == new_status
            &&& after.slots[i].nft.escrow_data.completion_score == completion_score
            &&& after.update_outcome(caller, address, later) is Err
            &&& caller == oracle ==> after.update_outcome(caller, address, later) == Err::<int, ErrorCode>(
                ErrorCode::InvalidStatusTransition,
            )
        }),
{
    let i = ledger.position(address)->0;
    assert(ledger.slots[i].address == address);
    lemma_updated_keeps_places(ledger, i, new_status, completion_score);
}

} // verus!
