use trustlens_nft_receipt::address::{derive_address, escrow_seeds, master_seeds};
use trustlens_nft_receipt::identity::Identity;
use trustlens_nft_receipt::ledger::{require_owner, Ledger, TokenAccount, TransferOrder};
use trustlens_nft_receipt::program::{
    get_escrow_data, initialize, mint_escrow_nft, publish_report, transfer_nft, transfer_result,
    update_escrow_status, GetEscrowData, Initialize, MintEscrowNft, TransferNft, UpdateEscrowStatus,
};
use trustlens_nft_receipt::records::{ErrorCode, EscrowNft, EscrowStatus, Master};

fn id(byte: u8) -> Identity {
    Identity::new([byte; 32])
}

fn program() -> Identity {
    id(200)
}

fn ready_ledger(authority: Identity) -> Ledger {
    let mut ledger = Ledger::new(program());
    assert_eq!(initialize(&mut ledger, &Initialize { authority }), Ok(()));
    ledger
}

fn mint(ledger: &mut Ledger, oracle: Identity, escrow_id: &str) -> Result<(), ErrorCode> {
    mint_escrow_nft(
        ledger,
        &MintEscrowNft { oracle },
        escrow_id.to_string(),
        id(2),
        id(3),
        1000,
        "site redesign".to_string(),
        1_700_000_000,
    )
    .map(|_| ())
}

fn transfer_request(escrow_id: &str, owner: Identity, holder: Identity, to: Identity) -> TransferNft {
    TransferNft {
        escrow_id: escrow_id.to_string(),
        owner,
        from_token_account: TokenAccount { mint: id(50), owner: holder, amount: 1 },
        mint_account: id(50),
        to_authority: to,
    }
}

fn read(ledger: &Ledger, escrow_id: &str) -> Result<trustlens_nft_receipt::records::EscrowData, ErrorCode> {
    get_escrow_data(ledger, &GetEscrowData { escrow_id: escrow_id.to_string() })
}

#[test]
fn scenario_deal_1() {
    let a = id(1);
    let p = id(2);
    let q = id(3);
    let mut ledger = ready_ledger(a);
    let minted = mint_escrow_nft(
        &mut ledger,
        &MintEscrowNft { oracle: a },
        "deal-1".to_string(),
        p,
        q,
        1000,
        "site redesign".to_string(),
        1_700_000_000,
    );
    assert!(minted.is_ok());

    let data = read(&ledger, "deal-1").unwrap();
    assert_eq!(data.status, EscrowStatus::Active);
    assert_eq!(data.escrow_id, "deal-1");
    assert_eq!(data.client_wallet, p);
    assert_eq!(data.freelancer_wallet, q);
    assert_eq!(data.amount, 1000);
    assert_eq!(data.completion_score, None);
    assert_eq!(data.timestamp, 1_700_000_000);
    assert_eq!(data.project_description, "site redesign");
    assert!(ledger.slots[0].nft.is_soulbound);

    let request = transfer_request("deal-1", p, p, q);
    assert_eq!(transfer_nft(&ledger, &request), Err(ErrorCode::EscrowNotCompleted));

    let updated = update_escrow_status(
        &mut ledger,
        &UpdateEscrowStatus { oracle: a, escrow_id: "deal-1".to_string() },
        EscrowStatus::Released,
        Some(95),
    );
    assert!(updated.is_ok());

    let data = read(&ledger, "deal-1").unwrap();
    assert_eq!(data.status, EscrowStatus::Released);
    assert_eq!(data.completion_score, Some(95));
    assert!(!ledger.slots[0].nft.is_soulbound);

    assert_eq!(transfer_nft(&ledger, &request), Ok(TransferOrder { from: p, to: q, units: 1 }));
}

#[test]
fn initialize_sets_authority_and_zero_counter() {
    let ledger = ready_ledger(id(1));
    let master = ledger.master.unwrap();
    assert_eq!(master.authority, id(1));
    assert_eq!(master.total_minted, 0);
    let (_, bump) = derive_address(&master_seeds(), &program()).unwrap();
    assert_eq!(master.bump, bump);
    assert_eq!(ledger.len(), 0);
}

#[test]
fn initialize_twice_is_refused() {
    let mut ledger = ready_ledger(id(1));
    assert_eq!(initialize(&mut ledger, &Initialize { authority: id(9) }), Err(ErrorCode::RecordAlreadyExists));
    assert_eq!(ledger.master.unwrap().authority, id(1));
}

#[test]
fn fresh_mint_is_active_locked_and_counted() {
    let mut ledger = ready_ledger(id(1));
    assert_eq!(mint(&mut ledger, id(1), "deal-1"), Ok(()));
    assert_eq!(ledger.master.unwrap().total_minted, 1);
    assert_eq!(mint(&mut ledger, id(1), "deal-2"), Ok(()));
    assert_eq!(ledger.master.unwrap().total_minted, 2);
    assert_eq!(ledger.len(), 2);
    let nft = &ledger.slots[1].nft;
    assert_eq!(nft.escrow_data.escrow_id, "deal-2");
    assert_eq!(nft.escrow_data.status, EscrowStatus::Active);
    assert_eq!(nft.escrow_data.completion_score, None);
    assert!(nft.is_soulbound);
    let (address, bump) = derive_address(&escrow_seeds("deal-2"), &program()).unwrap();
    assert_eq!(ledger.slots[1].address, address);
    assert_eq!(nft.bump, bump);
}

#[test]
fn used_identifier_is_refused_and_nothing_changes() {
    let mut ledger = ready_ledger(id(1));
    assert_eq!(mint(&mut ledger, id(1), "deal-1"), Ok(()));
    let again = mint_escrow_nft(
        &mut ledger,
        &MintEscrowNft { oracle: id(1) },
        "deal-1".to_string(),
        id(7),
        id(8),
        5,
        "other".to_string(),
        1,
    );
    assert_eq!(again, Err(ErrorCode::RecordAlreadyExists));
    assert_eq!(mint(&mut ledger, id(4), "deal-1"), Err(ErrorCode::RecordAlreadyExists));
    assert_eq!(ledger.master.unwrap().total_minted, 1);
    assert_eq!(ledger.len(), 1);
    let data = read(&ledger, "deal-1").unwrap();
    assert_eq!(data.amount, 1000);
    assert_eq!(data.client_wallet, id(2));
    assert_eq!(data.project_description, "site redesign");
}

#[test]
fn mint_by_stranger_is_unauthorized() {
    let mut ledger = ready_ledger(id(1));
    assert_eq!(mint(&mut ledger, id(4), "deal-1"), Err(ErrorCode::UnauthorizedOracle));
    assert_eq!(ledger.len(), 0);
    assert_eq!(ledger.master.unwrap().total_minted, 0);
}

#[test]
fn mint_without_configuration_is_refused() {
    let mut ledger = Ledger::new(program());
    assert_eq!(mint(&mut ledger, id(1), "deal-1"), Err(ErrorCode::RecordNotFound));
    assert_eq!(ledger.len(), 0);
}

#[test]
fn identifier_longer_than_a_seed_has_no_address() {
    let mut ledger = ready_ledger(id(1));
    let long = "x".repeat(33);
    assert_eq!(mint(&mut ledger, id(1), &long), Err(ErrorCode::AddressSpaceExhausted));
    assert_eq!(read(&ledger, &long), Err(ErrorCode::RecordNotFound));
    assert_eq!(derive_address(&escrow_seeds(&long), &program()), Err(ErrorCode::AddressSpaceExhausted));
    let longest = "x".repeat(32);
    assert_eq!(mint(&mut ledger, id(1), &longest), Ok(()));
}

#[test]
fn transferable_exactly_when_completed() {
    let mut nft = EscrowNft::issue("deal-1".to_string(), id(2), id(3), 10, "d".to_string(), 0, 255);
    assert!(!nft.authorize_transfer());
    assert!(nft.is_soulbound);
    assert_eq!(nft.check_transfer(), Err(ErrorCode::EscrowNotCompleted));

    let mut other = nft.clone();
    assert_eq!(nft.transition_status(EscrowStatus::Released, None), Ok(()));
    assert!(nft.authorize_transfer());
    assert!(!nft.is_soulbound);
    assert_eq!(nft.check_transfer(), Ok(()));

    assert_eq!(other.transition_status(EscrowStatus::Disputed, Some(0)), Ok(()));
    assert!(other.authorize_transfer());
    assert!(!other.is_soulbound);
    assert_eq!(other.escrow_data.completion_score, Some(0));
}

#[test]
fn locked_certificate_is_refused_even_when_completed() {
    let mut nft = EscrowNft::issue("deal-1".to_string(), id(2), id(3), 10, "d".to_string(), 0, 255);
    nft.escrow_data.status = EscrowStatus::Released;
    assert!(!nft.authorize_transfer());
    assert_eq!(nft.check_transfer(), Err(ErrorCode::NftStillSoulbound));
}

#[test]
fn update_by_stranger_is_unauthorized_and_changes_nothing() {
    let mut ledger = ready_ledger(id(1));
    assert_eq!(mint(&mut ledger, id(1), "deal-1"), Ok(()));
    let before = ledger.slots[0].nft.clone();
    let res = update_escrow_status(
        &mut ledger,
        &UpdateEscrowStatus { oracle: id(2), escrow_id: "deal-1".to_string() },
        EscrowStatus::Released,
        Some(80),
    );
    assert_eq!(res, Err(ErrorCode::UnauthorizedOracle));
    assert_eq!(ledger.slots[0].nft, before);
    let missing = update_escrow_status(
        &mut ledger,
        &UpdateEscrowStatus { oracle: id(2), escrow_id: "no-such-deal".to_string() },
        EscrowStatus::Released,
        None,
    );
    assert_eq!(missing, Err(ErrorCode::UnauthorizedOracle));
}

#[test]
fn update_of_missing_certificate_is_not_found() {
    let mut ledger = ready_ledger(id(1));
    let res = update_escrow_status(
        &mut ledger,
        &UpdateEscrowStatus { oracle: id(1), escrow_id: "deal-9".to_string() },
        EscrowStatus::Released,
        None,
    );
    assert_eq!(res, Err(ErrorCode::RecordNotFound));
    let long = update_escrow_status(
        &mut ledger,
        &UpdateEscrowStatus { oracle: id(1), escrow_id: "y".repeat(40) },
        EscrowStatus::Disputed,
        None,
    );
    assert_eq!(long, Err(ErrorCode::RecordNotFound));
}

#[test]
fn update_to_active_is_no_transition() {
    let mut ledger = ready_ledger(id(1));
    assert_eq!(mint(&mut ledger, id(1), "deal-1"), Ok(()));
    let res = update_escrow_status(
        &mut ledger,
        &UpdateEscrowStatus { oracle: id(1), escrow_id: "deal-1".to_string() },
        EscrowStatus::Active,
        None,
    );
    assert_eq!(res, Err(ErrorCode::InvalidStatusTransition));
    assert!(ledger.slots[0].nft.is_soulbound);
}

#[test]
fn transfer_waits_for_the_outcome() {
    let mut ledger = ready_ledger(id(1));
    assert_eq!(mint(&mut ledger, id(1), "deal-1"), Ok(()));
    let request = transfer_request("deal-1", id(2), id(2), id(3));
    assert_eq!(transfer_nft(&ledger, &request), Err(ErrorCode::EscrowNotCompleted));
    let stranger = transfer_request("deal-1", id(9), id(2), id(3));
    assert_eq!(transfer_nft(&ledger, &stranger), Err(ErrorCode::EscrowNotCompleted));
    let res = update_escrow_status(
        &mut ledger,
        &UpdateEscrowStatus { oracle: id(1), escrow_id: "deal-1".to_string() },
        EscrowStatus::Disputed,
        None,
    );
    assert!(res.is_ok());
    assert_eq!(
        transfer_nft(&ledger, &request),
        Ok(TransferOrder { from: id(2), to: id(3), units: 1 })
    );
    assert_eq!(transfer_nft(&ledger, &stranger), Err(ErrorCode::UnauthorizedOwner));
}

#[test]
fn transfer_of_missing_certificate_is_not_found() {
    let ledger = ready_ledger(id(1));
    let request = transfer_request("deal-1", id(2), id(2), id(3));
    assert_eq!(transfer_nft(&ledger, &request), Err(ErrorCode::RecordNotFound));
}

#[test]
fn owner_must_hold_a_unit_of_the_mint() {
    let account = TokenAccount { mint: id(50), owner: id(2), amount: 1 };
    assert_eq!(require_owner(&id(2), &account, &id(50)), Ok(()));
    assert_eq!(require_owner(&id(3), &account, &id(50)), Err(ErrorCode::UnauthorizedOwner));
    assert_eq!(require_owner(&id(2), &account, &id(51)), Err(ErrorCode::UnauthorizedOwner));
}

#[test]
fn second_update_is_refused_and_score_stays() {
    let mut ledger = ready_ledger(id(1));
    assert_eq!(mint(&mut ledger, id(1), "deal-1"), Ok(()));
    let ctx = UpdateEscrowStatus { oracle: id(1), escrow_id: "deal-1".to_string() };
    assert!(update_escrow_status(&mut ledger, &ctx, EscrowStatus::Released, Some(95)).is_ok());
    assert_eq!(
        update_escrow_status(&mut ledger, &ctx, EscrowStatus::Disputed, Some(10)),
        Err(ErrorCode::InvalidStatusTransition)
    );
    assert_eq!(
        update_escrow_status(&mut ledger, &ctx, EscrowStatus::Released, None),
        Err(ErrorCode::InvalidStatusTransition)
    );
    let data = read(&ledger, "deal-1").unwrap();
    assert_eq!(data.status, EscrowStatus::Released);
    assert_eq!(data.completion_score, Some(95));
}

#[test]
fn read_of_missing_certificate_is_not_found() {
    let ledger = ready_ledger(id(1));
    assert_eq!(read(&ledger, "deal-1"), Err(ErrorCode::RecordNotFound));
}

#[test]
fn oracle_guard_admits_only_the_authority() {
    let master = Master::new(id(1), 254);
    assert_eq!(master.require_oracle(&id(1)), Ok(()));
    assert_eq!(master.require_oracle(&id(2)), Err(ErrorCode::UnauthorizedOracle));
    let mut bytes = [1u8; 32];
    bytes[31] = 0;
    assert_eq!(master.require_oracle(&Identity::new(bytes)), Err(ErrorCode::UnauthorizedOracle));
}

#[test]
fn outside_answers_are_passed_on_or_reported() {
    assert_eq!(transfer_result(true), Ok(()));
    assert_eq!(transfer_result(false), Err(ErrorCode::TransferFailure));
    assert_eq!(publish_report(true), None);
    assert_eq!(publish_report(false), Some(ErrorCode::SyncFailure));
}

#[test]
fn audit_accepts_what_the_operations_built() {
    let mut ledger = ready_ledger(id(1));
    assert!(ledger.audit());
    assert_eq!(mint(&mut ledger, id(1), "deal-1"), Ok(()));
    assert_eq!(mint(&mut ledger, id(1), "deal-2"), Ok(()));
    let ctx = UpdateEscrowStatus { oracle: id(1), escrow_id: "deal-2".to_string() };
    assert!(update_escrow_status(&mut ledger, &ctx, EscrowStatus::Disputed, Some(100)).is_ok());
    assert!(ledger.audit());
    assert!(ledger.slot_is_sound(0));
    assert!(ledger.slot_is_sound(1));
    assert_eq!(ledger.find(&ledger.slots[1].address), Some(1));
    assert_eq!(ledger.find(&id(77)), None);
}

#[test]
fn audit_rejects_a_misplaced_or_doubled_certificate() {
    let mut ledger = ready_ledger(id(1));
    assert_eq!(mint(&mut ledger, id(1), "deal-1"), Ok(()));
    let mut moved = Ledger::new(program());
    moved.slots.push(trustlens_nft_receipt::ledger::CertificateSlot {
        address: id(77),
        nft: ledger.slots[0].nft.clone(),
    });
    assert!(!moved.slot_is_sound(0));
    assert!(!moved.audit());

    let mut doubled = Ledger::new(program());
    for _ in 0..2 {
        doubled.slots.push(trustlens_nft_receipt::ledger::CertificateSlot {
            address: ledger.slots[0].address,
            nft: ledger.slots[0].nft.clone(),
        });
    }
    assert!(doubled.slot_is_sound(0));
    assert!(doubled.slot_is_sound(1));
    assert!(!doubled.audit());

    let mut unlocked = Ledger::new(program());
    let mut nft = ledger.slots[0].nft.clone();
    nft.is_soulbound = false;
    assert!(!nft.is_well_formed());
    unlocked.slots.push(trustlens_nft_receipt::ledger::CertificateSlot { address: ledger.slots[0].address, nft });
    assert!(!unlocked.audit());
}

#[test]
fn scores_at_both_bounds_are_stored() {
    let mut ledger = ready_ledger(id(1));
    assert_eq!(mint(&mut ledger, id(1), "low"), Ok(()));
    assert_eq!(mint(&mut ledger, id(1), "high"), Ok(()));
    let low = UpdateEscrowStatus { oracle: id(1), escrow_id: "low".to_string() };
    let high = UpdateEscrowStatus { oracle: id(1), escrow_id: "high".to_string() };
    let data = update_escrow_status(&mut ledger, &low, EscrowStatus::Disputed, Some(0)).unwrap();
    assert_eq!(data.name, "TrustLens Escrow #low - Disputed");
    assert_eq!(data.score_note, " - Score: 0/100");
    let data = update_escrow_status(&mut ledger, &high, EscrowStatus::Released, Some(100)).unwrap();
    assert_eq!(data.uri, "https://trustlens.io/metadata/high/released");
    assert_eq!(data.score_note, " - Score: 100/100");
    assert_eq!(read(&ledger, "low").unwrap().completion_score, Some(0));
    assert_eq!(read(&ledger, "high").unwrap().completion_score, Some(100));
    assert_eq!(read(&ledger, "high").unwrap().status, EscrowStatus::Released);
}

#[test]
fn mint_returns_the_metadata_to_publish() {
    let mut ledger = ready_ledger(id(1));
    let data = mint_escrow_nft(
        &mut ledger,
        &MintEscrowNft { oracle: id(1) },
        "deal-1".to_string(),
        id(2),
        id(3),
        1000,
        "d".repeat(512),
        -5,
    )
    .unwrap();
    assert_eq!(data.name, "TrustLens Escrow #deal-1");
    assert_eq!(data.uri, "https://trustlens.io/metadata/deal-1");
    assert_eq!(data.creator, id(1));
    let stored = read(&ledger, "deal-1").unwrap();
    assert_eq!(stored.project_description.len(), 512);
    assert_eq!(stored.timestamp, -5);
}

#[test]
fn record_sizes() {
    assert_eq!(Master::SIZE, 49);
    assert_eq!(trustlens_nft_receipt::records::EscrowData::SIZE, 858);
    assert_eq!(EscrowNft::SIZE, 868);
}

#[test]
fn error_messages() {
    assert_eq!(ErrorCode::UnauthorizedOracle.message(), "Unauthorized oracle");
    assert_eq!(ErrorCode::NftStillSoulbound.message(), "NFT is still soulbound and cannot be transferred");
    assert_eq!(ErrorCode::EscrowNotCompleted.message(), "Escrow is not completed");
    assert_eq!(ErrorCode::InvalidStatusTransition.message(), "Escrow status can no longer change");
    assert_eq!(ErrorCode::RecordAlreadyExists.message(), "Record already exists");
    assert_eq!(ErrorCode::RecordNotFound.message(), "Record not found");
}

#[test]
fn transition_table() {
    assert!(EscrowStatus::Active.can_become(EscrowStatus::Released));
    assert!(EscrowStatus::Active.can_become(EscrowStatus::Disputed));
    assert!(!EscrowStatus::Active.can_become(EscrowStatus::Active));
    assert!(!EscrowStatus::Released.can_become(EscrowStatus::Disputed));
    assert!(!EscrowStatus::Released.can_become(EscrowStatus::Active));
    assert!(!EscrowStatus::Disputed.can_become(EscrowStatus::Released));
    assert!(!EscrowStatus::Disputed.can_become(EscrowStatus::Disputed));
    assert!(!EscrowStatus::Active.is_completed());
    assert!(EscrowStatus::Released.is_completed());
    assert!(EscrowStatus::Disputed.is_completed());
}
