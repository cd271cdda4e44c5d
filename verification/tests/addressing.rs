use trustlens_nft_receipt::address::{address_or_exhausted, derive_address, escrow_seeds, master_seeds};
use trustlens_nft_receipt::identity::Identity;
use trustlens_nft_receipt::metadata::{
    create_nft_metadata, score_text, status_name, status_path, update_nft_metadata,
};
use trustlens_nft_receipt::records::{ErrorCode, EscrowStatus};

#[test]
fn seeds_are_the_tag_and_the_identifier() {
    assert_eq!(master_seeds(), vec![b"master".to_vec()]);
    assert_eq!(escrow_seeds("deal-1"), vec![b"escrow_nft".to_vec(), b"deal-1".to_vec()]);
    assert_eq!(escrow_seeds(""), vec![b"escrow_nft".to_vec(), Vec::new()]);
}

#[test]
fn derivation_is_deterministic_and_separates_records() {
    let program = Identity::new([200u8; 32]);
    let master = derive_address(&master_seeds(), &program).unwrap();
    let again = derive_address(&master_seeds(), &program).unwrap();
    assert_eq!(master, again);
    let deal_1 = derive_address(&escrow_seeds("deal-1"), &program).unwrap();
    let deal_2 = derive_address(&escrow_seeds("deal-2"), &program).unwrap();
    assert_ne!(deal_1.0, deal_2.0);
    assert_ne!(master.0, deal_1.0);
    assert_ne!(master.0, program);
    let elsewhere = derive_address(&escrow_seeds("deal-1"), &Identity::new([201u8; 32])).unwrap();
    assert_ne!(elsewhere.0, deal_1.0);
}

#[test]
fn derivation_fails_on_a_seed_too_long() {
    let program = Identity::new([200u8; 32]);
    let seeds = vec![vec![0u8; 33]];
    assert_eq!(derive_address(&seeds, &program), Err(ErrorCode::AddressSpaceExhausted));
    let seeds = vec![vec![0u8; 32]];
    assert!(derive_address(&seeds, &program).is_ok());
}

#[test]
fn missing_address_is_exhaustion() {
    let pair = (Identity::new([4u8; 32]), 250u8);
    assert_eq!(address_or_exhausted(Some(pair)), Ok(pair));
    assert_eq!(address_or_exhausted(None), Err(ErrorCode::AddressSpaceExhausted));
}

#[test]
fn identity_compares_all_bytes() {
    let a = Identity::new([7u8; 32]);
    let mut bytes = [7u8; 32];
    assert!(a.same(&Identity::new(bytes)));
    bytes[0] = 8;
    assert!(!a.same(&Identity::new(bytes)));
    assert_eq!(a.to_bytes(), [7u8; 32]);
}

#[test]
fn created_metadata_names_the_agreement() {
    let oracle = Identity::new([1u8; 32]);
    let data = create_nft_metadata("deal-1", oracle);
    assert_eq!(data.name, "TrustLens Escrow #deal-1");
    assert_eq!(data.symbol, "TRUST");
    assert_eq!(data.uri, "https://trustlens.io/metadata/deal-1");
    assert_eq!(data.seller_fee_basis_points, 0);
    assert_eq!(data.creator, oracle);
    assert!(data.creator_verified);
    assert_eq!(data.creator_share, 100);
    assert_eq!(data.score_note, "");
}

#[test]
fn updated_metadata_shows_status_and_score() {
    let oracle = Identity::new([1u8; 32]);
    let data = update_nft_metadata("deal-1", oracle, EscrowStatus::Released, Some(95));
    assert_eq!(data.name, "TrustLens Escrow #deal-1 - Released");
    assert_eq!(data.symbol, "TRUST");
    assert_eq!(data.uri, "https://trustlens.io/metadata/deal-1/released");
    assert_eq!(data.score_note, " - Score: 95/100");
    assert_eq!(data.creator, oracle);
    assert!(data.creator_verified);
    assert_eq!(data.creator_share, 100);
    assert_eq!(data.seller_fee_basis_points, 0);
    let data = update_nft_metadata("deal-2", oracle, EscrowStatus::Disputed, None);
    assert_eq!(data.name, "TrustLens Escrow #deal-2 - Disputed");
    assert_eq!(data.uri, "https://trustlens.io/metadata/deal-2/disputed");
    assert_eq!(data.score_note, "");
}

#[test]
fn score_text_is_decimal() {
    assert_eq!(score_text(None), "");
    assert_eq!(score_text(Some(0)), " - Score: 0/100");
    assert_eq!(score_text(Some(7)), " - Score: 7/100");
    assert_eq!(score_text(Some(10)), " - Score: 10/100");
    assert_eq!(score_text(Some(95)), " - Score: 95/100");
    assert_eq!(score_text(Some(100)), " - Score: 100/100");
    assert_eq!(score_text(Some(255)), " - Score: 255/100");
}

#[test]
fn status_texts() {
    assert_eq!(status_name(EscrowStatus::Active), "Active");
    assert_eq!(status_name(EscrowStatus::Released), "Released");
    assert_eq!(status_name(EscrowStatus::Disputed), "Disputed");
    assert_eq!(status_path(EscrowStatus::Active), "active");
    assert_eq!(status_path(EscrowStatus::Released), "released");
    assert_eq!(status_path(EscrowStatus::Disputed), "disputed");
}
