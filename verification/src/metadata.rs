//! The public metadata of a certificate: what the metadata service is told
//! when a certificate is issued and when its status changes.

use vstd::prelude::*;
use vstd::string::StringExecFns;
use crate::identity::Identity;
use crate::records::EscrowStatus;

verus! {

/// Share of the only creator, in percent.
pub const CREATOR_SHARE: u8 = 100;

/// Seller fee, in basis points.
pub const SELLER_FEE_BASIS_POINTS: u16 = 0;

/// What is published of a certificate. The oracle is the only creator. The
/// note on the score stands beside the name and is empty where no score was
/// given.
#[derive(Debug, PartialEq, Eq)]
pub struct NftMetadata {
    pub name: String,
    pub symbol: String,
    pub uri: String,
    pub seller_fee_basis_points: u16,
    pub creator: Identity,
    pub creator_verified: bool,
    pub creator_share: u8,
    pub score_note: String,
}

/// The mathematical value of an [`NftMetadata`].
pub ghost struct NftMetadataView {
    pub name: Seq<char>,
    pub symbol: Seq<char>,
    pub uri: Seq<char>,
    pub seller_fee_basis_points: u16,
    pub creator: Seq<u8>,
    pub creator_verified: bool,
    pub creator_share: u8,
    pub score_note: Seq<char>,
}

impl View for NftMetadata {
    type V = NftMetadataView;

    open spec fn view(&self) -> NftMetadataView {
        NftMetadataView {
            name: self.name@,
            symbol: self.symbol@,
            uri: self.uri@,
            seller_fee_basis_points: self.seller_fee_basis_points,
            creator: self.creator@,
            creator_verified: self.creator_verified,
            creator_share: self.creator_share,
            score_note: self.score_note@,
        }
    }
}

/// The status as it is shown in a name.
pub open spec fn status_text(status: EscrowStatus) -> Seq<char> {
    match status {
        EscrowStatus::Active => "Active"@,
        EscrowStatus::Released => "Released"@,
        EscrowStatus::Disputed => "Disputed"@,
    }
}

/// The status as it is written in an address: in lower case.
pub open spec fn status_slug(status: EscrowStatus) -> Seq<char> {
    match status {
        EscrowStatus::Active => "active"@,
        EscrowStatus::Released => "released"@,
        EscrowStatus::Disputed => "disputed"@,
    }
}

/// One decimal digit as text.
pub open spec fn digit(d: u8) -> Seq<char> {
    if d == 0 {
        "0"@
    } else if d == 1 {
        "1"@
    } else if d == 2 {
        "2"@
    } else if d == 3 {
        "3"@
    } else if d == 4 {
        "4"@
    } else if d == 5 {
        "5"@
    } else if d == 6 {
        "6"@
    } else if d == 7 {
        "7"@
    } else if d == 8 {
        "8"@
    } else {
        "9"@
    }
}

/// A score in decimal, without leading zeros.
pub open spec fn score_digits(score: u8) -> Seq<char> {
    if score >= 100 {
        digit(score / 100) + digit((score / 10) % 10) + digit(score % 10)
    } else if score >= 10 {
        digit(score / 10) + digit(score % 10)
    } else {
        digit(score)
    }
}

/// The note on a score: `" - Score: N/100"`, or nothing without a score.
pub open spec fn score_note(completion_score: Option<u8>) -> Seq<char> {
    match completion_score {
        Some(score) => " - Score: "@ + score_digits(score) + "/100"@,
        None => Seq::<char>::empty(),
    }
}

/// What is published when the certificate of `escrow_id` is issued.
pub open spec fn created_metadata(escrow_id: Seq<char>, oracle: Seq<u8>) -> NftMetadataView {
    NftMetadataView {
        name: "TrustLens Escrow #"@ + escrow_id,
        symbol: "TRUST"@,
        uri: "https://trustlens.io/metadata/"@ + escrow_id,
        seller_fee_basis_points: 0,
        creator: oracle,
        creator_verified: true,
        creator_share: 100,
        score_note: Seq::<char>::empty(),
    }
}

/// What is published when the certificate of `escrow_id` moves to `status`.
pub open spec fn updated_metadata(
    escrow_id: Seq<char>,
    oracle: Seq<u8>,
    status: EscrowStatus,
    completion_score: Option<u8>,
) -> NftMetadataView {
    NftMetadataView {
        name: "TrustLens Escrow #"@ + escrow_id + " - "@ + status_text(status),
        symbol: "TRUST"@,
        uri: "https://trustlens.io/metadata/"@ + escrow_id + "/"@ + status_slug(status),
        seller_fee_basis_points: 0,
        creator: oracle,
        creator_verified: true,
        creator_share: 100,
        score_note: score_note(completion_score),
    }
}

/// The text of a status, as names show it.
pub fn status_name(status: EscrowStatus) -> (text: &'static str)
    ensures
        text@ == status_text(status),
{
    match status {
        EscrowStatus::Active => "Active",
        EscrowStatus::Released => "Released",
        EscrowStatus::Disputed => "Disputed",
    }
}

/// The text of a status in lower case, as addresses hold it.
pub fn status_path(status: EscrowStatus) -> (text: &'static str)
    ensures
        text@ == status_slug(status),
{
    match status {
        EscrowStatus::Active => "active",
        EscrowStatus::Released => "released",
        EscrowStatus::Disputed => "disputed",
    }
}

fn digit_text(d: u8) -> (text: &'static str)
    requires
        d < 10,
    ensures
        text@ == digit(d),
{
    if d == 0 {
        "0"
    } else if d == 1 {
        "1"
    } else if d == 2 {
        "2"
    } else if d == 3 {
        "3"
    } else if d == 4 {
        "4"
    } else if d == 5 {
        "5"
    } else if d == 6 {
        "6"
    } else if d == 7 {
        "7"
    } else if d == 8 {
        "8"
    } else {
        "9"
    }
}

/// The note on a completion score.
pub fn score_text(completion_score: Option<u8>) -> (text: String)
    ensures
        text@ == score_note(completion_score),
{
    match completion_score {
        None => String::new(),
        Some(score) => {
            let mut text = String::from_str(" - Score: ");
            if score >= 100 {
                text.append(digit_text(score / 100));
                text.append(digit_text((score / 10) % 10));
                text.append(digit_text(score % 10));
                proof {
                    assert(text@ =~= " - Score: "@ + score_digits(score));
                }
            } else if score >= 10 {
                text.append(digit_text(score / 10));
                text.append(digit_text(score % 10));
                proof {
                    assert(text@ =~= " - Score: "@ + score_digits(score));
                }
            } else {
                text.append(digit_text(score));
            }
            text.append("/100");
            text
        },
    }
}

/// The metadata published with a new certificate: the name and the address
/// carry the agreement's identifier, and the oracle is the verified creator
/// with the whole share.
pub fn create_nft_metadata(escrow_id: &str, oracle: Identity) -> (data: NftMetadata)
    ensures
        data@ == created_metadata(escrow_id@, oracle@),
{
    let mut name = String::from_str("TrustLens Escrow #");
    name.append(escrow_id);
    let mut uri = String::from_str("https://trustlens.io/metadata/");
    uri.append(escrow_id);
    NftMetadata {
        name,
        symbol: String::from_str("TRUST"),
        uri,
        seller_fee_basis_points: SELLER_FEE_BASIS_POINTS,
        creator: oracle,
        creator_verified: true,
        creator_share: CREATOR_SHARE,
        score_note: String::new(),
    }
}

/// The metadata published after a status change: the name shows the new
/// status, the address ends in it, and the note holds the score.
pub fn update_nft_metadata(
    escrow_id: &str,
    oracle: Identity,
    status: EscrowStatus,
    completion_score: Option<u8>,
) -> (data: NftMetadata)
    ensures
        data@ == updated_metadata(escrow_id@, oracle@, status, completion_score),
{
    let mut name = String::from_str("TrustLens Escrow #");
    name.append(escrow_id);
    name.append(" - ");
    name.append(status_name(status));
    let mut uri = String::from_str("https://trustlens.io/metadata/");
    uri.append(escrow_id);
    uri.append("/");
    uri.append(status_path(status));
    NftMetadata {
        name,
        symbol: String::from_str("TRUST"),
        uri,
        seller_fee_basis_points: SELLER_FEE_BASIS_POINTS,
        creator: oracle,
        creator_verified: true,
        creator_share: CREATOR_SHARE,
        score_note: score_text(completion_score),
    }
}

} // verus!
