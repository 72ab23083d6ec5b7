//! The boundary to the chain SDK: parsing credentials and addresses, and
//! building the signed transfer transaction.
//!
//! Everything the rest of the library reads is a plain value (byte arrays,
//! strings); only the fully built transaction is carried through opaquely,
//! to be handed to the submission transport.

use vstd::prelude::*;

verus! {

/// A recent block identifier, fetched fresh once per dispatch round and used
/// to authorize every transaction of that round as current.
#[derive(Clone, Copy)]
pub struct ChainReference {
    pub bytes: [u8; 32],
}

/// Declares the chain SDK's transaction type so a fully built, signed
/// transaction can be carried through to the submission transport; the
/// library never looks inside one.
#[verifier::external_type_specification]
#[verifier::external_body]
pub struct ExTransaction(solana_transaction::Transaction);

/// The derived sender address (32 bytes) for a base58-encoded keypair string,
/// or nothing when the string is not a well-formed encoded keypair. The
/// outcome depends on the characters of the string alone.
pub uninterp spec fn sender_address_of(s: Seq<char>) -> Option<Seq<u8>>;

/// The 32 address bytes a receiver address string decodes to, or nothing
/// when the string is not a well-formed address. The outcome depends on the
/// characters of the string alone.
pub uninterp spec fn address_bytes_of(s: Seq<char>) -> Option<Seq<u8>>;

/// The canonical base58 rendering of 32 address bytes; a function of the
/// bytes alone.
pub uninterp spec fn address_b58_of(b: Seq<u8>) -> Seq<char>;

/// The configured sender credential parses to a signing keypair.
pub open spec fn sender_key_ok(s: Seq<char>) -> bool {
    sender_address_of(s) is Some
}

/// The configured receiver string decodes to an address.
pub open spec fn address_accepted(s: Seq<char>) -> bool {
    address_bytes_of(s) is Some
}

/// Relies on solana_keypair::Keypair::try_from_base58_string, which decodes a
/// base58 string into 64 bytes of ed25519 key material and rejects anything
/// else, and on solana_signer::Signer::pubkey for Keypair, which derives the
/// verifying key (infallible for a keypair); both depend on the string alone.
#[verifier::external_body]
fn derive_sender_address(s: &str) -> (r: Option<[u8; 32]>)
    ensures
        r is Some <==> sender_address_of(s@) is Some,
        r matches Some(a) ==> sender_address_of(s@) == Some(a@),
{
    let keypair = solana_keypair::Keypair::try_from_base58_string(s).ok()?;
    Some(solana_signer::Signer::pubkey(&keypair).to_bytes())
}

/// Relies on <solana_pubkey::Pubkey as core::str::FromStr>::from_str, which
/// decodes a base58 string into exactly 32 address bytes and fails on any
/// other input, and on Pubkey::to_bytes; both depend on the string alone.
#[verifier::external_body]
fn decode_address(s: &str) -> (r: Option<[u8; 32]>)
    ensures
        r is Some <==> address_accepted(s@),
        r matches Some(a) ==> address_bytes_of(s@) == Some(a@),
{
    Some(<solana_pubkey::Pubkey as core::str::FromStr>::from_str(s).ok()?.to_bytes())
}

/// Relies on the Display impl of solana_pubkey::Pubkey, which renders the 32
/// address bytes in canonical base58; a function of the bytes alone.
#[verifier::external_body]
fn render_address(b: &[u8; 32]) -> (r: String)
    ensures
        r@ == address_b58_of(b@),
{
    solana_pubkey::Pubkey::from(*b).to_string()
}

/// Relies on solana_keypair::Keypair::from_base58_string (panics only on a
/// string that does not encode a keypair, excluded by `requires`),
/// solana_signer::Signer::pubkey, solana_pubkey::Pubkey::from,
/// solana_system_interface::instruction::transfer (builds the single transfer
/// operation from sender to receiver for the amount),
/// solana_hash::Hash::new_from_array, and
/// solana_transaction::Transaction::new_signed_with_payer (builds a
/// transaction holding exactly that operation, fee-paid and signed by the
/// sender against the given recent-block reference; signing cannot fail here
/// because the fee payer is the signing keypair's own address).
#[verifier::external_body]
pub(crate) fn build_signed_transfer(
    sender_key: &str,
    receiver: &[u8; 32],
    lamports: u64,
    reference: &ChainReference,
) -> (t: solana_transaction::Transaction)
    requires
        sender_key_ok(sender_key@),
{
    let keypair = solana_keypair::Keypair::from_base58_string(sender_key);
    let from = solana_signer::Signer::pubkey(&keypair);
    let to = solana_pubkey::Pubkey::from(*receiver);
    let operation = solana_system_interface::instruction::transfer(&from, &to, lamports);
    let recent = solana_hash::Hash::new_from_array(reference.bytes);
    solana_transaction::Transaction::new_signed_with_payer(
        &[operation],
        Some(&from),
        &[&keypair],
        recent,
    )
}

/// Derives the sender's public identity from its base58 credential: the 32
/// address bytes and their canonical base58 rendering.
pub fn sender_identity(sender_key: &str) -> (r: Option<([u8; 32], String)>)
    ensures
        r is Some <==> sender_key_ok(sender_key@),
        r matches Some((a, d)) ==> sender_address_of(sender_key@) == Some(a@) && d@
            == address_b58_of(a@),
{
    match derive_sender_address(sender_key) {
        Some(address) => {
            let display = render_address(&address);
            Some((address, display))
        },
        None => None,
    }
}

/// Parses a receiver address string into its 32 address bytes.
pub fn parse_receiver(s: &str) -> (r: Option<[u8; 32]>)
    ensures
        r is Some <==> address_accepted(s@),
        r matches Some(a) ==> address_bytes_of(s@) == Some(a@),
{
    decode_address(s)
}

} // verus!
