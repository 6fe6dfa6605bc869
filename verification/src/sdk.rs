//! The boundary to the blockchain SDK: public-key parsing, key generation,
//! signing and verification, and instruction construction, each behind a trusted
//! wrapper whose contract states what the SDK's source shows.
use vstd::prelude::*;

use solana_sdk::pubkey::Pubkey;
use solana_sdk::signature::{Keypair, Signature, Signer};
use std::str::FromStr;

verus! {

use crate::api::{AccountMetaOut, InstructionOut};
use crate::codec::{b58_bytes_of, b58_chars_ok, b58_str_of};
use crate::text::trim_of;
use vstd::utf8::encode_utf8;

/// A public-key string parses exactly when it is at most 44 bytes of base58
/// characters that decode to exactly 32 bytes.
pub open spec fn pk_parse_ok(s: Seq<char>) -> bool {
    &&& encode_utf8(s).len() <= 44
    &&& b58_chars_ok(s)
    &&& b58_bytes_of(s).len() == 32
}

/// Relies on solana `Pubkey::from_str`: it rejects strings longer than 44 bytes,
/// then base58-decodes and demands exactly 32 bytes; its decoder reads the same
/// Bitcoin alphabet as the bs58 crate.
#[verifier::external_body]
pub(crate) fn pubkey_parses(s: &str) -> (r: bool)
    ensures
        r == pk_parse_ok(s@),
{
    Pubkey::from_str(s).is_ok()
}

/// A well-formed public-key string: non-empty after trimming, and parsable.
pub open spec fn valid_pubkey_spec(s: Seq<char>) -> bool {
    trim_of(s).len() != 0 && pk_parse_ok(s)
}

pub fn is_valid_pubkey(s: &str) -> (r: bool)
    ensures
        r == valid_pubkey_spec(s@),
{
    let t = crate::text::trim_str(s);
    if t.is_empty() {
        return false;
    }
    pubkey_parses(s)
}

/// The ed25519 public key derived from a 32-byte seed, as the SDK's key types
/// derive it.
pub uninterp spec fn ed25519_pub_of(seed: Seq<u8>) -> Seq<u8>;

/// The ed25519 signature the keypair with these 64 bytes produces over a message.
pub uninterp spec fn sig_of(keypair: Seq<u8>, msg: Seq<u8>) -> Seq<u8>;

/// What ed25519 verification returns for a public key, a message and a signature.
pub uninterp spec fn sig_verify_of(pubkey: Seq<u8>, msg: Seq<u8>, sig: Seq<u8>) -> bool;

/// Well-formed keypair bytes: the 32-byte seed followed by the public key the
/// seed derives.
pub open spec fn keypair_ok(b: Seq<u8>) -> bool {
    b.len() == 64 && b.subrange(32, 64) == ed25519_pub_of(b.subrange(0, 32))
}

/// Relies on solana `Keypair::new` and `Keypair::to_bytes`: a fresh random
/// keypair laid out as the seed followed by the public key derived from it.
#[verifier::external_body]
pub(crate) fn generate_keypair_bytes() -> (r: Vec<u8>)
    ensures
        r@.len() == 64,
        r@.subrange(32, 64) == ed25519_pub_of(r@.subrange(0, 32)),
{
    Keypair::new().to_bytes().to_vec()
}

/// Relies on solana `Keypair::try_from(&[u8])`: it succeeds exactly on 64 bytes
/// whose upper half equals the public key derived from the lower half.
#[verifier::external_body]
pub(crate) fn keypair_bytes_ok(b: &[u8]) -> (r: bool)
    ensures
        r == keypair_ok(b@),
{
    Keypair::try_from(b).is_ok()
}

/// Relies on solana `Keypair::sign_message` (deterministic ed25519): the
/// signature is a function of the keypair bytes and the message bytes alone and
/// is 64 bytes long. That it verifies against the keypair's public key is the
/// ed25519 guarantee that `verify_strict`, which `Signature::verify` applies,
/// accepts every signature `sign` produces under the signing key.
#[verifier::external_body]
pub(crate) fn sign_message_bytes(kp: &[u8], msg: &str) -> (r: Vec<u8>)
    requires
        keypair_ok(kp@),
    ensures
        r@ == sig_of(kp@, encode_utf8(msg@)),
        r@.len() == 64,
        sig_verify_of(kp@.subrange(32, 64), encode_utf8(msg@), r@),
{
    let keypair = Keypair::try_from(kp).unwrap();
    keypair.sign_message(msg.as_bytes()).as_ref().to_vec()
}

/// Relies on solana `Signature::verify`: it parses the public-key bytes and
/// checks the ed25519 signature over the message, a boolean function of its three
/// arguments that never fails.
#[verifier::external_body]
pub(crate) fn verify_signature_bytes(pubkey: &[u8], msg: &str, sig: &[u8]) -> (r: bool)
    requires
        sig@.len() == 64,
    ensures
        r == sig_verify_of(pubkey@, encode_utf8(msg@), sig@),
{
    let signature = Signature::try_from(sig).unwrap();
    signature.verify(pubkey, msg.as_bytes())
}

/// The token program's address, as its crate declares it.
pub open spec fn token_program_id_str() -> Seq<char> {
    "TokenkegQfeZyiNwAJbNbGKPFXCWuBvf9Ss623VQ5DA"@
}

/// The rent sysvar's address.
pub open spec fn rent_sysvar_str() -> Seq<char> {
    "SysvarRent111111111111111111111111111111111"@
}

/// The system program's address: 32 zero bytes in base58.
pub open spec fn system_program_id_str() -> Seq<char> {
    "11111111111111111111111111111111"@
}

/// A 64-bit value in little-endian bytes.
pub open spec fn le8(v: u64) -> Seq<u8> {
    seq![
        (v & 0xff) as u8,
        ((v >> 8) & 0xff) as u8,
        ((v >> 16) & 0xff) as u8,
        ((v >> 24) & 0xff) as u8,
        ((v >> 32) & 0xff) as u8,
        ((v >> 40) & 0xff) as u8,
        ((v >> 48) & 0xff) as u8,
        ((v >> 56) & 0xff) as u8,
    ]
}

/// The packed InitializeMint payload: its tag, the decimals, the mint authority,
/// and no freeze authority.
pub open spec fn init_mint_data(decimals: u8, authority: Seq<u8>) -> Seq<u8> {
    seq![0u8, decimals] + authority + seq![0u8]
}

/// The packed MintTo payload: its tag and the amount.
pub open spec fn mint_to_data(amount: u64) -> Seq<u8> {
    seq![7u8] + le8(amount)
}

/// The bincode-serialized system Transfer payload: the variant's little-endian
/// 32-bit tag and the lamports.
pub open spec fn transfer_data(lamports: u64) -> Seq<u8> {
    seq![2u8, 0u8, 0u8, 0u8] + le8(lamports)
}

/// Relies on `spl_token::instruction::initialize_mint` called with
/// `spl_token::id()`, on which it always succeeds: the token program id, the
/// writable mint account and the read-only rent sysvar, and the packed
/// InitializeMint data; account keys are shown through `Pubkey`'s base58 Display.
#[verifier::external_body]
pub(crate) fn build_initialize_mint(mint: &[u8], authority: &[u8], decimals: u8) -> (r:
    InstructionOut)
    requires
        mint@.len() == 32,
        authority@.len() == 32,
    ensures
        r.program_id@ == token_program_id_str(),
        r.accounts@.len() == 2,
        r.accounts@[0].acct_is(b58_str_of(mint@), false, true),
        r.accounts@[1].acct_is(rent_sysvar_str(), false, false),
        r.data@ == init_mint_data(decimals, authority@),
{
    let mint_pk = Pubkey::new_from_array(mint.try_into().unwrap());
    let auth_pk = Pubkey::new_from_array(authority.try_into().unwrap());
    let ix = spl_token::instruction::initialize_mint(&spl_token::id(), &mint_pk, &auth_pk, None, decimals).unwrap();
    let accounts = ix.accounts.iter().map(|a| AccountMetaOut { pubkey: a.pubkey.to_string(), is_signer: a.is_signer, is_writable: a.is_writable }).collect();
    InstructionOut { program_id: ix.program_id.to_string(), accounts, data: ix.data }
}

/// Relies on `spl_token::instruction::mint_to` called with `spl_token::id()` and
/// no extra signers, on which it always succeeds: the token program id, the
/// writable mint and destination accounts, the owner as read-only signer, and the
/// packed MintTo data.
#[verifier::external_body]
pub(crate) fn build_mint_to(mint: &[u8], destination: &[u8], authority: &[u8], amount: u64) -> (r:
    InstructionOut)
    requires
        mint@.len() == 32,
        destination@.len() == 32,
        authority@.len() == 32,
    ensures
        r.program_id@ == token_program_id_str(),
        r.accounts@.len() == 3,
        r.accounts@[0].acct_is(b58_str_of(mint@), false, true),
        r.accounts@[1].acct_is(b58_str_of(destination@), false, true),
        r.accounts@[2].acct_is(b58_str_of(authority@), true, false),
        r.data@ == mint_to_data(amount),
{
    let mint_pk = Pubkey::new_from_array(mint.try_into().unwrap());
    let dest_pk = Pubkey::new_from_array(destination.try_into().unwrap());
    let auth_pk = Pubkey::new_from_array(authority.try_into().unwrap());
    let ix = spl_token::instruction::mint_to(&spl_token::id(), &mint_pk, &dest_pk, &auth_pk, &[], amount).unwrap();
    let accounts = ix.accounts.iter().map(|a| AccountMetaOut { pubkey: a.pubkey.to_string(), is_signer: a.is_signer, is_writable: a.is_writable }).collect();
    InstructionOut { program_id: ix.program_id.to_string(), accounts, data: ix.data }
}

/// Relies on `solana_sdk::system_instruction::transfer`: the system program id,
/// the funding account as writable signer, the recipient as writable, and the
/// bincode-serialized Transfer data.
#[verifier::external_body]
pub(crate) fn build_transfer(from: &[u8], to: &[u8], lamports: u64) -> (r: InstructionOut)
    requires
        from@.len() == 32,
        to@.len() == 32,
    ensures
        r.program_id@ == system_program_id_str(),
        r.accounts@.len() == 2,
        r.accounts@[0].acct_is(b58_str_of(from@), true, true),
        r.accounts@[1].acct_is(b58_str_of(to@), false, true),
        r.data@ == transfer_data(lamports),
{
    let from_pk = Pubkey::new_from_array(from.try_into().unwrap());
    let to_pk = Pubkey::new_from_array(to.try_into().unwrap());
    let ix = solana_sdk::system_instruction::transfer(&from_pk, &to_pk, lamports);
    let accounts = ix.accounts.iter().map(|a| AccountMetaOut { pubkey: a.pubkey.to_string(), is_signer: a.is_signer, is_writable: a.is_writable }).collect();
    InstructionOut { program_id: ix.program_id.to_string(), accounts, data: ix.data }
}

} // verus!
