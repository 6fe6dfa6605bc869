//! Properties that hold across the endpoints: the sign/verify round trip, the
//! uniform rejection of malformed public keys, out-of-range amounts, equal
//! transfer addresses, and suspicious free text.
use vstd::prelude::*;

verus! {

use crate::api::ApiError;
use crate::codec::{
    b58_bytes_of, lemma_b58_byte_len, lemma_b58_text_not_suspicious,
    lemma_b64_sig_text_not_suspicious,
};
use crate::handlers::{
    create_token_err, mint_token_err, send_sol_err, sign_err, sign_message, verify_err,
    verify_message,
};
use crate::sdk::{sig_of, valid_pubkey_spec};
use crate::text::suspicious_spec;
use vstd::utf8::encode_utf8;

/// Verifying composed with signing: whenever signing a message with a secret key
/// succeeds, verifying the returned signature text under the returned public key
/// succeeds and reports the signature valid; when signing fails, no answer comes
/// back.
pub fn sign_then_verify(message: String, secret: String) -> (r: Option<bool>)
    ensures
        sign_err(Some(message@), Some(secret@)) is None ==> r == Some(true),
        sign_err(Some(message@), Some(secret@)) is Some ==> r is None,
{
    let ghost m = message@;
    let ghost k = secret@;
    let sr = match sign_message(Some(message), Some(secret)) {
        Ok(v) => v,
        Err(_) => { return None },
    };
    proof {
        lemma_b58_text_not_suspicious(sr.public_key@);
        lemma_b58_byte_len(sr.public_key@);
        lemma_b64_sig_text_not_suspicious(sr.signature@, sig_of(b58_bytes_of(k), encode_utf8(m)));
    }
    match verify_message(Some(sr.message), Some(sr.signature), Some(sr.public_key)) {
        Ok(v) => Some(v.valid),
        Err(_) => None,
    }
}

/// A malformed public key is rejected where token creation accepts one, with a
/// message that starts with "Invalid", provided the earlier checks pass.
pub proof fn lemma_create_token_rejects_bad_pubkey(ma: Seq<char>, mint: Seq<char>, d: u8)
    requires
        !suspicious_spec(ma),
        !suspicious_spec(mint),
        d <= 9,
        !valid_pubkey_spec(ma) || !valid_pubkey_spec(mint),
    ensures
        create_token_err(Some(ma), Some(mint), Some(d)) is Some,
        !valid_pubkey_spec(ma) ==> create_token_err(Some(ma), Some(mint), Some(d)) == Some(
            ApiError::InvalidMintAuthority,
        ),
        valid_pubkey_spec(ma) ==> create_token_err(Some(ma), Some(mint), Some(d)) == Some(
            ApiError::InvalidMintAddress,
        ),
        create_token_err(Some(ma), Some(mint), Some(d))->0.text_spec().subrange(0, 7)
            == "Invalid"@,
{
    reveal_strlit("Invalid");
    reveal_strlit("Invalid mint authority");
    reveal_strlit("Invalid mint address");
    if !valid_pubkey_spec(ma) {
        assert(ApiError::InvalidMintAuthority.text_spec().subrange(0, 7) =~= "Invalid"@);
    } else {
        assert(ApiError::InvalidMintAddress.text_spec().subrange(0, 7) =~= "Invalid"@);
    }
}

/// A malformed public key is rejected where minting accepts one, with a
/// message that starts with "Invalid", provided the earlier checks pass.
pub proof fn lemma_mint_token_rejects_bad_pubkey(
    mint: Seq<char>,
    destination: Seq<char>,
    authority: Seq<char>,
    amount: u64,
)
    requires
        !suspicious_spec(mint),
        !suspicious_spec(destination),
        !suspicious_spec(authority),
        !valid_pubkey_spec(mint) || !valid_pubkey_spec(destination) || !valid_pubkey_spec(
            authority,
        ),
    ensures
        mint_token_err(Some(mint), Some(destination), Some(authority), Some(amount)) is Some,
        !valid_pubkey_spec(mint) ==> mint_token_err(
            Some(mint),
            Some(destination),
            Some(authority),
            Some(amount),
        ) == Some(ApiError::InvalidMintAddress),
        valid_pubkey_spec(mint) && !valid_pubkey_spec(destination) ==> mint_token_err(
            Some(mint),
            Some(destination),
            Some(authority),
            Some(amount),
        ) == Some(ApiError::InvalidDestinationAddress),
        valid_pubkey_spec(mint) && valid_pubkey_spec(destination) ==> mint_token_err(
            Some(mint),
            Some(destination),
            Some(authority),
            Some(amount),
        ) == Some(ApiError::InvalidAuthority),
        mint_token_err(Some(mint), Some(destination), Some(authority), Some(
            amount,
        ))->0.text_spec().subrange(0, 7) == "Invalid"@,
{
    reveal_strlit("Invalid");
    reveal_strlit("Invalid mint address");
    reveal_strlit("Invalid destination address");
    reveal_strlit("Invalid authority");
    if !valid_pubkey_spec(mint) {
        assert(ApiError::InvalidMintAddress.text_spec().subrange(0, 7) =~= "Invalid"@);
    } else if !valid_pubkey_spec(destination) {
        assert(ApiError::InvalidDestinationAddress.text_spec().subrange(0, 7) =~= "Invalid"@);
    } else {
        assert(ApiError::InvalidAuthority.text_spec().subrange(0, 7) =~= "Invalid"@);
    }
}

/// A malformed public key is rejected where signature verification accepts one,
/// with a message that starts with "Invalid", provided the earlier checks pass.
pub proof fn lemma_verify_rejects_bad_pubkey(
    message: Seq<char>,
    signature: Seq<char>,
    pubkey: Seq<char>,
)
    requires
        !suspicious_spec(message),
        !suspicious_spec(signature),
        !suspicious_spec(pubkey),
        !valid_pubkey_spec(pubkey),
    ensures
        verify_err(Some(message), Some(signature), Some(pubkey)) == Some(
            ApiError::InvalidPublicKey,
        ),
        ApiError::InvalidPublicKey.text_spec().subrange(0, 7) == "Invalid"@,
{
    reveal_strlit("Invalid");
    reveal_strlit("Invalid public key");
    assert(ApiError::InvalidPublicKey.text_spec().subrange(0, 7) =~= "Invalid"@);
}

/// A malformed address is rejected where the native transfer accepts one, with a
/// message that starts with "Invalid", provided the earlier checks pass.
pub proof fn lemma_send_sol_rejects_bad_pubkey(from: Seq<char>, to: Seq<char>, lamports: u64)
    requires
        !suspicious_spec(from),
        !suspicious_spec(to),
        !valid_pubkey_spec(from) || !valid_pubkey_spec(to),
    ensures
        send_sol_err(Some(from), Some(to), Some(lamports)) is Some,
        !valid_pubkey_spec(from) ==> send_sol_err(Some(from), Some(to), Some(lamports)) == Some(
            ApiError::InvalidFromAddress,
        ),
        valid_pubkey_spec(from) ==> send_sol_err(Some(from), Some(to), Some(lamports)) == Some(
            ApiError::InvalidToAddress,
        ),
        send_sol_err(Some(from), Some(to), Some(lamports))->0.text_spec().subrange(0, 7)
            == "Invalid"@,
{
    reveal_strlit("Invalid");
    reveal_strlit("Invalid from address");
    reveal_strlit("Invalid to address");
    if !valid_pubkey_spec(from) {
        assert(ApiError::InvalidFromAddress.text_spec().subrange(0, 7) =~= "Invalid"@);
    } else {
        assert(ApiError::InvalidToAddress.text_spec().subrange(0, 7) =~= "Invalid"@);
    }
}

/// A zero amount is rejected on minting, and an amount over the overflow guard is
/// rejected, once the fields and keys are in order.
pub proof fn lemma_mint_token_amount_bounds(
    mint: Seq<char>,
    destination: Seq<char>,
    authority: Seq<char>,
    amount: u64,
)
    requires
        !suspicious_spec(mint),
        !suspicious_spec(destination),
        !suspicious_spec(authority),
        valid_pubkey_spec(mint),
        valid_pubkey_spec(destination),
        valid_pubkey_spec(authority),
    ensures
        amount == 0 ==> mint_token_err(Some(mint), Some(destination), Some(authority), Some(
            amount,
        )) == Some(ApiError::AmountZero),
        amount > u64::MAX / 2 ==> mint_token_err(Some(mint), Some(destination), Some(authority),
            Some(amount),
        ) == Some(ApiError::AmountTooLarge),
{
}

/// A zero amount is rejected on the native transfer, and an amount over the
/// ceiling is rejected, once the fields and keys are in order.
pub proof fn lemma_send_sol_amount_bounds(from: Seq<char>, to: Seq<char>, lamports: u64)
    requires
        !suspicious_spec(from),
        !suspicious_spec(to),
        valid_pubkey_spec(from),
        valid_pubkey_spec(to),
    ensures
        lamports == 0 ==> send_sol_err(Some(from), Some(to), Some(lamports)) == Some(
            ApiError::AmountZero,
        ),
        lamports > 1000000000000000000u64 ==> send_sol_err(Some(from), Some(to), Some(lamports))
            == Some(ApiError::AmountTooLarge),
{
}

/// A transfer whose source and destination decode to the same 32 bytes is
/// rejected, once every other check passes.
pub proof fn lemma_send_sol_same_address(from: Seq<char>, to: Seq<char>, lamports: u64)
    requires
        !suspicious_spec(from),
        !suspicious_spec(to),
        valid_pubkey_spec(from),
        valid_pubkey_spec(to),
        0 < lamports <= 1000000000000000000u64,
        b58_bytes_of(from) == b58_bytes_of(to),
    ensures
        send_sol_err(Some(from), Some(to), Some(lamports)) == Some(ApiError::SameAddress),
{
}

/// Suspicious free text is rejected wherever an endpoint accepts it: any
/// suspicious field makes the whole request come back as missing fields.
pub proof fn lemma_suspicious_rejected(
    a: Seq<char>,
    b: Seq<char>,
    c: Seq<char>,
    d: Option<u8>,
    amount: Option<u64>,
)
    ensures
        suspicious_spec(a) || suspicious_spec(b) ==> create_token_err(Some(a), Some(b), d)
            == Some(ApiError::MissingFields),
        suspicious_spec(a) || suspicious_spec(b) || suspicious_spec(c) ==> mint_token_err(
            Some(a),
            Some(b),
            Some(c),
            amount,
        ) == Some(ApiError::MissingFields),
        suspicious_spec(a) || suspicious_spec(b) ==> sign_err(Some(a), Some(b)) == Some(
            ApiError::MissingFields,
        ),
        suspicious_spec(a) || suspicious_spec(b) || suspicious_spec(c) ==> verify_err(
            Some(a),
            Some(b),
            Some(c),
        ) == Some(ApiError::MissingFields),
        suspicious_spec(a) || suspicious_spec(b) ==> send_sol_err(Some(a), Some(b), amount)
            == Some(ApiError::MissingFields),
{
}

} // verus!
