//! The endpoint operations: each validates its fields in the original order and
//! delegates to the SDK wrappers, with a contract that pins the exact error or
//! the exact response for every input.
use vstd::prelude::*;

verus! {

use crate::api::{
    ApiError, InstructionResponse, KeypairOut, SignOut, SolTransferOut, VerifyOut,
};
use crate::codec::{
    b58_bytes_of, b58_encode, b58_encoding_of, b58_str_of, b64_decode, b64_decode_of, b64_encode,
    b64_encoding_of, b58_decode, is_valid_base58, is_valid_base64, valid_base58_spec,
    valid_base64_spec,
};
use crate::sdk::{
    build_initialize_mint, build_mint_to, build_transfer, generate_keypair_bytes, init_mint_data,
    is_valid_pubkey, keypair_bytes_ok, keypair_ok, mint_to_data, rent_sysvar_str, sig_of,
    sig_verify_of, sign_message_bytes, system_program_id_str, token_program_id_str, transfer_data,
    valid_pubkey_spec, verify_signature_bytes,
};
use crate::text::{is_suspicious_text, suspicious_spec};
use vstd::utf8::encode_utf8;

/// The view of an optional request field.
pub open spec fn opt_view(o: Option<String>) -> Option<Seq<char>> {
    match o {
        Option::Some(s) => Option::Some(s@),
        Option::None => Option::None,
    }
}

fn bytes_eq(a: &[u8], b: &[u8]) -> (r: bool)
    ensures
        r == (a@ == b@),
{
    let n = a.len();
    if n != b.len() {
        return false;
    }
    let mut i: usize = 0;
    while i < n
        invariant
            n == a@.len(),
            n == b@.len(),
            i <= n,
            forall|j: int| 0 <= j < i ==> a@[j] == b@[j],
        decreases n - i,
    {
        if a[i] != b[i] {
            return false;
        }
        i = i + 1;
    }
    proof {
        assert(a@ =~= b@);
    }
    true
}

fn bytes_range(v: &[u8], from: usize, to: usize) -> (r: Vec<u8>)
    requires
        from <= to <= v@.len(),
    ensures
        r@ == v@.subrange(from as int, to as int),
{
    let mut r: Vec<u8> = Vec::new();
    let mut i: usize = from;
    while i < to
        invariant
            from <= i <= to <= v@.len(),
            r@ =~= v@.subrange(from as int, i as int),
        decreases to - i,
    {
        r.push(v[i]);
        i = i + 1;
        proof {
            assert(r@ =~= v@.subrange(from as int, i as int));
        }
    }
    proof {
        assert(r@ =~= v@.subrange(from as int, to as int));
    }
    r
}

/// Generate a fresh keypair; both halves come back base58-encoded, the public
/// half being the upper 32 bytes of the keypair.
pub fn generate_keypair() -> (r: KeypairOut)
    ensures
        exists|kp: Seq<u8>|
            {
                &&& #[trigger] keypair_ok(kp)
                &&& b58_encoding_of(r.secret@, kp)
                &&& b58_encoding_of(r.pubkey@, kp.subrange(32, 64))
            },
{
    let kb = generate_keypair_bytes();
    let secret = b58_encode(kb.as_slice());
    let pub_half = bytes_range(kb.as_slice(), 32, 64);
    let pubkey = b58_encode(pub_half.as_slice());
    let r = KeypairOut { pubkey, secret };
    proof {
        assert(keypair_ok(kb@));
    }
    r
}

/// The rejection `create_token` owes each input, in the order the checks run.
pub open spec fn create_token_err(
    mint_authority: Option<Seq<char>>,
    mint: Option<Seq<char>>,
    decimals: Option<u8>,
) -> Option<ApiError> {
    if mint_authority is None || mint is None || decimals is None {
        Some(ApiError::MissingFields)
    } else if suspicious_spec(mint_authority->0) || suspicious_spec(mint->0) {
        Some(ApiError::MissingFields)
    } else if decimals->0 > 9 {
        Some(ApiError::InvalidDecimals)
    } else if !valid_pubkey_spec(mint_authority->0) {
        Some(ApiError::InvalidMintAuthority)
    } else if !valid_pubkey_spec(mint->0) {
        Some(ApiError::InvalidMintAddress)
    } else {
        None
    }
}

/// Build the initialize-mint instruction, or the exact rejection
/// `create_token_err` gives.
pub fn create_token(mint_authority: Option<String>, mint: Option<String>, decimals: Option<u8>)
    -> (r: Result<InstructionResponse, ApiError>)
    ensures
        r is Err <==> create_token_err(opt_view(mint_authority), opt_view(mint), decimals)
            is Some,
        r is Err ==> Some(r->Err_0) == create_token_err(
            opt_view(mint_authority),
            opt_view(mint),
            decimals,
        ),
        r is Ok ==> ({
            let resp = r->Ok_0;
            let mab = b58_bytes_of(mint_authority->0@);
            let mb = b58_bytes_of(mint->0@);
            &&& resp.program_id@ == token_program_id_str()
            &&& resp.accounts@.len() == 2
            &&& resp.accounts@[0].acct_is(b58_str_of(mb), false, true)
            &&& resp.accounts@[0].pubkey@ == mint->0@
            &&& resp.accounts@[1].acct_is(rent_sysvar_str(), false, false)
            &&& b64_encoding_of(resp.instruction_data@, init_mint_data(decimals->0, mab))
        }),
{
    let ma_s = match mint_authority {
        Some(s) => s,
        None => { return Err(ApiError::MissingFields) },
    };
    let mint_s = match mint {
        Some(s) => s,
        None => { return Err(ApiError::MissingFields) },
    };
    let d = match decimals {
        Some(v) => v,
        None => { return Err(ApiError::MissingFields) },
    };
    if is_suspicious_text(ma_s.as_str()) || is_suspicious_text(mint_s.as_str()) {
        return Err(ApiError::MissingFields);
    }
    if d > 9 {
        return Err(ApiError::InvalidDecimals);
    }
    if !is_valid_pubkey(ma_s.as_str()) {
        return Err(ApiError::InvalidMintAuthority);
    }
    if !is_valid_pubkey(mint_s.as_str()) {
        return Err(ApiError::InvalidMintAddress);
    }
    let ma_bytes = b58_decode(ma_s.as_str()).unwrap();
    let mint_bytes = b58_decode(mint_s.as_str()).unwrap();
    let ix = build_initialize_mint(mint_bytes.as_slice(), ma_bytes.as_slice(), d);
    let data_b64 = b64_encode(ix.data.as_slice());
    Ok(
        InstructionResponse {
            program_id: ix.program_id,
            accounts: ix.accounts,
            instruction_data: data_b64,
        },
    )
}

/// The rejection `mint_token` owes each input, in the order the checks run.
pub open spec fn mint_token_err(
    mint: Option<Seq<char>>,
    destination: Option<Seq<char>>,
    authority: Option<Seq<char>>,
    amount: Option<u64>,
) -> Option<ApiError> {
    if mint is None || destination is None || authority is None || amount is None {
        Some(ApiError::MissingFields)
    } else if suspicious_spec(mint->0) || suspicious_spec(destination->0) || suspicious_spec(
        authority->0,
    ) {
        Some(ApiError::MissingFields)
    } else if !valid_pubkey_spec(mint->0) {
        Some(ApiError::InvalidMintAddress)
    } else if !valid_pubkey_spec(destination->0) {
        Some(ApiError::InvalidDestinationAddress)
    } else if !valid_pubkey_spec(authority->0) {
        Some(ApiError::InvalidAuthority)
    } else if amount->0 == 0 {
        Some(ApiError::AmountZero)
    } else if amount->0 > u64::MAX / 2 {
        Some(ApiError::AmountTooLarge)
    } else {
        None
    }
}

/// Build the mint-to instruction, or the exact rejection `mint_token_err` gives.
pub fn mint_token(
    mint: Option<String>,
    destination: Option<String>,
    authority: Option<String>,
    amount: Option<u64>,
) -> (r: Result<InstructionResponse, ApiError>)
    ensures
        r is Err <==> mint_token_err(
            opt_view(mint),
            opt_view(destination),
            opt_view(authority),
            amount,
        ) is Some,
        r is Err ==> Some(r->Err_0) == mint_token_err(
            opt_view(mint),
            opt_view(destination),
            opt_view(authority),
            amount,
        ),
        r is Ok ==> ({
            let resp = r->Ok_0;
            let mb = b58_bytes_of(mint->0@);
            let db = b58_bytes_of(destination->0@);
            let ab = b58_bytes_of(authority->0@);
            &&& resp.program_id@ == token_program_id_str()
            &&& resp.accounts@.len() == 3
            &&& resp.accounts@[0].acct_is(b58_str_of(mb), false, true)
            &&& resp.accounts@[1].acct_is(b58_str_of(db), false, true)
            &&& resp.accounts@[2].acct_is(b58_str_of(ab), true, false)
            &&& resp.accounts@[0].pubkey@ == mint->0@
            &&& resp.accounts@[1].pubkey@ == destination->0@
            &&& resp.accounts@[2].pubkey@ == authority->0@
            &&& b64_encoding_of(resp.instruction_data@, mint_to_data(amount->0))
        }),
{
    let mint_s = match mint {
        Some(s) => s,
        None => { return Err(ApiError::MissingFields) },
    };
    let dest_s = match destination {
        Some(s) => s,
        None => { return Err(ApiError::MissingFields) },
    };
    let auth_s = match authority {
        Some(s) => s,
        None => { return Err(ApiError::MissingFields) },
    };
    let amt = match amount {
        Some(v) => v,
        None => { return Err(ApiError::MissingFields) },
    };
    if is_suspicious_text(mint_s.as_str()) || is_suspicious_text(dest_s.as_str())
        || is_suspicious_text(auth_s.as_str()) {
        return Err(ApiError::MissingFields);
    }
    if !is_valid_pubkey(mint_s.as_str()) {
        return Err(ApiError::InvalidMintAddress);
    }
    if !is_valid_pubkey(dest_s.as_str()) {
        return Err(ApiError::InvalidDestinationAddress);
    }
    if !is_valid_pubkey(auth_s.as_str()) {
        return Err(ApiError::InvalidAuthority);
    }
    if amt == 0 {
        return Err(ApiError::AmountZero);
    }
    if amt > u64::MAX / 2 {
        return Err(ApiError::AmountTooLarge);
    }
    let mint_bytes = b58_decode(mint_s.as_str()).unwrap();
    let dest_bytes = b58_decode(dest_s.as_str()).unwrap();
    let auth_bytes = b58_decode(auth_s.as_str()).unwrap();
    let ix = build_mint_to(
        mint_bytes.as_slice(),
        dest_bytes.as_slice(),
        auth_bytes.as_slice(),
        amt,
    );
    let data_b64 = b64_encode(ix.data.as_slice());
    Ok(
        InstructionResponse {
            program_id: ix.program_id,
            accounts: ix.accounts,
            instruction_data: data_b64,
        },
    )
}

/// The rejection `sign_message` owes each input, in the order the checks run.
pub open spec fn sign_err(message: Option<Seq<char>>, secret: Option<Seq<char>>) -> Option<
    ApiError,
> {
    if message is None || secret is None {
        Some(ApiError::MissingFields)
    } else if suspicious_spec(message->0) || suspicious_spec(secret->0) {
        Some(ApiError::MissingFields)
    } else if !valid_base58_spec(secret->0) {
        Some(ApiError::SecretFormat)
    } else if !keypair_ok(b58_bytes_of(secret->0)) {
        Some(ApiError::InvalidSecretKey)
    } else {
        None
    }
}

/// Sign the message with the base58-decoded secret key, or give the exact
/// rejection `sign_err` names. On success the signature comes back in base64,
/// the public key in base58, and the signature verifies under that key.
pub fn sign_message(message: Option<String>, secret: Option<String>) -> (r: Result<
    SignOut,
    ApiError,
>)
    ensures
        r is Err <==> sign_err(opt_view(message), opt_view(secret)) is Some,
        r is Err ==> Some(r->Err_0) == sign_err(opt_view(message), opt_view(secret)),
        r is Ok ==> ({
            let kp = b58_bytes_of(secret->0@);
            let msg_bytes = encode_utf8(message->0@);
            let sig = sig_of(kp, msg_bytes);
            &&& keypair_ok(kp)
            &&& sig.len() == 64
            &&& b64_encoding_of(r->Ok_0.signature@, sig)
            &&& b58_encoding_of(r->Ok_0.public_key@, kp.subrange(32, 64))
            &&& r->Ok_0.message@ == message->0@
            &&& sig_verify_of(kp.subrange(32, 64), msg_bytes, sig)
        }),
{
    let msg = match message {
        Some(s) => s,
        None => { return Err(ApiError::MissingFields) },
    };
    let secret_s = match secret {
        Some(s) => s,
        None => { return Err(ApiError::MissingFields) },
    };
    if is_suspicious_text(msg.as_str()) || is_suspicious_text(secret_s.as_str()) {
        return Err(ApiError::MissingFields);
    }
    if !is_valid_base58(secret_s.as_str()) {
        return Err(ApiError::SecretFormat);
    }
    let sb = b58_decode(secret_s.as_str()).unwrap();
    if sb.len() != 64 {
        return Err(ApiError::InvalidSecretKey);
    }
    if !keypair_bytes_ok(sb.as_slice()) {
        return Err(ApiError::InvalidSecretKey);
    }
    let sig = sign_message_bytes(sb.as_slice(), msg.as_str());
    let sig_b64 = b64_encode(sig.as_slice());
    let pub_half = bytes_range(sb.as_slice(), 32, 64);
    let pk_str = b58_encode(pub_half.as_slice());
    Ok(SignOut { signature: sig_b64, public_key: pk_str, message: msg })
}

/// The rejection `verify_message` owes each input, in the order the checks run.
pub open spec fn verify_err(
    message: Option<Seq<char>>,
    signature: Option<Seq<char>>,
    pubkey: Option<Seq<char>>,
) -> Option<ApiError> {
    if message is None || signature is None || pubkey is None {
        Some(ApiError::MissingFields)
    } else if suspicious_spec(message->0) || suspicious_spec(signature->0) || suspicious_spec(
        pubkey->0,
    ) {
        Some(ApiError::MissingFields)
    } else if !valid_pubkey_spec(pubkey->0) {
        Some(ApiError::InvalidPublicKey)
    } else if !valid_base64_spec(signature->0) {
        Some(ApiError::InvalidSignatureFormat)
    } else if b64_decode_of(signature->0)->0.len() != 64 {
        Some(ApiError::InvalidSignature)
    } else {
        None
    }
}

/// What the signature check reports for well-formed inputs.
pub open spec fn verify_valid_spec(
    message: Seq<char>,
    signature: Seq<char>,
    pubkey: Seq<char>,
) -> bool {
    sig_verify_of(b58_bytes_of(pubkey), encode_utf8(message), b64_decode_of(signature)->0)
}

/// Check the base64 signature over the message under the base58 public key, or
/// give the exact rejection `verify_err` names. A wrong signature is not an
/// error: it comes back as `valid == false`.
pub fn verify_message(message: Option<String>, signature: Option<String>, pubkey: Option<String>)
    -> (r: Result<VerifyOut, ApiError>)
    ensures
        r is Err <==> verify_err(opt_view(message), opt_view(signature), opt_view(pubkey))
            is Some,
        r is Err ==> Some(r->Err_0) == verify_err(
            opt_view(message),
            opt_view(signature),
            opt_view(pubkey),
        ),
        r is Ok ==> ({
            &&& r->Ok_0.valid == verify_valid_spec(message->0@, signature->0@, pubkey->0@)
            &&& r->Ok_0.message@ == message->0@
            &&& r->Ok_0.pubkey@ == pubkey->0@
        }),
{
    let msg = match message {
        Some(s) => s,
        None => { return Err(ApiError::MissingFields) },
    };
    let sig_s = match signature {
        Some(s) => s,
        None => { return Err(ApiError::MissingFields) },
    };
    let pk_s = match pubkey {
        Some(s) => s,
        None => { return Err(ApiError::MissingFields) },
    };
    if is_suspicious_text(msg.as_str()) || is_suspicious_text(sig_s.as_str())
        || is_suspicious_text(pk_s.as_str()) {
        return Err(ApiError::MissingFields);
    }
    if !is_valid_pubkey(pk_s.as_str()) {
        return Err(ApiError::InvalidPublicKey);
    }
    if !is_valid_base64(sig_s.as_str()) {
        return Err(ApiError::InvalidSignatureFormat);
    }
    let pk_bytes = b58_decode(pk_s.as_str()).unwrap();
    let sig_bytes = b64_decode(sig_s.as_str()).unwrap();
    if sig_bytes.len() != 64 {
        return Err(ApiError::InvalidSignature);
    }
    let valid = verify_signature_bytes(pk_bytes.as_slice(), msg.as_str(), sig_bytes.as_slice());
    Ok(VerifyOut { valid, message: msg, pubkey: pk_s })
}

/// The rejection `send_sol` owes each input, in the order the checks run.
pub open spec fn send_sol_err(
    from: Option<Seq<char>>,
    to: Option<Seq<char>>,
    lamports: Option<u64>,
) -> Option<ApiError> {
    if from is None || to is None || lamports is None {
        Some(ApiError::MissingFields)
    } else if suspicious_spec(from->0) || suspicious_spec(to->0) {
        Some(ApiError::MissingFields)
    } else if !valid_pubkey_spec(from->0) {
        Some(ApiError::InvalidFromAddress)
    } else if !valid_pubkey_spec(to->0) {
        Some(ApiError::InvalidToAddress)
    } else if lamports->0 == 0 {
        Some(ApiError::AmountZero)
    } else if lamports->0 > 1000000000000000000u64 {
        Some(ApiError::AmountTooLarge)
    } else if b58_bytes_of(from->0) == b58_bytes_of(to->0) {
        Some(ApiError::SameAddress)
    } else {
        None
    }
}

/// Build the native transfer instruction, or the exact rejection `send_sol_err`
/// gives. Source and destination must differ as 32-byte keys.
pub fn send_sol(from: Option<String>, to: Option<String>, lamports: Option<u64>) -> (r: Result<
    SolTransferOut,
    ApiError,
>)
    ensures
        r is Err <==> send_sol_err(opt_view(from), opt_view(to), lamports) is Some,
        r is Err ==> Some(r->Err_0) == send_sol_err(opt_view(from), opt_view(to), lamports),
        r is Ok ==> ({
            let resp = r->Ok_0;
            let fb = b58_bytes_of(from->0@);
            let tb = b58_bytes_of(to->0@);
            &&& resp.program_id@ == system_program_id_str()
            &&& resp.accounts@.len() == 2
            &&& resp.accounts@[0]@ == b58_str_of(fb)
            &&& resp.accounts@[1]@ == b58_str_of(tb)
            &&& resp.accounts@[0]@ == from->0@
            &&& resp.accounts@[1]@ == to->0@
            &&& b64_encoding_of(resp.instruction_data@, transfer_data(lamports->0))
        }),
{
    let from_s = match from {
        Some(s) => s,
        None => { return Err(ApiError::MissingFields) },
    };
    let to_s = match to {
        Some(s) => s,
        None => { return Err(ApiError::MissingFields) },
    };
    let amt = match lamports {
        Some(v) => v,
        None => { return Err(ApiError::MissingFields) },
    };
    if is_suspicious_text(from_s.as_str()) || is_suspicious_text(to_s.as_str()) {
        return Err(ApiError::MissingFields);
    }
    if !is_valid_pubkey(from_s.as_str()) {
        return Err(ApiError::InvalidFromAddress);
    }
    if !is_valid_pubkey(to_s.as_str()) {
        return Err(ApiError::InvalidToAddress);
    }
    if amt == 0 {
        return Err(ApiError::AmountZero);
    }
    if amt > 1000000000000000000u64 {
        return Err(ApiError::AmountTooLarge);
    }
    let from_bytes = b58_decode(from_s.as_str()).unwrap();
    let to_bytes = b58_decode(to_s.as_str()).unwrap();
    if bytes_eq(from_bytes.as_slice(), to_bytes.as_slice()) {
        return Err(ApiError::SameAddress);
    }
    let ix = build_transfer(from_bytes.as_slice(), to_bytes.as_slice(), amt);
    let data_b64 = b64_encode(ix.data.as_slice());
    let mut accounts: Vec<String> = Vec::new();
    let mut i: usize = 0;
    while i < ix.accounts.len()
        invariant
            i <= ix.accounts@.len(),
            accounts@.len() == i,
            forall|j: int| 0 <= j < i ==> accounts@[j]@ == ix.accounts@[j].pubkey@,
        decreases ix.accounts@.len() - i,
    {
        accounts.push(ix.accounts[i].pubkey.clone());
        i = i + 1;
    }
    Ok(
        SolTransferOut {
            program_id: ix.program_id,
            accounts,
            instruction_data: data_b64,
        },
    )
}

/// The token-transfer endpoint is not implemented: every request is rejected the
/// same way, whatever the fields hold.
pub fn send_token(
    destination: Option<String>,
    mint: Option<String>,
    owner: Option<String>,
    amount: Option<u64>,
) -> (r: Result<(), ApiError>)
    ensures
        r is Err,
        r->Err_0 == ApiError::NotImplemented,
{
    let _ = destination;
    let _ = mint;
    let _ = owner;
    let _ = amount;
    Err(ApiError::NotImplemented)
}

} // verus!
