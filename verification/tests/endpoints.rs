use base64::Engine;
use solana_sdk::signature::{Keypair, Signer};
use solana_service::api::ApiError;
use solana_service::handlers::{
    create_token, generate_keypair, mint_token, send_sol, send_token, sign_message,
    verify_message,
};
use solana_service::laws::sign_then_verify;
use solana_service::sdk::is_valid_pubkey;

const SYSTEM: &str = "11111111111111111111111111111111";
const TOKEN_PROGRAM: &str = "TokenkegQfeZyiNwAJbNbGKPFXCWuBvf9Ss623VQ5DA";
const RENT: &str = "SysvarRent111111111111111111111111111111111";

fn field(s: &str) -> Option<String> {
    Some(s.to_string())
}

fn b64(bytes: &[u8]) -> String {
    base64::engine::general_purpose::STANDARD.encode(bytes)
}

#[test]
fn keypair_halves_are_consistent() {
    let kp = generate_keypair();
    let secret = bs58::decode(&kp.secret).into_vec().unwrap();
    assert_eq!(secret.len(), 64);
    assert!(is_valid_pubkey(&kp.pubkey));
    assert_eq!(kp.pubkey, bs58::encode(&secret[32..64]).into_string());
}

#[test]
fn create_token_builds_the_initialize_mint_instruction() {
    let resp = create_token(field(TOKEN_PROGRAM), field(SYSTEM), Some(6)).unwrap();
    assert_eq!(resp.program_id, TOKEN_PROGRAM);
    assert_eq!(resp.accounts.len(), 2);
    assert_eq!(resp.accounts[0].pubkey, SYSTEM);
    assert!(!resp.accounts[0].is_signer);
    assert!(resp.accounts[0].is_writable);
    assert_eq!(resp.accounts[1].pubkey, RENT);
    assert!(!resp.accounts[1].is_signer);
    assert!(!resp.accounts[1].is_writable);
    let authority = bs58::decode(TOKEN_PROGRAM).into_vec().unwrap();
    let mut expected = vec![0u8, 6u8];
    expected.extend_from_slice(&authority);
    expected.push(0u8);
    assert_eq!(resp.instruction_data, b64(&expected));
}

#[test]
fn create_token_rejects_missing_fields() {
    let e = create_token(None, field(SYSTEM), Some(6)).unwrap_err();
    assert_eq!(e, ApiError::MissingFields);
    assert_eq!(e.message(), "Missing required fields");
    assert_eq!(
        create_token(field(SYSTEM), None, Some(6)).unwrap_err(),
        ApiError::MissingFields
    );
    assert_eq!(
        create_token(field(SYSTEM), field(SYSTEM), None).unwrap_err(),
        ApiError::MissingFields
    );
}

#[test]
fn create_token_rejects_bad_decimals() {
    let e = create_token(field(TOKEN_PROGRAM), field(SYSTEM), Some(10)).unwrap_err();
    assert_eq!(e, ApiError::InvalidDecimals);
    assert_eq!(e.message(), "Invalid decimals value");
    assert!(create_token(field(TOKEN_PROGRAM), field(SYSTEM), Some(9)).is_ok());
}

#[test]
fn create_token_rejects_bad_pubkeys() {
    let e = create_token(field("not a key"), field(SYSTEM), Some(6)).unwrap_err();
    assert_eq!(e, ApiError::InvalidMintAuthority);
    assert_eq!(e.message(), "Invalid mint authority");
    let e = create_token(field(TOKEN_PROGRAM), field("abc"), Some(6)).unwrap_err();
    assert_eq!(e, ApiError::InvalidMintAddress);
    assert_eq!(e.message(), "Invalid mint address");
}

#[test]
fn create_token_rejects_suspicious_text() {
    let e = create_token(field("\"; drop table"), field(SYSTEM), Some(6)).unwrap_err();
    assert_eq!(e, ApiError::MissingFields);
    let e = create_token(field(TOKEN_PROGRAM), field("<script>"), Some(6)).unwrap_err();
    assert_eq!(e, ApiError::MissingFields);
}

#[test]
fn mint_token_builds_the_mint_to_instruction() {
    let authority = generate_keypair().pubkey;
    let resp = mint_token(
        field(TOKEN_PROGRAM),
        field(SYSTEM),
        field(&authority),
        Some(1_000_000),
    )
    .unwrap();
    assert_eq!(resp.program_id, TOKEN_PROGRAM);
    assert_eq!(resp.accounts.len(), 3);
    assert_eq!(resp.accounts[0].pubkey, TOKEN_PROGRAM);
    assert!(!resp.accounts[0].is_signer && resp.accounts[0].is_writable);
    assert_eq!(resp.accounts[1].pubkey, SYSTEM);
    assert!(!resp.accounts[1].is_signer && resp.accounts[1].is_writable);
    assert_eq!(resp.accounts[2].pubkey, authority);
    assert!(resp.accounts[2].is_signer && !resp.accounts[2].is_writable);
    let mut expected = vec![7u8];
    expected.extend_from_slice(&1_000_000u64.to_le_bytes());
    assert_eq!(resp.instruction_data, b64(&expected));
}

#[test]
fn mint_token_rejects_bad_pubkeys() {
    let e = mint_token(field("??"), field(SYSTEM), field(SYSTEM), Some(5)).unwrap_err();
    assert_eq!(e, ApiError::InvalidMintAddress);
    assert_eq!(e.message(), "Invalid mint address");
    let e = mint_token(field(SYSTEM), field("??"), field(SYSTEM), Some(5)).unwrap_err();
    assert_eq!(e, ApiError::InvalidDestinationAddress);
    assert_eq!(e.message(), "Invalid destination address");
    let e = mint_token(field(SYSTEM), field(SYSTEM), field("??"), Some(5)).unwrap_err();
    assert_eq!(e, ApiError::InvalidAuthority);
    assert_eq!(e.message(), "Invalid authority");
}

#[test]
fn mint_token_rejects_amounts_out_of_range() {
    let e = mint_token(field(TOKEN_PROGRAM), field(SYSTEM), field(RENT), Some(0)).unwrap_err();
    assert_eq!(e, ApiError::AmountZero);
    assert_eq!(e.message(), "Amount must be greater than 0");
    let e = mint_token(
        field(TOKEN_PROGRAM),
        field(SYSTEM),
        field(RENT),
        Some(u64::MAX / 2 + 1),
    )
    .unwrap_err();
    assert_eq!(e, ApiError::AmountTooLarge);
    assert_eq!(e.message(), "Amount too large");
    assert!(mint_token(
        field(TOKEN_PROGRAM),
        field(SYSTEM),
        field(RENT),
        Some(u64::MAX / 2)
    )
    .is_ok());
}

#[test]
fn sign_message_matches_the_sdk_signature() {
    let keypair = Keypair::new_from_array([7u8; 32]);
    let secret = bs58::encode(keypair.to_bytes()).into_string();
    let resp = sign_message(field("Hello, Solana!"), field(&secret)).unwrap();
    let expected = keypair.sign_message("Hello, Solana!".as_bytes());
    assert_eq!(resp.signature, b64(expected.as_ref()));
    assert_eq!(resp.public_key, keypair.pubkey().to_string());
    assert_eq!(resp.message, "Hello, Solana!");
}

#[test]
fn sign_message_rejects_bad_secrets() {
    let e = sign_message(field("hi there"), field("!!!!")).unwrap_err();
    assert_eq!(e, ApiError::SecretFormat);
    assert_eq!(e.message(), "key format theek karo");
    // Well-formed base58, wrong length.
    let short = bs58::encode(&[1u8, 2, 3]).into_string();
    let e = sign_message(field("hi there"), field(&short)).unwrap_err();
    assert_eq!(e, ApiError::InvalidSecretKey);
    assert_eq!(e.message(), "Invalid secret key");
    // 64 bytes whose upper half is not the derived public key.
    let inconsistent = bs58::encode(&[0u8; 64]).into_string();
    let e = sign_message(field("hi there"), field(&inconsistent)).unwrap_err();
    assert_eq!(e, ApiError::InvalidSecretKey);
    // Suspicious message text.
    let keypair = Keypair::new_from_array([7u8; 32]);
    let secret = bs58::encode(keypair.to_bytes()).into_string();
    let e = sign_message(field("union select *"), field(&secret)).unwrap_err();
    assert_eq!(e, ApiError::MissingFields);
}

#[test]
fn verify_accepts_a_signature_produced_by_sign() {
    let keypair = Keypair::new_from_array([9u8; 32]);
    let secret = bs58::encode(keypair.to_bytes()).into_string();
    let signed = sign_message(field("round trip"), field(&secret)).unwrap();
    let resp = verify_message(
        Some(signed.message),
        Some(signed.signature),
        Some(signed.public_key),
    )
    .unwrap();
    assert!(resp.valid);
    assert_eq!(resp.message, "round trip");
    assert_eq!(resp.pubkey, keypair.pubkey().to_string());
}

#[test]
fn verify_reports_a_wrong_signature_as_invalid_not_an_error() {
    let keypair = Keypair::new_from_array([9u8; 32]);
    let secret = bs58::encode(keypair.to_bytes()).into_string();
    let signed = sign_message(field("original text"), field(&secret)).unwrap();
    // Same signature, another message.
    let resp = verify_message(
        field("another text"),
        Some(signed.signature.clone()),
        Some(signed.public_key.clone()),
    )
    .unwrap();
    assert!(!resp.valid);
    // Same message, another key.
    let other = Keypair::new_from_array([11u8; 32]);
    let resp = verify_message(
        field("original text"),
        Some(signed.signature),
        Some(other.pubkey().to_string()),
    )
    .unwrap();
    assert!(!resp.valid);
}

#[test]
fn verify_rejects_malformed_inputs() {
    let sig64 = b64(&[1u8; 64]);
    let e = verify_message(field("hi there"), field(&sig64), field("not@key")).unwrap_err();
    assert_eq!(e, ApiError::InvalidPublicKey);
    assert_eq!(e.message(), "Invalid public key");
    let e = verify_message(field("hi there"), field("%%%"), field(SYSTEM)).unwrap_err();
    assert_eq!(e, ApiError::InvalidSignatureFormat);
    assert_eq!(e.message(), "Invalid signature format");
    let short = b64(&[1u8; 10]);
    let e = verify_message(field("hi there"), field(&short), field(SYSTEM)).unwrap_err();
    assert_eq!(e, ApiError::InvalidSignature);
    assert_eq!(e.message(), "Invalid signature");
}

#[test]
fn sign_then_verify_reports_valid() {
    let keypair = Keypair::new_from_array([13u8; 32]);
    let secret = bs58::encode(keypair.to_bytes()).into_string();
    let r = sign_then_verify("compose the two".to_string(), secret);
    assert_eq!(r, Some(true));
}

#[test]
fn send_sol_builds_the_transfer_instruction() {
    let resp = send_sol(field(TOKEN_PROGRAM), field(RENT), Some(42)).unwrap();
    assert_eq!(resp.program_id, SYSTEM);
    assert_eq!(resp.accounts, vec![TOKEN_PROGRAM.to_string(), RENT.to_string()]);
    let mut expected = vec![2u8, 0, 0, 0];
    expected.extend_from_slice(&42u64.to_le_bytes());
    assert_eq!(resp.instruction_data, b64(&expected));
}

#[test]
fn send_sol_rejects_equal_addresses() {
    let e = send_sol(field(TOKEN_PROGRAM), field(TOKEN_PROGRAM), Some(42)).unwrap_err();
    assert_eq!(e, ApiError::SameAddress);
    assert_eq!(e.message(), "Cannot send to same address");
}

#[test]
fn send_sol_rejects_amounts_out_of_range() {
    let e = send_sol(field(TOKEN_PROGRAM), field(RENT), Some(0)).unwrap_err();
    assert_eq!(e, ApiError::AmountZero);
    let e = send_sol(
        field(TOKEN_PROGRAM),
        field(RENT),
        Some(1_000_000_000_000_000_001),
    )
    .unwrap_err();
    assert_eq!(e, ApiError::AmountTooLarge);
    assert!(send_sol(field(TOKEN_PROGRAM), field(RENT), Some(1_000_000_000_000_000_000)).is_ok());
}

#[test]
fn send_sol_rejects_bad_addresses() {
    let e = send_sol(field("bogus key"), field(RENT), Some(5)).unwrap_err();
    assert_eq!(e, ApiError::InvalidFromAddress);
    assert_eq!(e.message(), "Invalid from address");
    let e = send_sol(field(TOKEN_PROGRAM), field("bogus key"), Some(5)).unwrap_err();
    assert_eq!(e, ApiError::InvalidToAddress);
    assert_eq!(e.message(), "Invalid to address");
}

#[test]
fn send_token_is_not_implemented() {
    let e = send_token(field(SYSTEM), field(TOKEN_PROGRAM), field(RENT), Some(5)).unwrap_err();
    assert_eq!(e, ApiError::NotImplemented);
    assert_eq!(e.message(), "Token transfer endpoint not implemented");
    let e = send_token(None, None, None, None).unwrap_err();
    assert_eq!(e, ApiError::NotImplemented);
}
