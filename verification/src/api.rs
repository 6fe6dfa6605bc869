//! The request-handling surface: the error taxonomy shared by every endpoint and
//! the response shapes the handlers return.
use vstd::prelude::*;

verus! {

/// Every way a request can be rejected. Each maps to HTTP 400 with the message
/// `text_spec` gives.
#[derive(Clone, Copy, Debug, PartialEq, Eq, Structural)]
pub enum ApiError {
    MissingFields,
    InvalidDecimals,
    InvalidMintAuthority,
    InvalidMintAddress,
    InvalidDestinationAddress,
    InvalidAuthority,
    AmountZero,
    AmountTooLarge,
    SecretFormat,
    InvalidSecretKey,
    InvalidPublicKey,
    InvalidSignatureFormat,
    InvalidSignature,
    InvalidFromAddress,
    InvalidToAddress,
    SameAddress,
    NotImplemented,
}

impl ApiError {
    /// The human-readable message for each rejection.
    pub open spec fn text_spec(self) -> Seq<char> {
        match self {
            ApiError::MissingFields => "Missing required fields"@,
            ApiError::InvalidDecimals => "Invalid decimals value"@,
            ApiError::InvalidMintAuthority => "Invalid mint authority"@,
            ApiError::InvalidMintAddress => "Invalid mint address"@,
            ApiError::InvalidDestinationAddress => "Invalid destination address"@,
            ApiError::InvalidAuthority => "Invalid authority"@,
            ApiError::AmountZero => "Amount must be greater than 0"@,
            ApiError::AmountTooLarge => "Amount too large"@,
            ApiError::SecretFormat => "key format theek karo"@,
            ApiError::InvalidSecretKey => "Invalid secret key"@,
            ApiError::InvalidPublicKey => "Invalid public key"@,
            ApiError::InvalidSignatureFormat => "Invalid signature format"@,
            ApiError::InvalidSignature => "Invalid signature"@,
            ApiError::InvalidFromAddress => "Invalid from address"@,
            ApiError::InvalidToAddress => "Invalid to address"@,
            ApiError::SameAddress => "Cannot send to same address"@,
            ApiError::NotImplemented => "Token transfer endpoint not implemented"@,
        }
    }

    pub fn message(&self) -> (r: String)
        ensures
            r@ == self.text_spec(),
    {
        match self {
            ApiError::MissingFields => "Missing required fields".to_owned(),
            ApiError::InvalidDecimals => "Invalid decimals value".to_owned(),
            ApiError::InvalidMintAuthority => "Invalid mint authority".to_owned(),
            ApiError::InvalidMintAddress => "Invalid mint address".to_owned(),
            ApiError::InvalidDestinationAddress => "Invalid destination address".to_owned(),
            ApiError::InvalidAuthority => "Invalid authority".to_owned(),
            ApiError::AmountZero => "Amount must be greater than 0".to_owned(),
            ApiError::AmountTooLarge => "Amount too large".to_owned(),
            ApiError::SecretFormat => "key format theek karo".to_owned(),
            ApiError::InvalidSecretKey => "Invalid secret key".to_owned(),
            ApiError::InvalidPublicKey => "Invalid public key".to_owned(),
            ApiError::InvalidSignatureFormat => "Invalid signature format".to_owned(),
            ApiError::InvalidSignature => "Invalid signature".to_owned(),
            ApiError::InvalidFromAddress => "Invalid from address".to_owned(),
            ApiError::InvalidToAddress => "Invalid to address".to_owned(),
            ApiError::SameAddress => "Cannot send to same address".to_owned(),
            ApiError::NotImplemented => "Token transfer endpoint not implemented".to_owned(),
        }
    }
}

/// One account an instruction touches.
#[derive(Debug)]
pub struct AccountMetaOut {
    pub pubkey: String,
    pub is_signer: bool,
    pub is_writable: bool,
}

impl AccountMetaOut {
    /// The account has this base58 key and these flags.
    pub open spec fn acct_is(&self, pk: Seq<char>, signer: bool, writable: bool) -> bool {
        self.pubkey@ == pk && self.is_signer == signer && self.is_writable == writable
    }
}

/// A wire-format instruction as the SDK builds it, before serialization.
#[derive(Debug)]
pub struct InstructionOut {
    pub program_id: String,
    pub accounts: Vec<AccountMetaOut>,
    pub data: Vec<u8>,
}

/// A freshly generated keypair, both halves base58-encoded.
#[derive(Debug)]
pub struct KeypairOut {
    pub pubkey: String,
    pub secret: String,
}

/// An instruction with its payload base64-encoded, ready to serialize.
#[derive(Debug)]
pub struct InstructionResponse {
    pub program_id: String,
    pub accounts: Vec<AccountMetaOut>,
    pub instruction_data: String,
}

/// A signature over a message, with the signing key's public half.
#[derive(Debug)]
pub struct SignOut {
    pub signature: String,
    pub public_key: String,
    pub message: String,
}

/// The outcome of a signature check.
#[derive(Debug)]
pub struct VerifyOut {
    pub valid: bool,
    pub message: String,
    pub pubkey: String,
}

/// A native transfer instruction; the accounts are bare base58 keys.
#[derive(Debug)]
pub struct SolTransferOut {
    pub program_id: String,
    pub accounts: Vec<String>,
    pub instruction_data: String,
}

} // verus!
