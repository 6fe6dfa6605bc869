//! A small request-handling library for a token service: field validation
//! (base58, base64, public-key shape, free-text safety), instruction
//! construction for mint creation, minting and native transfers, and message
//! signing and verification, all in front of the blockchain SDK.
pub mod api;
pub mod codec;
pub mod handlers;
pub mod laws;
pub mod sdk;
pub mod text;
