//! Wire-level message schema for the CTAP2 "get assertion" command.
//!
//! The command's parameters and its result travel as ordered, positionally
//! indexed maps: each field of a schema type is assigned the key
//! `offset + declaration position`, absent optional fields are omitted
//! entirely (never encoded as a null marker), and decoders accept any
//! strict-ascending subsequence of the schema's keys.  This crate defines
//! the request and response schemas, the negotiated extension payloads,
//! and the staged response builder, together with verified encoders and
//! decoders over an abstract map model and proofs of their round-trip and
//! omission laws.  The byte-level serialization of a map is the transport
//! codec's concern and stays outside this crate.

pub mod cose;
pub mod ctap2;
pub mod error;
pub mod get_assertion;
pub mod sizes;
pub mod webauthn;
pub mod wire;
