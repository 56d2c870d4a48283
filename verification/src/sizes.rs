//! Fixed capacities of the wire-level buffers and lists.

use vstd::prelude::*;

verus! {

/// Greatest byte length of a serialized authenticator-data value.
pub const AUTHENTICATOR_DATA_LENGTH: usize = 676;

/// Greatest byte length of an ASN.1-encoded signature.
pub const ASN1_SIGNATURE_LENGTH: usize = 77;

/// Greatest number of entries of a request's allow list.
pub const MAX_CREDENTIAL_COUNT_IN_LIST: usize = 10;

/// Greatest byte length of a credential id.
pub const MAX_CREDENTIAL_ID_LENGTH: usize = 255;

/// Byte length of the encrypted salts when one salt is carried.
pub const ONE_SALT_ENC_LENGTH: usize = 48;

/// Byte length of the encrypted salts when two salts are carried.
pub const TWO_SALT_ENC_LENGTH: usize = 64;

/// Byte length of the hmac-secret output when one salt was carried.
pub const ONE_SALT_OUTPUT_LENGTH: usize = 32;

/// Byte length of the hmac-secret output when two salts were carried.
pub const TWO_SALT_OUTPUT_LENGTH: usize = 64;

/// Byte length of the authentication tag over the encrypted salts.
pub const SALT_AUTH_LENGTH: usize = 32;

/// Byte length of a large-blob encryption key.
pub const LARGE_BLOB_KEY_LENGTH: usize = 32;

/// Byte length of the tag that authenticates a response.
pub const RESPONSE_AUTH_LENGTH: usize = 32;

} // verus!
