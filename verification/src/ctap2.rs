//! Command-layer collaborator values shared by the CTAP2 commands.

use vstd::prelude::*;

use crate::cose::copy_bytes;
use crate::error::SchemaError;
use crate::sizes::AUTHENTICATOR_DATA_LENGTH;

verus! {

/// Authenticator behavior flags carried with a request.
#[derive(Clone, Copy, Debug, PartialEq, Eq)]
pub struct AuthenticatorOptions {
    /// Discoverable-credential ("resident key") behavior.
    pub rk: Option<bool>,
    /// User presence.
    pub up: Option<bool>,
    /// User verification.
    pub uv: Option<bool>,
}

impl View for AuthenticatorOptions {
    type V = AuthenticatorOptions;

    open spec fn view(&self) -> AuthenticatorOptions {
        *self
    }
}

impl DeepView for AuthenticatorOptions {
    type V = AuthenticatorOptions;

    open spec fn deep_view(&self) -> AuthenticatorOptions {
        *self
    }
}

/// An attestation statement, consumed as an opaque variant value.
#[derive(Debug, PartialEq, Eq)]
pub enum AttestationStatement {
    /// The packed format: a signing algorithm and its signature bytes.
    Packed { alg: i32, sig: Vec<u8> },
}

/// The mathematical value of an [`AttestationStatement`].
pub enum AttestationStatementModel {
    Packed { alg: i32, sig: Seq<u8> },
}

impl View for AttestationStatement {
    type V = AttestationStatementModel;

    open spec fn view(&self) -> AttestationStatementModel {
        match self {
            AttestationStatement::Packed { alg, sig } => AttestationStatementModel::Packed {
                alg: *alg,
                sig: sig@,
            },
        }
    }
}

impl DeepView for AttestationStatement {
    type V = AttestationStatementModel;

    open spec fn deep_view(&self) -> AttestationStatementModel {
        self.view()
    }
}

impl Clone for AttestationStatement {
    fn clone(&self) -> (r: Self)
        ensures
            r@ == self@,
    {
        match self {
            AttestationStatement::Packed { alg, sig } => AttestationStatement::Packed {
                alg: *alg,
                sig: copy_bytes(sig),
            },
        }
    }
}

/// An ordered preference list of attestation statement format names.
#[derive(Debug, PartialEq, Eq)]
pub struct AttestationFormatsPreference {
    pub formats: Vec<String>,
}

/// The mathematical value of an [`AttestationFormatsPreference`].
pub struct AttestationFormatsPreferenceModel {
    pub formats: Seq<Seq<char>>,
}

impl View for AttestationFormatsPreference {
    type V = AttestationFormatsPreferenceModel;

    open spec fn view(&self) -> AttestationFormatsPreferenceModel {
        AttestationFormatsPreferenceModel { formats: self.formats.deep_view() }
    }
}

impl DeepView for AttestationFormatsPreference {
    type V = AttestationFormatsPreferenceModel;

    open spec fn deep_view(&self) -> AttestationFormatsPreferenceModel {
        self.view()
    }
}

impl Clone for AttestationFormatsPreference {
    fn clone(&self) -> (r: Self)
        ensures
            r@ == self@,
    {
        let mut formats: Vec<String> = Vec::new();
        let mut i: usize = 0;
        while i < self.formats.len()
            invariant
                i <= self.formats.len(),
                formats@.len() == i,
                forall|j: int| 0 <= j < i as int ==> (#[trigger] formats@[j])@ == self.formats@[j]@,
            decreases self.formats.len() - i,
        {
            formats.push(self.formats[i].clone());
            i = i + 1;
        }
        let r = AttestationFormatsPreference { formats };
        proof {
            assert forall|j: int| 0 <= j < r.formats@.len() implies r.formats.deep_view()[j]
                == self.formats.deep_view()[j] by {
                assert(r.formats@[j]@ == self.formats@[j]@);
            }
            assert(r.formats.deep_view() =~= self.formats.deep_view());
        }
        r
    }
}

/// A fixed-capacity buffer that a serialized authenticator-data value is
/// written into.
#[derive(Debug, PartialEq, Eq)]
pub struct SerializedAuthenticatorData {
    pub data: Vec<u8>,
}

impl View for SerializedAuthenticatorData {
    type V = Seq<u8>;

    open spec fn view(&self) -> Seq<u8> {
        self.data@
    }
}

impl SerializedAuthenticatorData {
    /// The written bytes fit the fixed authenticator-data capacity.
    pub open spec fn wf(self) -> bool {
        self.data@.len() <= AUTHENTICATOR_DATA_LENGTH
    }
}

/// The attested-credential-data part of an authenticator-data value.
///
/// The generic authenticator-data container is shared between commands;
/// each command binds it to the attested-credential-data shape it carries,
/// and that shape says here what bytes it contributes.
pub trait SerializeAttestedCredentialData {
    /// The bytes this value contributes to a serialized authenticator-data
    /// value.
    spec fn serialized(&self) -> Seq<u8>;

    /// Appends this value's serialized form to the buffer.  Fails only for
    /// want of capacity, and never when nothing is to be written.
    fn serialize(&self, buffer: &mut SerializedAuthenticatorData) -> (r: Result<(), SchemaError>)
        ensures
            r matches Ok(()) ==> final(buffer)@ == old(buffer)@ + self.serialized(),
            r matches Err(e) ==> e == SchemaError::TooLong && *final(buffer) == *old(buffer),
            old(buffer).wf() && old(buffer)@.len() + self.serialized().len()
                <= AUTHENTICATOR_DATA_LENGTH ==> r matches Ok(()),
    ;
}

} // verus!
