//! The abstract map model the schemas encode into and decode from.
//!
//! A schema type's wire form is an ordered list of entries.  The
//! get-assertion request, the response and the hmac-secret input are
//! positionally indexed maps: their keys are small integers assigned by
//! declaration order, starting at 1.  The negotiated extension payloads are
//! name-keyed maps; their canonical key order is declaration order too.
//! The byte form of a map (its CBOR-family framing) belongs to the
//! transport codec and is not modeled here.

use vstd::prelude::*;

use crate::cose::{EcdhEsHkdf256PublicKey, EcdhEsHkdf256PublicKeyModel};
use crate::ctap2::{
    AttestationFormatsPreference, AttestationFormatsPreferenceModel, AttestationStatement,
    AttestationStatementModel, AuthenticatorOptions,
};
use crate::get_assertion::UnsignedExtensionOutputs;
use crate::webauthn::{
    PublicKeyCredentialDescriptor, PublicKeyCredentialDescriptorModel,
    PublicKeyCredentialUserEntity, PublicKeyCredentialUserEntityModel,
};

verus! {

/// A value inside an hmac-secret input map.
#[derive(Debug, PartialEq, Eq)]
pub enum HmacValue {
    PublicKey(EcdhEsHkdf256PublicKey),
    Bytes(Vec<u8>),
    Uint(u32),
}

/// The mathematical value of an [`HmacValue`].
pub enum HmacValueModel {
    PublicKey(EcdhEsHkdf256PublicKeyModel),
    Bytes(Seq<u8>),
    Uint(u32),
}

impl View for HmacValue {
    type V = HmacValueModel;

    open spec fn view(&self) -> HmacValueModel {
        match self {
            HmacValue::PublicKey(k) => HmacValueModel::PublicKey(k@),
            HmacValue::Bytes(b) => HmacValueModel::Bytes(b@),
            HmacValue::Uint(n) => HmacValueModel::Uint(*n),
        }
    }
}

impl DeepView for HmacValue {
    type V = HmacValueModel;

    open spec fn deep_view(&self) -> HmacValueModel {
        self.view()
    }
}

/// A key of a name-keyed extensions map.
///
/// On the wire each key is a fixed text name: `"hmac-secret"`,
/// `"largeBlobKey"` and `"thirdPartyPayment"` in declaration order.  The
/// names themselves belong to the transport codec's text encoding.
#[derive(Clone, Copy, Debug, PartialEq, Eq, Structural)]
pub enum ExtensionKey {
    HmacSecret,
    LargeBlobKey,
    ThirdPartyPayment,
}

impl View for ExtensionKey {
    type V = ExtensionKey;

    open spec fn view(&self) -> ExtensionKey {
        *self
    }
}

impl DeepView for ExtensionKey {
    type V = ExtensionKey;

    open spec fn deep_view(&self) -> ExtensionKey {
        *self
    }
}

/// A value inside a name-keyed extensions map.
#[derive(Debug, PartialEq, Eq)]
pub enum ExtensionValue {
    /// An hmac-secret input: a nested indexed map.
    HmacSecretInput(Vec<(u8, HmacValue)>),
    /// An hmac-secret output: an encrypted byte buffer.
    Bytes(Vec<u8>),
    /// A boolean flag.
    Bool(bool),
}

/// The mathematical value of an [`ExtensionValue`].
pub enum ExtensionValueModel {
    HmacSecretInput(Seq<(u8, HmacValueModel)>),
    Bytes(Seq<u8>),
    Bool(bool),
}

impl View for ExtensionValue {
    type V = ExtensionValueModel;

    open spec fn view(&self) -> ExtensionValueModel {
        match self {
            ExtensionValue::HmacSecretInput(m) => ExtensionValueModel::HmacSecretInput(
                m.deep_view(),
            ),
            ExtensionValue::Bytes(b) => ExtensionValueModel::Bytes(b@),
            ExtensionValue::Bool(b) => ExtensionValueModel::Bool(*b),
        }
    }
}

impl DeepView for ExtensionValue {
    type V = ExtensionValueModel;

    open spec fn deep_view(&self) -> ExtensionValueModel {
        self.view()
    }
}

/// A value inside the indexed map of a request or a response.
#[derive(Debug, PartialEq, Eq)]
pub enum Value {
    Bool(bool),
    Uint(u32),
    Text(String),
    Bytes(Vec<u8>),
    /// An allow list: an array of credential descriptors.
    Credentials(Vec<PublicKeyCredentialDescriptor>),
    Credential(PublicKeyCredentialDescriptor),
    User(PublicKeyCredentialUserEntity),
    Options(AuthenticatorOptions),
    FormatsPreference(AttestationFormatsPreference),
    AttStmt(AttestationStatement),
    /// A negotiated extensions payload: a nested name-keyed map.
    Extensions(Vec<(ExtensionKey, ExtensionValue)>),
    UnsignedOutputs(UnsignedExtensionOutputs),
}

/// The mathematical value of a [`Value`].
pub enum ValueModel {
    Bool(bool),
    Uint(u32),
    Text(Seq<char>),
    Bytes(Seq<u8>),
    Credentials(Seq<PublicKeyCredentialDescriptorModel>),
    Credential(PublicKeyCredentialDescriptorModel),
    User(PublicKeyCredentialUserEntityModel),
    Options(AuthenticatorOptions),
    FormatsPreference(AttestationFormatsPreferenceModel),
    AttStmt(AttestationStatementModel),
    Extensions(Seq<(ExtensionKey, ExtensionValueModel)>),
    UnsignedOutputs(UnsignedExtensionOutputs),
}

impl View for Value {
    type V = ValueModel;

    open spec fn view(&self) -> ValueModel {
        match self {
            Value::Bool(b) => ValueModel::Bool(*b),
            Value::Uint(n) => ValueModel::Uint(*n),
            Value::Text(s) => ValueModel::Text(s@),
            Value::Bytes(b) => ValueModel::Bytes(b@),
            Value::Credentials(c) => ValueModel::Credentials(c.deep_view()),
            Value::Credential(c) => ValueModel::Credential(c@),
            Value::User(u) => ValueModel::User(u@),
            Value::Options(o) => ValueModel::Options(*o),
            Value::FormatsPreference(p) => ValueModel::FormatsPreference(p@),
            Value::AttStmt(a) => ValueModel::AttStmt(a@),
            Value::Extensions(m) => ValueModel::Extensions(m.deep_view()),
            Value::UnsignedOutputs(u) => ValueModel::UnsignedOutputs(*u),
        }
    }
}

impl DeepView for Value {
    type V = ValueModel;

    open spec fn deep_view(&self) -> ValueModel {
        self.view()
    }
}

/// The contents of an optional byte buffer.
pub open spec fn bytes_option_model(o: Option<Vec<u8>>) -> Option<Seq<u8>> {
    match o {
        Some(v) => Some(v@),
        None => None,
    }
}

} // verus!
