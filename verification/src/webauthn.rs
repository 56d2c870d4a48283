//! WebAuthn entity values consumed by the get-assertion schema.
//!
//! Both types are opaque collaborator values: the schema layer decodes,
//! carries and re-encodes them, and reads nothing of them but the
//! credential id's length.

use vstd::prelude::*;

use crate::cose::copy_bytes;
use crate::sizes::MAX_CREDENTIAL_ID_LENGTH;

verus! {

/// A credential descriptor: a type tag and an opaque credential id.
#[derive(Debug, PartialEq, Eq)]
pub struct PublicKeyCredentialDescriptor {
    pub key_type: String,
    pub id: Vec<u8>,
}

/// The mathematical value of a [`PublicKeyCredentialDescriptor`].
pub struct PublicKeyCredentialDescriptorModel {
    pub key_type: Seq<char>,
    pub id: Seq<u8>,
}

impl View for PublicKeyCredentialDescriptor {
    type V = PublicKeyCredentialDescriptorModel;

    open spec fn view(&self) -> PublicKeyCredentialDescriptorModel {
        PublicKeyCredentialDescriptorModel { key_type: self.key_type@, id: self.id@ }
    }
}

impl DeepView for PublicKeyCredentialDescriptor {
    type V = PublicKeyCredentialDescriptorModel;

    open spec fn deep_view(&self) -> PublicKeyCredentialDescriptorModel {
        self.view()
    }
}

impl PublicKeyCredentialDescriptorModel {
    /// The credential id fits the fixed id capacity.
    pub open spec fn wf(self) -> bool {
        self.id.len() <= MAX_CREDENTIAL_ID_LENGTH
    }
}

impl Clone for PublicKeyCredentialDescriptor {
    fn clone(&self) -> (r: Self)
        ensures
            r@ == self@,
    {
        PublicKeyCredentialDescriptor { key_type: self.key_type.clone(), id: copy_bytes(&self.id) }
    }
}

/// A user entity: an opaque user handle and its optional display strings.
#[derive(Debug, PartialEq, Eq)]
pub struct PublicKeyCredentialUserEntity {
    pub id: Vec<u8>,
    pub icon: Option<String>,
    pub name: Option<String>,
    pub display_name: Option<String>,
}

/// The mathematical value of a [`PublicKeyCredentialUserEntity`].
pub struct PublicKeyCredentialUserEntityModel {
    pub id: Seq<u8>,
    pub icon: Option<Seq<char>>,
    pub name: Option<Seq<char>>,
    pub display_name: Option<Seq<char>>,
}

impl View for PublicKeyCredentialUserEntity {
    type V = PublicKeyCredentialUserEntityModel;

    open spec fn view(&self) -> PublicKeyCredentialUserEntityModel {
        PublicKeyCredentialUserEntityModel {
            id: self.id@,
            icon: self.icon.deep_view(),
            name: self.name.deep_view(),
            display_name: self.display_name.deep_view(),
        }
    }
}

impl DeepView for PublicKeyCredentialUserEntity {
    type V = PublicKeyCredentialUserEntityModel;

    open spec fn deep_view(&self) -> PublicKeyCredentialUserEntityModel {
        self.view()
    }
}

impl Clone for PublicKeyCredentialUserEntity {
    fn clone(&self) -> (r: Self)
        ensures
            r@ == self@,
    {
        PublicKeyCredentialUserEntity {
            id: copy_bytes(&self.id),
            icon: copy_string_option(&self.icon),
            name: copy_string_option(&self.name),
            display_name: copy_string_option(&self.display_name),
        }
    }
}

/// A copy of an optional string with the same contents.
pub fn copy_string_option(s: &Option<String>) -> (r: Option<String>)
    ensures
        r.deep_view() == s.deep_view(),
{
    match s {
        Some(t) => Some(t.clone()),
        None => None,
    }
}

} // verus!
