//! The public-key value consumed by the hmac-secret extension.

use vstd::prelude::*;

verus! {

/// An ECDH-ES+HKDF-256 public key, carried as its two curve coordinates.
///
/// The key is an opaque collaborator value to the schema layer: it is
/// decoded, carried and re-encoded, never computed with.  Its COSE byte
/// form belongs to the transport codec.
#[derive(Debug, PartialEq, Eq)]
pub struct EcdhEsHkdf256PublicKey {
    pub x: Vec<u8>,
    pub y: Vec<u8>,
}

/// The mathematical value of an [`EcdhEsHkdf256PublicKey`].
pub struct EcdhEsHkdf256PublicKeyModel {
    pub x: Seq<u8>,
    pub y: Seq<u8>,
}

impl View for EcdhEsHkdf256PublicKey {
    type V = EcdhEsHkdf256PublicKeyModel;

    open spec fn view(&self) -> EcdhEsHkdf256PublicKeyModel {
        EcdhEsHkdf256PublicKeyModel { x: self.x@, y: self.y@ }
    }
}

impl DeepView for EcdhEsHkdf256PublicKey {
    type V = EcdhEsHkdf256PublicKeyModel;

    open spec fn deep_view(&self) -> EcdhEsHkdf256PublicKeyModel {
        self.view()
    }
}

impl Clone for EcdhEsHkdf256PublicKey {
    fn clone(&self) -> (r: Self)
        ensures
            r@ == self@,
    {
        let r = EcdhEsHkdf256PublicKey { x: copy_bytes(&self.x), y: copy_bytes(&self.y) };
        r
    }
}

/// A copy of a byte buffer with the same contents.
pub fn copy_bytes(v: &Vec<u8>) -> (r: Vec<u8>)
    ensures
        r@ == v@,
{
    let mut r: Vec<u8> = Vec::new();
    let mut i: usize = 0;
    while i < v.len()
        invariant
            i <= v.len(),
            r@ == v@.subrange(0, i as int),
        decreases v.len() - i,
    {
        r.push(v[i]);
        i = i + 1;
        proof {
            assert(r@ =~= v@.subrange(0, i as int));
        }
    }
    proof {
        assert(r@ =~= v@);
    }
    r
}

} // verus!
