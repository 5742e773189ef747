//! The domains that say who can read a value's plaintext.

use vstd::prelude::*;

verus! {

/// A domain that hides plaintext from everyone but the holder of its key.
/// A value can be encrypted for such a domain and for no other; the revealed
/// domain is none of them.
pub trait EncryptionDomain {

}

/// The client-shared domain: what is encrypted for it can be read by the one
/// client whose key is `key`, and by the execution boundary.
pub struct ClientShared<K> {
    pub key: K,
}

/// The execution domain: what is encrypted for it is held by the execution
/// environment under its own key `key`, and belongs to no single client.
pub struct ExecutionDomain<K> {
    pub key: K,
}

impl<K> EncryptionDomain for ClientShared<K> {

}

impl<K> EncryptionDomain for ExecutionDomain<K> {

}

} // verus!
