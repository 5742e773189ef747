//! Encrypted values, the plaintext that exists only inside the execution
//! boundary, and the two steps between them.

use vstd::prelude::*;
use crate::domain::EncryptionDomain;

verus! {

/// A value bound to one domain. Its content is private to this module:
/// `decrypt` is the one way to it.
pub struct EncryptedValue<D, T> {
    domain: D,
    content: T,
}

/// A value in the clear inside the execution boundary. It is made by
/// `decrypt` and by the operations that compute inside the boundary, and it
/// can be neither copied, compared nor printed.
pub struct PlaintextInBoundary<T> {
    value: T,
}

impl<T> View for PlaintextInBoundary<T> {
    type V = T;

    closed spec fn view(&self) -> T {
        self.value
    }
}

impl<T> PlaintextInBoundary<T> {
    /// Takes in a value that was computed inside the boundary.
    pub(crate) fn wrap(value: T) -> (plain: Self)
        ensures
            plain@ == value,
    {
        PlaintextInBoundary { value }
    }

    /// Lends the value to code that runs inside the boundary.
    pub fn expose(&self) -> (value: &T)
        ensures
            *value == self@,
    {
        &self.value
    }
}

impl<D: EncryptionDomain, T> EncryptedValue<D, T> {
    /// The domain that the value is bound to.
    pub closed spec fn domain(&self) -> D {
        self.domain
    }

    /// What the value holds under its encryption.
    pub closed spec fn plaintext(&self) -> T {
        self.content
    }

    /// Binds `content` to `domain`, as the holder of the domain's key does
    /// before a value is handed to the boundary.
    pub fn new(domain: D, content: T) -> (value: Self)
        ensures
            value.domain() == domain,
            value.plaintext() == content,
    {
        EncryptedValue { domain, content }
    }

    /// Lends the domain that the value is bound to.
    pub fn owner(&self) -> (domain: &D)
        ensures
            *domain == self.domain(),
    {
        &self.domain
    }

    /// Gives up the value and keeps the domain that it was bound to.
    pub fn into_owner(self) -> (domain: D)
        ensures
            domain == self.domain(),
    {
        self.domain
    }
}

/// Opens an encrypted value inside the boundary: the whole content at once.
pub fn decrypt<D: EncryptionDomain, T: Copy>(value: &EncryptedValue<D, T>) -> (plain:
    PlaintextInBoundary<T>)
    ensures
        plain@ == value.plaintext(),
{
    PlaintextInBoundary { value: value.content }
}

/// Encrypts a value of the boundary for `target`, which the caller chooses.
pub fn encrypt<D: EncryptionDomain, T>(plain: PlaintextInBoundary<T>, target: D) -> (value:
    EncryptedValue<D, T>)
    ensures
        value.domain() == target,
        value.plaintext() == plain@,
{
    EncryptedValue { domain: target, content: plain.value }
}

} // verus!
