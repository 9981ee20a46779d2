//! The store of trust anchors.

use rustls_pki_types::TrustAnchor;
use vstd::prelude::*;

verus! {

/// The trust anchors that a verifier accepts chains to.
#[derive(Debug)]
pub struct RootCertStore {
    /// The anchors.
    pub roots: Vec<TrustAnchor<'static>>,
}

impl RootCertStore {
    /// A store with no anchor in it.
    pub fn empty() -> (store: Self)
        ensures
            store.roots@.len() == 0,
    {
        Self { roots: Vec::new() }
    }

    /// Whether the store holds no anchor.
    pub fn is_empty(&self) -> (empty: bool)
        ensures
            empty == (self.roots@.len() == 0),
    {
        self.roots.len() == 0
    }

    /// How many anchors the store holds.
    pub fn len(&self) -> (n: usize)
        ensures
            n == self.roots@.len(),
    {
        self.roots.len()
    }

    /// Adds the anchors of `anchors` after those that the store holds.
    pub fn extend(&mut self, anchors: Vec<TrustAnchor<'static>>)
        ensures
            final(self).roots@ == old(self).roots@ + anchors@,
    {
        let mut anchors = anchors;
        self.roots.append(&mut anchors);
    }
}

} // verus!
