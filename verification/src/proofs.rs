//! Proof bundles carried by proof-carrying messages.
//!
//! The core does not verify Merkle proofs itself: it records the height a
//! proof was taken at and hands the opaque proof bytes to the reader's
//! verification capability.

use vstd::prelude::*;
use crate::height::Height;

verus! {

/// The mathematical content of a proof bundle.
pub ghost struct ProofsView {
    pub height: Height,
    pub object_proof: Seq<u8>,
}

/// A proof over the counterparty's store at a height.
#[derive(Debug)]
pub struct Proofs {
    pub height: Height,
    pub object_proof: Vec<u8>,
}

impl View for Proofs {
    type V = ProofsView;

    open spec fn view(&self) -> ProofsView {
        ProofsView { height: self.height, object_proof: self.object_proof@ }
    }
}

impl Clone for Proofs {
    fn clone(&self) -> (r: Self)
        ensures
            r@ == self@,
    {
        let object_proof = self.object_proof.clone();
        proof {
            assert(object_proof@ =~= self.object_proof@);
        }
        Proofs { height: self.height, object_proof }
    }
}

impl Proofs {
    pub fn new(height: Height, object_proof: Vec<u8>) -> (r: Proofs)
        ensures
            r@ == (ProofsView { height, object_proof: object_proof@ }),
    {
        Proofs { height, object_proof }
    }

    /// The height the proofs were taken at.
    pub fn height(&self) -> (r: Height)
        ensures
            r == self@.height,
    {
        self.height
    }
}

} // verus!
