//! What a burn proof reveals, and the public inputs that a verifier is
//! given for it.

use crate::keypair::PublicKey;
use crate::mint_proof::reprs;
use crate::pallas::{Base, Point};
use vstd::prelude::*;

verus! {

/// What a burn proof reveals.
#[derive(Clone, Copy, Debug, PartialEq, Eq)]
pub struct BurnRevealedValues {
    /// The commitment to the value.
    pub value_commit: Point,
    /// The commitment to the token.
    pub token_commit: Point,
    /// The nullifier of the coin that is spent.
    pub nullifier: Base,
    /// The root of the tree of coins.
    pub merkle_root: Base,
    /// The spend hook of the coin.
    pub spend_hook: Base,
    /// The blinded user data.
    pub user_data_enc: Base,
    /// The key that signs the spend.
    pub signature_public: PublicKey,
}

impl BurnRevealedValues {
    /// Whether the commitments and the signature key have coordinates, that
    /// is, none of them is the point at infinity.
    pub open spec fn has_outputs(self) -> bool {
        &&& self.value_commit.coordinates().is_some()
        &&& self.token_commit.coordinates().is_some()
        &&& self.signature_public.coordinates().is_some()
    }

    /// The public inputs of the proof: the nullifier, the coordinates of
    /// the two commitments, the root, the blinded user data and the
    /// coordinates of the signature key.
    pub open spec fn outputs(self) -> Seq<Seq<u8>> {
        let value = self.value_commit.coordinates().unwrap();
        let token = self.token_commit.coordinates().unwrap();
        let sig = self.signature_public.coordinates().unwrap();
        seq![
            self.nullifier.repr(),
            value.0,
            value.1,
            token.0,
            token.1,
            self.merkle_root.repr(),
            self.user_data_enc.repr(),
            sig.0,
            sig.1,
        ]
    }

    /// The public inputs of the proof.
    pub fn make_outputs(&self) -> (r: Vec<Base>)
        requires
            self.has_outputs(),
        ensures
            reprs(r@) == self.outputs(),
    {
        let value_coords = self.value_commit.xy().unwrap();
        let token_coords = self.token_commit.xy().unwrap();
        let merkle_root = self.merkle_root;
        let user_data_enc = self.user_data_enc;
        let (sig_x, sig_y) = self.signature_public.xy();
        let r = vec![
            self.nullifier,
            value_coords.0,
            value_coords.1,
            token_coords.0,
            token_coords.1,
            merkle_root,
            user_data_enc,
            sig_x,
            sig_y,
        ];
        assert(reprs(r@) =~= self.outputs());
        r
    }

    /// The public inputs of the proof; `None` exactly when a commitment or
    /// the signature key is the point at infinity.
    pub fn try_make_outputs(&self) -> (r: Option<Vec<Base>>)
        ensures
            r.is_some() == self.has_outputs(),
            r matches Some(v) ==> reprs(v@) == self.outputs(),
    {
        if self.value_commit.xy().is_some() && self.token_commit.xy().is_some()
            && self.signature_public.try_xy().is_some() {
            Some(self.make_outputs())
        } else {
            None
        }
    }
}

} // verus!
