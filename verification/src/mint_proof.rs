//! What a mint proof reveals, and the public inputs that a verifier is
//! given for it.

use crate::pallas::{Base, Point};
use vstd::prelude::*;

verus! {

/// A coin: the commitment to everything a coin holds.
#[derive(Clone, Copy, Debug, PartialEq, Eq)]
pub struct Coin(pub Base);

/// What a mint proof reveals.
#[derive(Clone, Copy, Debug, PartialEq, Eq)]
pub struct MintRevealedValues {
    /// The commitment to the value.
    pub value_commit: Point,
    /// The commitment to the token.
    pub token_commit: Point,
    /// The coin.
    pub coin: Coin,
}

/// The public inputs of a mint proof: the coin, then the coordinates of the
/// value commitment, then the coordinates of the token commitment.
pub open spec fn mint_outputs(
    coin: Seq<u8>,
    value: (Seq<u8>, Seq<u8>),
    token: (Seq<u8>, Seq<u8>),
) -> Seq<Seq<u8>> {
    seq![coin, value.0, value.1, token.0, token.1]
}

/// The representations of field elements.
pub open spec fn reprs(v: Seq<Base>) -> Seq<Seq<u8>> {
    Seq::new(v.len(), |i: int| v[i].repr())
}

impl MintRevealedValues {
    /// Whether both commitments have coordinates, that is, neither is the
    /// point at infinity.
    pub open spec fn has_outputs(self) -> bool {
        self.value_commit.coordinates().is_some() && self.token_commit.coordinates().is_some()
    }

    /// The public inputs of the proof.
    pub open spec fn outputs(self) -> Seq<Seq<u8>> {
        mint_outputs(
            self.coin.0.repr(),
            self.value_commit.coordinates().unwrap(),
            self.token_commit.coordinates().unwrap(),
        )
    }

    /// The public inputs of the proof.
    pub fn make_outputs(&self) -> (r: Vec<Base>)
        requires
            self.has_outputs(),
        ensures
            reprs(r@) == self.outputs(),
    {
        let value_coords = self.value_commit.xy().unwrap();
        let token_coords = self.token_commit.xy().unwrap();
        let r = vec![self.coin.0, value_coords.0, value_coords.1, token_coords.0, token_coords.1];
        assert(reprs(r@) =~= self.outputs());
        r
    }

    /// The public inputs of the proof; `None` exactly when a commitment is
    /// the point at infinity.
    pub fn try_make_outputs(&self) -> (r: Option<Vec<Base>>)
        ensures
            r.is_some() == self.has_outputs(),
            r matches Some(v) ==> reprs(v@) == self.outputs(),
    {
        if self.value_commit.xy().is_some() && self.token_commit.xy().is_some() {
            Some(self.make_outputs())
        } else {
            None
        }
    }
}

} // verus!
