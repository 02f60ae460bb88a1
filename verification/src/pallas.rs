//! Elements of the Pallas base field and points of the Pallas curve, held
//! by their byte encodings.  The curve arithmetic itself is done by
//! `pasta_curves`.

use crate::varint::le_value;
use pasta_curves::arithmetic::{Coordinates, CurveAffine};
use pasta_curves::group::ff::PrimeField;
use pasta_curves::group::{Curve, GroupEncoding};
use vstd::prelude::*;

verus! {

/// The modulus of the Pallas base field.
pub open spec fn base_modulus() -> nat {
    0x40000000000000000000000000000000224698fc094cf91b992d30ed00000001nat
}

/// Whether `bytes` is the representation of a field element: 32 bytes that
/// write, least significant first, a number below the modulus.
pub open spec fn is_canonical(bytes: Seq<u8>) -> bool {
    bytes.len() == 32 && le_value(bytes) < base_modulus()
}

/// Whether `bytes` is the compressed encoding of a Pallas point.
pub uninterp spec fn point_decodes(bytes: Seq<u8>) -> bool;

/// The affine coordinates of the point that `bytes` encodes, each by its
/// representation; `None` for the point at infinity and for bytes that
/// encode no point.
pub uninterp spec fn point_coordinates(bytes: Seq<u8>) -> Option<(Seq<u8>, Seq<u8>)>;

/// A pair of byte arrays as a pair of sequences.
pub open spec fn pair_view(p: Option<([u8; 32], [u8; 32])>) -> Option<(Seq<u8>, Seq<u8>)> {
    match p {
        Some((x, y)) => Some((x@, y@)),
        None => None,
    }
}

/// Asks `pallas::Base::from_repr` whether it accepts `bytes`.  It reads the
/// bytes as a little-endian number and accepts exactly the numbers below the
/// modulus.
#[verifier::external_body]
fn base_accepts(bytes: &[u8; 32]) -> (r: bool)
    ensures
        r == is_canonical(bytes@),
{
    bool::from(pasta_curves::pallas::Base::from_repr(*bytes).is_some())
}

/// Asks `pallas::Point::from_bytes` whether it accepts `bytes`.
#[verifier::external_body]
fn point_accepts(bytes: &[u8; 32]) -> (r: bool)
    ensures
        r == point_decodes(bytes@),
{
    bool::from(pasta_curves::pallas::Point::from_bytes(bytes).is_some())
}

/// Decodes `bytes` with `pallas::Point::from_bytes`, normalizes the point
/// with `to_affine` and takes its `coordinates`, each written with
/// `to_repr`.  Only bytes that decode have coordinates, and what `to_repr`
/// writes is the representation of a field element.
#[verifier::external_body]
fn affine_coordinates(bytes: &[u8; 32]) -> (r: Option<([u8; 32], [u8; 32])>)
    ensures
        pair_view(r) == point_coordinates(bytes@),
        r.is_some() ==> point_decodes(bytes@),
        r matches Some((x, y)) ==> is_canonical(x@) && is_canonical(y@),
{
    match Option::<pasta_curves::pallas::Point>::from(
        pasta_curves::pallas::Point::from_bytes(bytes),
    ) {
        None => None,
        Some(p) => match Option::<Coordinates<pasta_curves::pallas::Affine>>::from(
            p.to_affine().coordinates(),
        ) {
            None => None,
            Some(c) => Some((c.x().to_repr(), c.y().to_repr())),
        },
    }
}

/// An element of the Pallas base field.
#[derive(Clone, Copy, Debug, PartialEq, Eq, Hash)]
pub struct Base {
    repr: [u8; 32],
}

impl Base {
    /// The representation: 32 bytes, least significant first.
    pub closed spec fn repr(self) -> Seq<u8> {
        self.repr@
    }

    /// Every element is held by the representation of a number below the
    /// modulus.
    pub open spec fn wf(self) -> bool {
        is_canonical(self.repr())
    }

    /// The element that `bytes` represents.  `None` exactly when `bytes`
    /// represents none.
    pub fn from_repr(bytes: [u8; 32]) -> (r: Option<Base>)
        ensures
            r.is_some() == is_canonical(bytes@),
            r matches Some(b) ==> b.repr() == bytes@ && b.wf(),
    {
        if base_accepts(&bytes) {
            Some(Base { repr: bytes })
        } else {
            None
        }
    }

    /// The representation of this element.
    pub fn to_repr(&self) -> (r: [u8; 32])
        ensures
            r@ == self.repr(),
    {
        self.repr
    }
}

/// A point of the Pallas curve.
#[derive(Clone, Copy, Debug, PartialEq, Eq, Hash)]
pub struct Point {
    bytes: [u8; 32],
}

impl Point {
    /// The compressed encoding.
    pub closed spec fn bytes(self) -> Seq<u8> {
        self.bytes@
    }

    /// Every point is held by bytes that decode.
    pub open spec fn wf(self) -> bool {
        point_decodes(self.bytes())
    }

    /// The coordinates of this point, if it has any.
    pub open spec fn coordinates(self) -> Option<(Seq<u8>, Seq<u8>)> {
        point_coordinates(self.bytes())
    }

    /// The point that `bytes` encodes.  `None` exactly when `bytes` encodes
    /// none.
    pub fn from_bytes(bytes: [u8; 32]) -> (r: Option<Point>)
        ensures
            r.is_some() == point_decodes(bytes@),
            r matches Some(p) ==> p.bytes() == bytes@ && p.wf(),
    {
        if point_accepts(&bytes) {
            Some(Point { bytes })
        } else {
            None
        }
    }

    /// The compressed encoding of this point.
    pub fn to_bytes(&self) -> (r: [u8; 32])
        ensures
            r@ == self.bytes(),
    {
        self.bytes
    }

    /// The affine coordinates of this point; `None` for the point at
    /// infinity.
    pub fn xy(&self) -> (r: Option<(Base, Base)>)
        ensures
            r.is_some() == self.coordinates().is_some(),
            r matches Some((x, y)) ==> self.coordinates() == Some((x.repr(), y.repr())) && x.wf()
                && y.wf(),
    {
        match affine_coordinates(&self.bytes) {
            Some((x, y)) => Some((Base { repr: x }, Base { repr: y })),
            None => None,
        }
    }
}

} // verus!
