//! Secret and public keys.
//!
//! A secret key is an element of the Pallas base field and a public key is
//! a point of the Pallas curve.  Both are written as 32 bytes and, for
//! people, as the base58 encoding of those bytes.

use crate::pallas::{is_canonical, point_decodes, Base, Point};
use vstd::prelude::*;

verus! {

/// The bytes that the base58 text `enc` decodes to; `None` where `enc` is
/// not base58.
pub uninterp spec fn base58_decoded(enc: Seq<char>) -> Option<Seq<u8>>;

/// The base58 text of `bytes`.
pub uninterp spec fn base58_encoded(bytes: Seq<u8>) -> Seq<char>;

/// What a decoding result says, as a mathematical value.
pub open spec fn decoded_view(r: Result<Vec<u8>, String>) -> Option<Seq<u8>> {
    match r {
        Ok(v) => Some(v@),
        Err(_) => None,
    }
}

/// Decodes base58 text with `bs58::decode(..).into_vec()`.  A failure is
/// handed on as the text that the decoder's error displays; nothing is
/// claimed of that text.
#[verifier::external_body]
fn base58_decode(enc: &str) -> (r: Result<Vec<u8>, String>)
    ensures
        decoded_view(r) == base58_decoded(enc@),
{
    match bs58::decode(enc).into_vec() {
        Ok(bytes) => Ok(bytes),
        Err(e) => Err(e.to_string()),
    }
}

/// Encodes bytes as base58 text with `bs58::encode(..).into_string()`.
#[verifier::external_body]
fn base58_encode(bytes: &[u8]) -> (r: String)
    ensures
        r@ == base58_encoded(bytes@),
{
    bs58::encode(bytes).into_string()
}

/// The errors of key handling.
#[derive(Clone, Debug, PartialEq, Eq)]
pub enum ContractError {
    /// Bytes or text could not be turned into a value; the text says why.
    IoError(String),
}

/// Why a text is no key.
pub enum KeyTextFault {
    /// The text is not base58.
    NotBase58,
    /// The text decodes to some other number of bytes than 32.
    WrongLength,
    /// The 32 bytes are no key.
    NotAKey,
}

/// The 32 bytes that the base58 text `enc` stands for.
pub open spec fn key_bytes(enc: Seq<char>) -> Result<Seq<u8>, KeyTextFault> {
    match base58_decoded(enc) {
        None => Err(KeyTextFault::NotBase58),
        Some(bytes) => if bytes.len() != 32 {
            Err(KeyTextFault::WrongLength)
        } else {
            Ok(bytes)
        },
    }
}

/// The first 32 bytes of `decoded` as an array.
fn to_array(decoded: &Vec<u8>) -> (bytes: [u8; 32])
    requires
        decoded@.len() == 32,
    ensures
        bytes@ == decoded@,
{
    let mut bytes: [u8; 32] = [0u8; 32];
    let mut i: usize = 0;
    while i < 32
        invariant
            i <= 32,
            decoded@.len() == 32,
            forall|j: int| 0 <= j < i ==> bytes@[j] == decoded@[j],
        decreases 32 - i,
    {
        bytes[i] = decoded[i];
        i = i + 1;
    }
    assert(bytes@ =~= decoded@);
    bytes
}

/// Decodes the base58 text of a key into its 32 bytes.  `wrong_length` is
/// the error text for a text that decodes to another number of bytes.
fn decode_key_text(enc: &str, wrong_length: &str) -> (r: Result<[u8; 32], ContractError>)
    ensures
        match key_bytes(enc@) {
            Ok(bytes) => r matches Ok(got) && got@ == bytes,
            Err(KeyTextFault::WrongLength) => r matches Err(ContractError::IoError(text)) && text@
                == wrong_length@,
            Err(_) => r.is_err(),
        },
{
    let decoded = match base58_decode(enc) {
        Ok(v) => v,
        Err(text) => {
            return Err(ContractError::IoError(text));
        },
    };
    if decoded.len() != 32 {
        return Err(ContractError::IoError(wrong_length.to_owned()));
    }
    Ok(to_array(&decoded))
}

/// A secret key.
#[derive(Clone, Copy, Debug, PartialEq, Eq)]
pub struct SecretKey(Base);

impl SecretKey {
    /// The representation of the field element.
    pub closed spec fn repr(self) -> Seq<u8> {
        self.0.repr()
    }

    /// The field element that this key wraps.
    pub fn inner(&self) -> (r: Base)
        ensures
            r.repr() == self.repr(),
    {
        self.0
    }

    /// The key with the representation `bytes`.  Fails exactly when `bytes`
    /// is not the representation of a field element.
    pub fn from_bytes(bytes: [u8; 32]) -> (r: Result<SecretKey, ContractError>)
        ensures
            r.is_ok() == is_canonical(bytes@),
            r matches Ok(k) ==> k.repr() == bytes@,
            r matches Err(ContractError::IoError(text)) ==> text@
                == "Could not convert bytes to SecretKey"@,
    {
        match Base::from_repr(bytes) {
            Some(k) => Ok(SecretKey(k)),
            None => Err(ContractError::IoError("Could not convert bytes to SecretKey".to_owned())),
        }
    }

    /// The key that the base58 text `enc` stands for.  Succeeds exactly
    /// when `enc` is base58 for 32 bytes that represent a field element.
    pub fn from_str(enc: &str) -> (r: Result<SecretKey, ContractError>)
        ensures
            r.is_ok() == (key_bytes(enc@) matches Ok(bytes) && is_canonical(bytes)),
            r matches Ok(k) ==> key_bytes(enc@) == Ok::<Seq<u8>, KeyTextFault>(k.repr()),
            key_bytes(enc@) == Err::<Seq<u8>, KeyTextFault>(KeyTextFault::WrongLength) ==> ({
                &&& r matches Err(ContractError::IoError(text))
                &&& text@ == "Failed decoding SecretKey from bytes, len is not 32"@
            }),
    {
        match decode_key_text(enc, "Failed decoding SecretKey from bytes, len is not 32") {
            Ok(bytes) => Self::from_bytes(bytes),
            Err(e) => Err(e),
        }
    }

    /// The base58 text of this key.
    pub fn to_base58(&self) -> (r: String)
        ensures
            r@ == base58_encoded(self.repr()),
    {
        let bytes = self.0.to_repr();
        base58_encode(bytes.as_slice())
    }
}

impl From<Base> for SecretKey {
    fn from(x: Base) -> (r: SecretKey) {
        SecretKey(x)
    }
}

impl vstd::std_specs::convert::FromSpecImpl<Base> for SecretKey {
    open spec fn obeys_from_spec() -> bool {
        true
    }

    closed spec fn from_spec(x: Base) -> SecretKey {
        SecretKey(x)
    }
}

/// The key made from a field element wraps that element.
pub proof fn lemma_secret_from_base(x: Base)
    ensures
        <SecretKey as vstd::std_specs::convert::FromSpec<Base>>::from_spec(x).repr() == x.repr(),
{
}

/// A public key.
#[derive(Clone, Copy, Debug, PartialEq, Eq, Hash)]
pub struct PublicKey(Point);

impl PublicKey {
    /// The compressed encoding of the point.
    pub closed spec fn bytes(self) -> Seq<u8> {
        self.0.bytes()
    }

    /// The affine coordinates of the point, if it has any.
    pub open spec fn coordinates(self) -> Option<(Seq<u8>, Seq<u8>)> {
        crate::pallas::point_coordinates(self.bytes())
    }

    /// The point that this key wraps.
    pub fn inner(&self) -> (r: Point)
        ensures
            r.bytes() == self.bytes(),
    {
        self.0
    }

    /// The key with the encoding `bytes`.  Fails exactly when `bytes`
    /// encodes no point.
    pub fn from_bytes(bytes: [u8; 32]) -> (r: Result<PublicKey, ContractError>)
        ensures
            r.is_ok() == point_decodes(bytes@),
            r matches Ok(k) ==> k.bytes() == bytes@,
            r matches Err(ContractError::IoError(text)) ==> text@
                == "Could not convert bytes to PublicKey"@,
    {
        match Point::from_bytes(bytes) {
            Some(k) => Ok(PublicKey(k)),
            None => Err(ContractError::IoError("Could not convert bytes to PublicKey".to_owned())),
        }
    }

    /// The `x` and `y` coordinates of this key; `None` for the point at
    /// infinity, which has none.
    pub fn try_xy(&self) -> (r: Option<(Base, Base)>)
        ensures
            r.is_some() == self.coordinates().is_some(),
            r matches Some((x, y)) ==> self.coordinates() == Some((x.repr(), y.repr())) && x.wf()
                && y.wf(),
    {
        match self.0.xy() {
            Some(_) => Some((self.x(), self.y())),
            None => None,
        }
    }

    /// The `x` coordinate of this key.
    pub fn x(&self) -> (r: Base)
        requires
            self.coordinates().is_some(),
        ensures
            r.repr() == self.coordinates().unwrap().0,
            r.wf(),
    {
        self.xy().0
    }

    /// The `y` coordinate of this key.
    pub fn y(&self) -> (r: Base)
        requires
            self.coordinates().is_some(),
        ensures
            r.repr() == self.coordinates().unwrap().1,
            r.wf(),
    {
        self.xy().1
    }

    /// The `x` and `y` coordinates of this key.
    pub fn xy(&self) -> (r: (Base, Base))
        requires
            self.coordinates().is_some(),
        ensures
            self.coordinates() == Some((r.0.repr(), r.1.repr())),
            r.0.wf(),
            r.1.wf(),
    {
        self.0.xy().unwrap()
    }

    /// The key that the base58 text `enc` stands for.  Succeeds exactly
    /// when `enc` is base58 for 32 bytes that encode a point.
    pub fn from_str(enc: &str) -> (r: Result<PublicKey, ContractError>)
        ensures
            r.is_ok() == (key_bytes(enc@) matches Ok(bytes) && point_decodes(bytes)),
            r matches Ok(k) ==> key_bytes(enc@) == Ok::<Seq<u8>, KeyTextFault>(k.bytes()),
            key_bytes(enc@) == Err::<Seq<u8>, KeyTextFault>(KeyTextFault::WrongLength) ==> ({
                &&& r matches Err(ContractError::IoError(text))
                &&& text@ == "Failed decoding PublicKey from bytes, len is not 32"@
            }),
    {
        match decode_key_text(enc, "Failed decoding PublicKey from bytes, len is not 32") {
            Ok(bytes) => Self::from_bytes(bytes),
            Err(e) => Err(e),
        }
    }

    /// The base58 text of this key.
    pub fn to_base58(&self) -> (r: String)
        ensures
            r@ == base58_encoded(self.bytes()),
    {
        let bytes = self.0.to_bytes();
        base58_encode(bytes.as_slice())
    }
}

impl From<Point> for PublicKey {
    fn from(x: Point) -> (r: PublicKey) {
        PublicKey(x)
    }
}

impl vstd::std_specs::convert::FromSpecImpl<Point> for PublicKey {
    open spec fn obeys_from_spec() -> bool {
        true
    }

    closed spec fn from_spec(x: Point) -> PublicKey {
        PublicKey(x)
    }
}

/// The key made from a point wraps that point.
pub proof fn lemma_public_from_point(x: Point)
    ensures
        <PublicKey as vstd::std_specs::convert::FromSpec<Point>>::from_spec(x).bytes() == x.bytes(),
{
}

/// A secret key with a public key.
#[derive(Clone, Copy, Debug, PartialEq, Eq)]
pub struct Keypair {
    pub secret: SecretKey,
    pub public: PublicKey,
}

} // verus!
