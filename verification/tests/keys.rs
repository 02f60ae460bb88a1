use darkfi_net::burn_proof::BurnRevealedValues;
use darkfi_net::keypair::{ContractError, Keypair, PublicKey, SecretKey};
use darkfi_net::mint_proof::{Coin, MintRevealedValues};
use darkfi_net::pallas::{Base, Point};
use pasta_curves::arithmetic::CurveAffine;
use pasta_curves::group::ff::PrimeField;
use pasta_curves::group::{Curve, Group, GroupEncoding};
use pasta_curves::pallas;

const MODULUS_LE: [u8; 32] = [
    0x01, 0x00, 0x00, 0x00, 0xed, 0x30, 0x2d, 0x99, 0x1b, 0xf9, 0x4c, 0x09, 0xfc, 0x98, 0x46, 0x22,
    0x00, 0x00, 0x00, 0x00, 0x00, 0x00, 0x00, 0x00, 0x00, 0x00, 0x00, 0x00, 0x00, 0x00, 0x00, 0x40,
];

fn expected_xy(p: pallas::Point) -> ([u8; 32], [u8; 32]) {
    let c = p.to_affine().coordinates().unwrap();
    (c.x().to_repr(), c.y().to_repr())
}

#[test]
fn field_elements_are_the_numbers_below_the_modulus() {
    assert!(Base::from_repr(MODULUS_LE).is_none());
    let mut below = MODULUS_LE;
    below[0] = 0x00;
    assert_eq!(Base::from_repr(below).unwrap().to_repr(), below);
    let mut above = MODULUS_LE;
    above[0] = 0x02;
    assert!(Base::from_repr(above).is_none());
    assert!(Base::from_repr([0xFF; 32]).is_none());
    assert_eq!(Base::from_repr([0; 32]).unwrap().to_repr(), [0; 32]);
    let mut high = [0u8; 32];
    high[31] = 0x40;
    assert!(Base::from_repr(high).is_some());
    high[16] = 0x01;
    assert!(Base::from_repr(high).is_none());
}

#[test]
fn secret_key_from_bytes() {
    let mut bytes = [0u8; 32];
    bytes[0] = 42;
    let k = SecretKey::from_bytes(bytes).unwrap();
    assert_eq!(k.inner().to_repr(), bytes);
    assert_eq!(SecretKey::from(k.inner()), k);
    assert_eq!(
        SecretKey::from_bytes(MODULUS_LE),
        Err(ContractError::IoError("Could not convert bytes to SecretKey".to_string()))
    );
}

#[test]
fn secret_key_base58() {
    assert_eq!(
        SecretKey::from_bytes([0; 32]).unwrap().to_base58(),
        "11111111111111111111111111111111"
    );
    let mut bytes = [0u8; 32];
    bytes[31] = 1;
    let k = SecretKey::from_bytes(bytes).unwrap();
    assert_eq!(k.to_base58(), "11111111111111111111111111111112");
    assert_eq!(SecretKey::from_str("11111111111111111111111111111112"), Ok(k));
    let mut bytes = [7u8; 32];
    bytes[31] = 0x3f;
    let k = SecretKey::from_bytes(bytes).unwrap();
    assert_eq!(SecretKey::from_str(&k.to_base58()), Ok(k));
    assert_eq!(k.to_base58(), bs58::encode(bytes).into_string());
}

#[test]
fn secret_key_from_str_errors() {
    assert_eq!(
        SecretKey::from_str("1111"),
        Err(ContractError::IoError(
            "Failed decoding SecretKey from bytes, len is not 32".to_string()
        ))
    );
    assert_eq!(
        SecretKey::from_str(""),
        Err(ContractError::IoError(
            "Failed decoding SecretKey from bytes, len is not 32".to_string()
        ))
    );
    // '0' is not in the alphabet
    assert!(matches!(SecretKey::from_str("0000"), Err(ContractError::IoError(_))));
    // 32 bytes, but not below the modulus
    let too_big = bs58::encode([0xFFu8; 32]).into_string();
    assert_eq!(
        SecretKey::from_str(&too_big),
        Err(ContractError::IoError("Could not convert bytes to SecretKey".to_string()))
    );
}

#[test]
fn public_key_from_bytes_and_coordinates() {
    let g = pallas::Point::generator();
    let k = PublicKey::from_bytes(g.to_bytes()).unwrap();
    assert_eq!(k.inner().to_bytes(), g.to_bytes());
    assert_eq!(PublicKey::from(k.inner()), k);
    let (x, y) = expected_xy(g);
    assert_eq!(k.x().to_repr(), x);
    assert_eq!(k.y().to_repr(), y);
    let (kx, ky) = k.xy();
    assert_eq!((kx.to_repr(), ky.to_repr()), (x, y));
    let (tx, ty) = k.try_xy().unwrap();
    assert_eq!((tx.to_repr(), ty.to_repr()), (x, y));
    // the generator of Pallas is (-1, 2)
    let mut minus_one = MODULUS_LE;
    minus_one[0] = 0;
    let mut two = [0u8; 32];
    two[0] = 2;
    assert_eq!(x, minus_one);
    assert_eq!(y, two);
}

#[test]
fn the_point_at_infinity_has_no_coordinates() {
    let k = PublicKey::from_bytes([0; 32]).unwrap();
    assert!(k.try_xy().is_none());
    assert!(k.inner().xy().is_none());
}

#[test]
fn public_key_rejects_bytes_that_encode_no_point() {
    assert_eq!(
        PublicKey::from_bytes([0xFF; 32]),
        Err(ContractError::IoError("Could not convert bytes to PublicKey".to_string()))
    );
    assert!(Point::from_bytes([0xFF; 32]).is_none());
    let mut found_bad = false;
    for i in 1..40u8 {
        let mut bytes = [0u8; 32];
        bytes[0] = i;
        let ours = Point::from_bytes(bytes).is_some();
        let theirs = bool::from(pallas::Point::from_bytes(&bytes).is_some());
        assert_eq!(ours, theirs);
        found_bad |= !ours;
    }
    assert!(found_bad);
}

#[test]
fn public_key_base58() {
    let g2 = pallas::Point::generator().double();
    let k = PublicKey::from_bytes(g2.to_bytes()).unwrap();
    let text = k.to_base58();
    assert_eq!(text, bs58::encode(g2.to_bytes()).into_string());
    assert_eq!(PublicKey::from_str(&text), Ok(k));
    assert_eq!(
        PublicKey::from_str("2g"),
        Err(ContractError::IoError(
            "Failed decoding PublicKey from bytes, len is not 32".to_string()
        ))
    );
    assert!(matches!(PublicKey::from_str("not base58!"), Err(ContractError::IoError(_))));
    let not_a_point = bs58::encode([0xFFu8; 32]).into_string();
    assert_eq!(
        PublicKey::from_str(&not_a_point),
        Err(ContractError::IoError("Could not convert bytes to PublicKey".to_string()))
    );
    let pair = Keypair { secret: SecretKey::from_bytes([0; 32]).unwrap(), public: k };
    assert_eq!(pair.public, k);
}

#[test]
fn mint_outputs() {
    let g = pallas::Point::generator();
    let g3 = g.double() + g;
    let mut coin = [0u8; 32];
    coin[0] = 9;
    let revealed = MintRevealedValues {
        value_commit: Point::from_bytes(g.to_bytes()).unwrap(),
        token_commit: Point::from_bytes(g3.to_bytes()).unwrap(),
        coin: Coin(Base::from_repr(coin).unwrap()),
    };
    let (vx, vy) = expected_xy(g);
    let (tx, ty) = expected_xy(g3);
    let outputs: Vec<[u8; 32]> = revealed.make_outputs().iter().map(|b| b.to_repr()).collect();
    assert_eq!(outputs, vec![coin, vx, vy, tx, ty]);
    let again: Vec<[u8; 32]> =
        revealed.try_make_outputs().unwrap().iter().map(|b| b.to_repr()).collect();
    assert_eq!(again, outputs);
    let at_infinity = MintRevealedValues {
        value_commit: Point::from_bytes([0; 32]).unwrap(),
        ..revealed
    };
    assert!(at_infinity.try_make_outputs().is_none());
}

#[test]
fn burn_outputs() {
    let g = pallas::Point::generator();
    let g2 = g.double();
    let g4 = g2.double();
    let base = |n: u8| {
        let mut b = [0u8; 32];
        b[0] = n;
        Base::from_repr(b).unwrap()
    };
    let revealed = BurnRevealedValues {
        value_commit: Point::from_bytes(g.to_bytes()).unwrap(),
        token_commit: Point::from_bytes(g2.to_bytes()).unwrap(),
        nullifier: base(1),
        merkle_root: base(2),
        spend_hook: base(3),
        user_data_enc: base(4),
        signature_public: PublicKey::from_bytes(g4.to_bytes()).unwrap(),
    };
    let (vx, vy) = expected_xy(g);
    let (tx, ty) = expected_xy(g2);
    let (sx, sy) = expected_xy(g4);
    let outputs: Vec<[u8; 32]> = revealed.make_outputs().iter().map(|b| b.to_repr()).collect();
    assert_eq!(
        outputs,
        vec![base(1).to_repr(), vx, vy, tx, ty, base(2).to_repr(), base(4).to_repr(), sx, sy]
    );
    assert!(revealed.try_make_outputs().is_some());
    let at_infinity = BurnRevealedValues {
        signature_public: PublicKey::from_bytes([0; 32]).unwrap(),
        ..revealed
    };
    assert!(at_infinity.try_make_outputs().is_none());
}
