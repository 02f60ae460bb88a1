use darkfi_net::even_bits::{decompose, even_bits_at, table_rows, EvenBits, OddBits};
use pasta_curves::arithmetic::FieldExt;
use pasta_curves::pallas;

#[test]
fn even_bits_at_test() {
    assert_eq!(0b0, even_bits_at(0));
    assert_eq!(0b1, even_bits_at(1));
    assert_eq!(0b100, even_bits_at(2));
    assert_eq!(0b101, even_bits_at(3));
}

#[test]
fn decompose_even_odd_test() {
    let odds = 0xAAAA;
    let evens = 0x5555;
    let (e, o) = decompose(pallas::Base::from_u128(odds).get_lower_128());
    assert_eq!(e.0, 0);
    assert_eq!(o.0, odds >> 1);
    assert_eq!(pallas::Base::from_u128(*e).get_lower_128(), 0);
    assert_eq!(pallas::Base::from_u128(*o).get_lower_128(), odds >> 1);
    let (e, o) = decompose(pallas::Base::from_u128(evens).get_lower_128());
    assert_eq!(e.0, evens);
    assert_eq!(o.0, 0);
    assert_eq!(pallas::Base::from_u128(*e).get_lower_128(), evens);
    assert_eq!(pallas::Base::from_u128(*o).get_lower_128(), 0);
}

#[test]
fn even_bits_spread_every_bit() {
    assert_eq!(even_bits_at(0b1111), 0b0101_0101);
    assert_eq!(even_bits_at(0xFFFF), 0x5555_5555);
    assert_eq!(even_bits_at(0x8000), 0x4000_0000);
}

#[test]
fn table_rows_are_the_even_bits() {
    let rows = table_rows(8);
    assert_eq!(rows.len(), 16);
    for (i, row) in rows.iter().enumerate() {
        assert_eq!(*row, even_bits_at(i));
    }
    assert_eq!(rows[15], 0b0101_0101);
    assert_eq!(table_rows(0), vec![0]);
    assert_eq!(table_rows(1), vec![0]);
    assert_eq!(table_rows(3), vec![0, 1]);
}

#[test]
fn decompose_recombines() {
    let words: [u128; 5] = [0, 1, 2, 0xDEAD_BEEF_0123_4567_89AB_CDEF, u128::MAX];
    for w in words {
        let (EvenBits(e), OddBits(o)) = decompose(w);
        assert_eq!(e + 2 * o, w);
        assert_eq!(e & 0xAAAA_AAAA_AAAA_AAAA_AAAA_AAAA_AAAA_AAAA, 0);
        assert_eq!(o & 0xAAAA_AAAA_AAAA_AAAA_AAAA_AAAA_AAAA_AAAA, 0);
    }
    let (e, o) = decompose(0b1110);
    assert_eq!(e.0, 0b0100);
    assert_eq!(o.0, 0b0101);
}
