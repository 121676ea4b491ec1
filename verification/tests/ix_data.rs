use sol_trade_sdk::pumpfun_ix_data::{
    encode_pumpfun_buy_exact_sol_in_ix_data, encode_pumpfun_buy_ix_data,
    encode_pumpfun_sell_ix_data, BUY_DISCRIMINATOR, BUY_EXACT_SOL_IN_DISCRIMINATOR,
    SELL_DISCRIMINATOR, TRACK_VOLUME_TRUE,
};

fn read_u64(b: &[u8]) -> u64 {
    let mut a = [0u8; 8];
    a.copy_from_slice(b);
    u64::from_le_bytes(a)
}

#[test]
fn buy_data_layout() {
    let d = encode_pumpfun_buy_ix_data(1_000_000, 2_000_000, TRACK_VOLUME_TRUE);
    assert_eq!(
        d,
        [
            102, 6, 61, 18, 1, 218, 235, 234, 0x40, 0x42, 0x0F, 0, 0, 0, 0, 0, 0x80, 0x84, 0x1E, 0,
            0, 0, 0, 0, 1
        ]
    );
}

#[test]
fn buy_exact_sol_in_data_layout() {
    let d = encode_pumpfun_buy_exact_sol_in_ix_data(0x0102030405060708, u64::MAX, 0);
    assert_eq!(&d[..8], &BUY_EXACT_SOL_IN_DISCRIMINATOR);
    assert_eq!(&d[8..16], &[8, 7, 6, 5, 4, 3, 2, 1]);
    assert_eq!(&d[16..24], &[0xff; 8]);
    assert_eq!(d[24], 0);
    assert_eq!(d.len(), 25);
}

#[test]
fn sell_data_layout() {
    let d = encode_pumpfun_sell_ix_data(5, 0);
    assert_eq!(
        d,
        [51, 230, 133, 164, 1, 127, 131, 173, 5, 0, 0, 0, 0, 0, 0, 0, 0, 0, 0, 0, 0, 0, 0, 0]
    );
}

#[test]
fn data_matches_std_little_endian() {
    for &(a, b) in &[(0u64, 0u64), (1, 2), (u64::MAX, 12345), (987654321987, u64::MAX - 1)] {
        let buy = encode_pumpfun_buy_ix_data(a, b, 1);
        assert_eq!(&buy[..8], &BUY_DISCRIMINATOR);
        assert_eq!(&buy[8..16], &a.to_le_bytes());
        assert_eq!(&buy[16..24], &b.to_le_bytes());
        let sell = encode_pumpfun_sell_ix_data(a, b);
        assert_eq!(&sell[..8], &SELL_DISCRIMINATOR);
        assert_eq!(&sell[8..16], &a.to_le_bytes());
        assert_eq!(&sell[16..24], &b.to_le_bytes());
    }
}

#[test]
fn data_round_trips() {
    let buy = encode_pumpfun_buy_ix_data(77, 88, TRACK_VOLUME_TRUE);
    assert_eq!(read_u64(&buy[8..16]), 77);
    assert_eq!(read_u64(&buy[16..24]), 88);
    assert_eq!(buy[24], TRACK_VOLUME_TRUE);
    let exact = encode_pumpfun_buy_exact_sol_in_ix_data(11, 22, 1);
    assert_eq!(read_u64(&exact[8..16]), 11);
    assert_eq!(read_u64(&exact[16..24]), 22);
    let sell = encode_pumpfun_sell_ix_data(33, 44);
    assert_eq!(read_u64(&sell[8..16]), 33);
    assert_eq!(read_u64(&sell[16..24]), 44);
}

#[test]
fn kinds_differ_in_discriminator() {
    let buy = encode_pumpfun_buy_ix_data(1, 1, 1);
    let exact = encode_pumpfun_buy_exact_sol_in_ix_data(1, 1, 1);
    let sell = encode_pumpfun_sell_ix_data(1, 1);
    assert_ne!(&buy[..8], &exact[..8]);
    assert_ne!(&buy[..8], &sell[..8]);
    assert_ne!(&exact[..8], &sell[..8]);
    assert_eq!(TRACK_VOLUME_TRUE, 1);
}
