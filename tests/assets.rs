use xassets::{
    is_valid_desc, is_valid_memo, is_valid_token, is_valid_token_name, Asset, AssetErr, AssetType,
    Chain, NegativeImbalance, PositiveImbalance, TotalAssetBalance,
};

fn btc() -> Vec<u8> {
    b"BTC".to_vec()
}

#[test]
fn token_accepts_full_charset() {
    assert!(is_valid_token(b"BTC").is_ok());
    assert!(is_valid_token(b"a-Z.0|9~").is_ok());
    assert!(is_valid_token(&[b'X'; 32]).is_ok());
}

#[test]
fn token_rejects_bad_length() {
    assert_eq!(is_valid_token(b""), Err("Token length is zero or too long."));
    assert_eq!(is_valid_token(&[b'X'; 33]), Err("Token length is zero or too long."));
}

#[test]
fn token_rejects_bad_byte() {
    let msg = "Token can only use numbers, capital/lowercase letters or '-', '.', '|', '~'.";
    assert_eq!(is_valid_token(b"BT C"), Err(msg));
    assert_eq!(is_valid_token(b"BTC_"), Err(msg));
    assert_eq!(is_valid_token(b"B@"), Err(msg));
}

#[test]
fn token_name_rules() {
    assert!(is_valid_token_name(b"Bitcoin Cash").is_ok());
    assert!(is_valid_token_name(b" ~").is_ok());
    assert_eq!(is_valid_token_name(b""), Err("Token name is zero or too long."));
    assert_eq!(is_valid_token_name(&[b'a'; 33]), Err("Token name is zero or too long."));
    assert_eq!(
        is_valid_token_name(b"Bit\ncoin"),
        Err("Token name can not use an invisiable ASCII char.")
    );
    assert!(is_valid_token_name(&[0x7F]).is_err());
    assert!(is_valid_token_name(&[0x1F]).is_err());
}

#[test]
fn desc_rules() {
    assert!(is_valid_desc(b"").is_ok());
    assert!(is_valid_desc(&[b'x'; 128]).is_ok());
    assert_eq!(is_valid_desc(&[b'x'; 129]), Err("Token desc too long"));
    assert_eq!(is_valid_desc(&[b'x', 0x80]), Err("Desc can not use an invisiable ASCII char."));
    assert!(is_valid_desc(&[0x00]).is_err());
}

#[test]
fn memo_rules() {
    assert!(is_valid_memo(b"", 0).is_ok());
    assert!(is_valid_memo(b"hello", 5).is_ok());
    assert_eq!(is_valid_memo(b"hello", 4), Err("memo is too long"));
}

#[test]
fn asset_new_round_trips() {
    let a = Asset::new(btc(), b"Bitcoin".to_vec(), Chain::Bitcoin, 8, Vec::new()).unwrap();
    assert_eq!(a.token(), b"BTC".to_vec());
    assert_eq!(a.token_name(), b"Bitcoin".to_vec());
    assert_eq!(a.chain(), Chain::Bitcoin);
    assert_eq!(a.precision(), 8);
    assert_eq!(a.desc(), Vec::<u8>::new());
    assert!(a.is_valid().is_ok());
}

#[test]
fn asset_new_checks_token_first() {
    let r = Asset::new(Vec::new(), Vec::new(), Chain::ChainX, 8, vec![0x01]);
    assert_eq!(r, Err("Token length is zero or too long."));
    let r = Asset::new(btc(), Vec::new(), Chain::ChainX, 8, vec![0x01]);
    assert_eq!(r, Err("Token name is zero or too long."));
    let r = Asset::new(btc(), b"Bitcoin".to_vec(), Chain::ChainX, 8, vec![0x01]);
    assert_eq!(r, Err("Desc can not use an invisiable ASCII char."));
}

#[test]
fn asset_set_desc_keeps_other_fields() {
    let mut a = Asset::new(btc(), b"Bitcoin".to_vec(), Chain::Bitcoin, 8, Vec::new()).unwrap();
    a.set_desc(b"digital gold".to_vec());
    assert_eq!(a.desc(), b"digital gold".to_vec());
    assert_eq!(a.token(), btc());
    a.set_desc(vec![0x01]);
    assert_eq!(a.desc(), vec![0x01]);
    assert_eq!(a.is_valid(), Err("Desc can not use an invisiable ASCII char."));
}

#[test]
fn enumerations() {
    assert_eq!(Chain::default(), Chain::ChainX);
    assert_eq!(AssetType::default(), AssetType::Free);
    assert_eq!(Chain::iterator(), vec![Chain::ChainX, Chain::Bitcoin, Chain::Ethereum]);
    let types = AssetType::iterator();
    assert_eq!(types.len(), 7);
    assert_eq!(types[0], AssetType::Free);
    assert_eq!(types[1], AssetType::ReservedStaking);
    assert_eq!(types[6], AssetType::ReservedCurrency);
    assert!(types.windows(2).all(|w| w[0] < w[1]));
}

#[test]
fn asset_err_info() {
    assert_eq!(AssetErr::NotEnough.info(), "balance too low for this account");
    assert_eq!(AssetErr::OverFlow.info(), "balance too high for this account");
    assert_eq!(AssetErr::TotalAssetNotEnough.info(), "total balance too low for this asset");
    assert_eq!(AssetErr::TotalAssetOverFlow.info(), "total balance too high for this asset");
    assert_eq!(AssetErr::InvalidToken.info(), "not a valid token for this account");
    assert_eq!(AssetErr::InvalidAccount.info(), "account Locked");
}

#[test]
fn split_sums_to_whole() {
    for k in [0u64, 3, 10, 11, 1000] {
        let (a, b) = PositiveImbalance::new(10, btc(), AssetType::Free).split(k);
        assert_eq!(a.peek(), k.min(10));
        assert_eq!(a.peek() + b.peek(), 10);
        let mut s = TotalAssetBalance::new();
        a.drop(&mut s);
        b.drop(&mut s);
        assert_eq!(s.get(b"BTC", AssetType::Free), 10);
    }
    let (a, b) = NegativeImbalance::new(7, btc(), AssetType::Free).split(2);
    assert_eq!((a.peek(), b.peek()), (2, 5));
}

#[test]
fn offset_positive_against_negative() {
    let p = PositiveImbalance::new(10, btc(), AssetType::Free);
    let r = p.offset(NegativeImbalance::new(4, btc(), AssetType::Free));
    assert_eq!(r.unwrap().peek(), 6);
    let p = PositiveImbalance::new(4, btc(), AssetType::Free);
    let r = p.offset(NegativeImbalance::new(10, btc(), AssetType::Free));
    assert_eq!(r.unwrap_err().peek(), 6);
    let p = PositiveImbalance::new(5, btc(), AssetType::Free);
    let r = p.offset(NegativeImbalance::new(5, btc(), AssetType::Free));
    assert_eq!(r.unwrap().peek(), 0);
}

#[test]
fn offset_negative_against_positive() {
    let n = NegativeImbalance::new(10, btc(), AssetType::Free);
    assert_eq!(n.offset(PositiveImbalance::new(3, btc(), AssetType::Free)).unwrap().peek(), 7);
    let n = NegativeImbalance::new(3, btc(), AssetType::Free);
    assert_eq!(n.offset(PositiveImbalance::new(10, btc(), AssetType::Free)).unwrap_err().peek(), 7);
}

#[test]
fn offset_result_keeps_tag_of_self() {
    let p = PositiveImbalance::new(1, btc(), AssetType::ReservedStaking);
    let r = p.offset(NegativeImbalance::new(3, b"ETH".to_vec(), AssetType::Free));
    let mut s = TotalAssetBalance::new();
    s.set(btc(), AssetType::ReservedStaking, 10);
    r.unwrap_err().drop(&mut s);
    assert_eq!(s.get(b"BTC", AssetType::ReservedStaking), 8);
    assert_eq!(s.get(b"ETH", AssetType::Free), 0);
}

#[test]
fn merge_then_drop_adds_eight() {
    let mut s = TotalAssetBalance::new();
    s.set(btc(), AssetType::Free, 100);
    let m = PositiveImbalance::new(3, btc(), AssetType::Free)
        .merge(PositiveImbalance::new(5, btc(), AssetType::Free));
    assert_eq!(m.peek(), 8);
    m.drop(&mut s);
    assert_eq!(s.get(b"BTC", AssetType::Free), 108);
}

#[test]
fn merge_saturates() {
    let m = NegativeImbalance::new(u64::MAX, btc(), AssetType::Free)
        .merge(NegativeImbalance::new(5, btc(), AssetType::Free));
    assert_eq!(m.peek(), u64::MAX);
}

#[test]
fn subsume_in_place() {
    let mut p = PositiveImbalance::new(3, btc(), AssetType::Free);
    p.subsume(PositiveImbalance::new(4, btc(), AssetType::Free));
    assert_eq!(p.peek(), 7);
    let mut n = NegativeImbalance::new(u64::MAX - 1, btc(), AssetType::Free);
    n.subsume(NegativeImbalance::new(4, btc(), AssetType::Free));
    assert_eq!(n.peek(), u64::MAX);
}

#[test]
fn negative_drop_decreases_and_saturates() {
    let mut s = TotalAssetBalance::new();
    s.set(btc(), AssetType::ReservedStaking, 10);
    NegativeImbalance::new(4, btc(), AssetType::ReservedStaking).drop(&mut s);
    assert_eq!(s.get(b"BTC", AssetType::ReservedStaking), 6);
    s.set(btc(), AssetType::ReservedStaking, 3);
    NegativeImbalance::new(4, btc(), AssetType::ReservedStaking).drop(&mut s);
    assert_eq!(s.get(b"BTC", AssetType::ReservedStaking), 0);
    assert_eq!(s.get(b"BTC", AssetType::Free), 0);
}

#[test]
fn positive_drop_saturates() {
    let mut s = TotalAssetBalance::new();
    s.set(btc(), AssetType::Free, u64::MAX - 1);
    PositiveImbalance::new(4, btc(), AssetType::Free).drop(&mut s);
    assert_eq!(s.get(b"BTC", AssetType::Free), u64::MAX);
}

#[test]
fn zero_and_drop_zero() {
    let z = PositiveImbalance::zero(b"PCX".to_vec());
    assert_eq!(z.peek(), 0);
    assert!(z.drop_zero().is_ok());
    assert!(NegativeImbalance::zero(b"PCX".to_vec()).drop_zero().is_ok());
    let back = PositiveImbalance::new(2, btc(), AssetType::Free).drop_zero().unwrap_err();
    assert_eq!(back.peek(), 2);
    let back = NegativeImbalance::new(9, btc(), AssetType::Free).drop_zero().unwrap_err();
    assert_eq!(back.peek(), 9);
}

#[test]
fn store_keeps_keys_apart() {
    let mut s = TotalAssetBalance::new();
    s.set(btc(), AssetType::Free, 1);
    s.set(btc(), AssetType::ReservedDexSpot, 2);
    s.set(b"ETH".to_vec(), AssetType::Free, 3);
    s.set(btc(), AssetType::Free, 4);
    assert_eq!(s.get(b"BTC", AssetType::Free), 4);
    assert_eq!(s.get(b"BTC", AssetType::ReservedDexSpot), 2);
    assert_eq!(s.get(b"ETH", AssetType::Free), 3);
    assert_eq!(s.get(b"BT", AssetType::Free), 0);
}

#[test]
fn sequence_conserves_value() {
    let mut s = TotalAssetBalance::new();
    s.set(btc(), AssetType::Free, 50);
    let p = PositiveImbalance::new(20, btc(), AssetType::Free);
    let n = NegativeImbalance::new(12, btc(), AssetType::Free);
    let (p1, p2) = p.split(7);
    let n = n.merge(NegativeImbalance::new(3, btc(), AssetType::Free));
    let rest = p1.offset(n).unwrap_err();
    let p2 = p2.merge(PositiveImbalance::new(1, btc(), AssetType::Free));
    rest.drop(&mut s);
    p2.drop(&mut s);
    // 50 + 20 - 12 - 3 + 1
    assert_eq!(s.get(b"BTC", AssetType::Free), 56);
}
