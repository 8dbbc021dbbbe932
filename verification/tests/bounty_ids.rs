use bounty_bot::bounty_id::BountyNum;

#[test]
fn sqids_initialization() {
    let id_to_encode = 123;
    let encoded_id = BountyNum(id_to_encode).try_encode(true);
    let encoded_id_no_blocklist = BountyNum(id_to_encode).try_encode(false);
    assert!(encoded_id.is_ok());
    assert!(encoded_id_no_blocklist.is_ok());
}

#[test]
fn bounty_id_round_trips() {
    for n in [0i64, 1, 2, 42, 123, 99_999, 1_000_000_007, i64::MAX, -1, i64::MIN] {
        let text = BountyNum(n).to_string();
        assert!(text.chars().count() >= 5, "id {text} is shorter than the minimum");
        assert_eq!(BountyNum::from_str(&text), Ok(BountyNum(n)));
    }
}

#[test]
fn bounty_id_is_the_blocklisted_encoding() {
    let n = BountyNum(77);
    assert_eq!(n.to_string(), n.try_encode(true).unwrap());
}

#[test]
fn bounty_id_rejects_other_text() {
    assert_eq!(BountyNum::from_str(""), Err(()));
    assert_eq!(BountyNum::from_str("!!!!!"), Err(()));
    assert_eq!(BountyNum::from_str("a b c"), Err(()));
    let text = BountyNum(5).to_string();
    let padded = format!("{text} ");
    assert_eq!(BountyNum::from_str(&padded), Err(()));
}

#[test]
fn distinct_numbers_have_distinct_ids() {
    let a = BountyNum(10).to_string();
    let b = BountyNum(11).to_string();
    assert_ne!(a, b);
}
