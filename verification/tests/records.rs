use bounty_bot::bounty::{
    empty_content, Bounty, BountyRelatedMessage, BountyRowError, BountySchema, BountyStakeholder,
    BountyStakeholderSchema, BountyState, StakeholderRowError,
};
use bounty_bot::bounty_id::BountyNum;
use bounty_bot::arguments::edit_deadline_value;
use bounty_bot::text::u64_to_string;

fn schema(state: &str, message: Option<i64>, channel: Option<i64>) -> BountySchema {
    BountySchema {
        bounty_id: 1,
        bounty_number: 2,
        guild_id: 3,
        created_by: -2,
        content: empty_content(),
        state: state.to_owned(),
        created_at_ms: 10,
        assigned_to: Some(4),
        related_message_id: message,
        related_channel_id: channel,
        deadline: None,
    }
}

#[test]
fn bounty_rows() {
    let b = Bounty::try_from_schema(schema("Approved", Some(7), Some(8))).unwrap();
    assert_eq!(b.state, BountyState::Approved);
    assert_eq!(b.bounty_number, BountyNum(2));
    assert_eq!(b.created_by, u64::MAX - 1);
    assert_eq!(b.assigned_to, Some(4));
    assert_eq!(b.related_message, Some(BountyRelatedMessage { channel_id: 8, message_id: 7 }));
    let b = Bounty::try_from_schema(schema("Pending", Some(7), None)).unwrap();
    assert_eq!(b.related_message, None);
    match Bounty::try_from_schema(schema("pending", None, None)) {
        Err(BountyRowError::UnknownState(s)) => assert_eq!(s, "pending"),
        Ok(_) => panic!("state names are case-sensitive"),
    }
}

#[test]
fn state_names() {
    for s in [BountyState::Completed, BountyState::Approved, BountyState::Pending, BountyState::Rejected] {
        assert_eq!(BountyState::from_str(&s.to_string()), Some(s));
    }
    assert_eq!(BountyState::Rejected.to_string(), "Rejected");
    assert_eq!(BountyState::from_str("Assigned"), None);
}

#[test]
fn stakeholder_rows() {
    let s = BountyStakeholder::try_from_schema(BountyStakeholderSchema {
        bounty_id: 1,
        user_id: 2,
        amount: 500,
        note: Some("n".to_owned()),
    })
    .unwrap();
    assert_eq!((s.amount, s.user_id, s.note.as_deref()), (500, 2, Some("n")));
    assert_eq!(
        BountyStakeholder::try_from_schema(BountyStakeholderSchema { bounty_id: 1, user_id: 2, amount: -1, note: None })
            .err(),
        Some(StakeholderRowError::NegativeAmount)
    );
}

#[test]
fn timestamps() {
    assert_eq!(edit_deadline_value("<t:1700000000:F>"), Ok(Some(1700000000)));
    assert_eq!(edit_deadline_value("<t:+5:t>"), Ok(Some(5)));
    assert_eq!(edit_deadline_value("<t:0:s>"), Ok(Some(0)));
    assert_eq!(edit_deadline_value(""), Ok(None));
    assert_eq!(edit_deadline_value("<t:1700000000>"), Err(()));
    assert_eq!(edit_deadline_value("<t:12:x>"), Err(()));
    assert_eq!(edit_deadline_value("<t:-3:R>"), Err(()));
    assert_eq!(edit_deadline_value(" <t:3:R>"), Err(()));
}

#[test]
fn decimal_text() {
    assert_eq!(u64_to_string(0), "0");
    assert_eq!(u64_to_string(1234567890), "1234567890");
    assert_eq!(u64_to_string(u64::MAX), "18446744073709551615");
}
