use bounty_bot::bounty::{BountyStakeholder, BountyState, KeyMap};
use bounty_bot::bounty_id::BountyNum;
use bounty_bot::render::{bounty_content_to_message, BountyCreator, SUBMISSION_PENDING};
use bounty_bot::submission::BountySubmissionFormat;

fn sample_content() -> KeyMap<Option<String>> {
    KeyMap {
        title: Some("Fix the login".to_owned()),
        additional_info: Some("info".to_owned()),
        bounty_amount: Some("$5".to_owned()),
        deadline: Some("<t:1:f>".to_owned()),
        issue_url: Some("https://example.com/7".to_owned()),
        judging_criteria: None,
    }
}

#[test]
fn renders_every_part_of_a_bounty() {
    let format = BountySubmissionFormat::default();
    let stakeholders = vec![
        BountyStakeholder { bounty_id: 1, user_id: 7, amount: 1050, note: Some("note".to_owned()) },
        BountyStakeholder { bounty_id: 1, user_id: 8, amount: 5, note: None },
    ];
    let creator = BountyCreator::User {
        id: 12,
        username: "alice".to_owned(),
        discriminator: "0001".to_owned(),
        avatar: Some("abc".to_owned()),
    };
    let m = bounty_content_to_message(
        &sample_content(),
        &creator,
        &format,
        BountyNum(1),
        1_700_000_000_123,
        BountyState::Pending,
        Some(42),
        Some(1_700_000_000),
        &stakeholders,
    );
    assert_eq!(m.title, "Fix the login");
    assert_eq!(
        m.description,
        "## Additional Information\ninfo\n## Bounty Amount\n$5\n## Issue URL\nhttps://example.com/7\n===\n\
**Assigned to**\n<@42>\n**Due date**\n<t:1700000000:s>\n**Bounty Amount (USD)**\n`$10.50` by <@7> - note\n\
`$0.05` by <@8>\n**Total Bounty Amount (USD)**\n`$10.55`\n"
    );
    assert_eq!(m.color, SUBMISSION_PENDING);
    assert_eq!(m.author_name, "alice#0001 (12)");
    assert_eq!(m.author_icon_url, "https://fluxerusercontent.com/avatars/12/abc.webp?size=128");
    assert_eq!(m.footer, format!("{} - Pending", BountyNum(1).to_string()));
    assert_eq!(m.timestamp_ms, 1_700_000_000_123);
}

#[test]
fn renders_a_bare_bounty() {
    let format = BountySubmissionFormat::default();
    let content = KeyMap {
        title: None,
        additional_info: None,
        bounty_amount: None,
        deadline: None,
        issue_url: None,
        judging_criteria: None,
    };
    let m = bounty_content_to_message(
        &content,
        &BountyCreator::Id(99),
        &format,
        BountyNum(2),
        0,
        BountyState::Rejected,
        None,
        None,
        &Vec::new(),
    );
    assert_eq!(m.title, "*No title*");
    assert_eq!(m.description, "\n===\n");
    assert_eq!(m.author_name, "99");
    assert_eq!(m.author_icon_url, "https://fluxerstatic.com/avatars/0.png");
    assert!(m.footer.ends_with(" - Rejected"));
}

#[test]
fn default_avatar_follows_the_user_id() {
    let format = BountySubmissionFormat::default();
    let creator = BountyCreator::User {
        id: 13,
        username: "bob".to_owned(),
        discriminator: "0002".to_owned(),
        avatar: None,
    };
    let m = bounty_content_to_message(
        &sample_content(),
        &creator,
        &format,
        BountyNum(3),
        0,
        BountyState::Approved,
        None,
        Some(-5),
        &Vec::new(),
    );
    assert_eq!(m.author_icon_url, "https://fluxerstatic.com/avatars/1.png");
    assert!(m.description.ends_with("===\n**Due date**\n<t:-5:s>\n"));
}

#[test]
fn field_without_titles_gets_a_placeholder_heading() {
    let mut format = BountySubmissionFormat::default();
    format.titles.judging_criteria = Vec::new();
    let mut content = sample_content();
    content.judging_criteria = Some("fast".to_owned());
    let m = bounty_content_to_message(
        &content,
        &BountyCreator::Id(1),
        &format,
        BountyNum(4),
        0,
        BountyState::Completed,
        None,
        None,
        &Vec::new(),
    );
    assert!(m.description.contains("## *no titles for key*\nfast\n===\n"));
}
