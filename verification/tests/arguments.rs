use bounty_bot::arguments::{
    apply_content_edit, bounty_arg_error_message, edit_deadline_value, parse_bounty_num_arg,
    parse_edit_args, parse_stakeholder_command, parse_user_arg, split_amount, split_user_and_note,
    unknown_field_message, BountyArgError, StakeholderCommand,
};
use bounty_bot::bounty::{empty_content, BountyInfoKey};
use bounty_bot::bounty_id::BountyNum;

#[test]
fn bounty_id_arguments() {
    let id = BountyNum(31).to_string();
    let (n, rest) = parse_bounty_num_arg(&format!("  {id} 250ct @bob ")).unwrap();
    assert_eq!(n, BountyNum(31));
    assert_eq!(rest, "250ct @bob");
    let (n, rest) = parse_bounty_num_arg(&id).unwrap();
    assert_eq!(n, BountyNum(31));
    assert_eq!(rest, "");
    assert_eq!(parse_bounty_num_arg("   ").unwrap_err(), BountyArgError::Missing);
    assert_eq!(parse_bounty_num_arg("?? x").unwrap_err(), BountyArgError::Invalid);
    assert_eq!(bounty_arg_error_message(BountyArgError::Missing, "approve"), "Provide a bounty ID to approve that bounty.");
    assert_eq!(bounty_arg_error_message(BountyArgError::Invalid, "approve"), "Could not parse the bounty ID.");
}

#[test]
fn stakeholder_subcommands() {
    assert!(matches!(parse_stakeholder_command(" add x y"), StakeholderCommand::Add(a) if a == "x y"));
    assert!(matches!(parse_stakeholder_command("rm x"), StakeholderCommand::Remove(a) if a == "x"));
    assert!(matches!(parse_stakeholder_command("remove"), StakeholderCommand::Remove(a) if a.is_empty()));
    assert!(matches!(parse_stakeholder_command("list"), StakeholderCommand::Unknown));
}

#[test]
fn amounts_and_units() {
    let a = split_amount("$10 @bob thanks");
    assert_eq!((a.number.as_str(), a.in_cents, a.rest.as_str()), ("10", false, "@bob thanks"));
    let a = split_amount("250ct @bob");
    assert_eq!((a.number.as_str(), a.in_cents, a.rest.as_str()), ("250", true, "@bob"));
    let a = split_amount("7");
    assert_eq!((a.number.as_str(), a.in_cents, a.rest.as_str()), ("7", false, ""));
    let a = split_amount("$5ct x");
    assert_eq!((a.number.as_str(), a.in_cents), ("5ct", false));
}

#[test]
fn user_and_note() {
    assert_eq!(split_user_and_note("@bob  thanks a lot "), ("@bob".to_owned(), Some("thanks a lot".to_owned())));
    assert_eq!(split_user_and_note("@bob   "), ("@bob".to_owned(), None));
    assert_eq!(split_user_and_note("@bob"), ("@bob".to_owned(), None));
}

#[test]
fn edit_arguments() {
    assert_eq!(parse_edit_args(" title  New title  "), Some((BountyInfoKey::Title, "New title".to_owned())));
    assert_eq!(parse_edit_args("due-date"), Some((BountyInfoKey::Deadline, String::new())));
    assert_eq!(parse_edit_args("judging-criteria fast"), Some((BountyInfoKey::JudgingCriteria, "fast".to_owned())));
    assert_eq!(parse_edit_args("judging_criteria  fast "), Some((BountyInfoKey::JudgingCriteria, "fast".to_owned())));
    assert_eq!(parse_edit_args("Title x"), None);
    assert_eq!(parse_edit_args(""), None);
}

#[test]
fn content_edits() {
    let mut c = empty_content();
    apply_content_edit(&mut c, BountyInfoKey::IssueUrl, "https://x".to_owned());
    assert_eq!(c.issue_url, Some("https://x".to_owned()));
    assert_eq!(c.title, None);
    apply_content_edit(&mut c, BountyInfoKey::IssueUrl, String::new());
    assert_eq!(c.issue_url, None);
}

#[test]
fn deadline_edits() {
    assert_eq!(edit_deadline_value(""), Ok(None));
    assert_eq!(edit_deadline_value("<t:100:R>"), Ok(Some(100)));
    assert_eq!(edit_deadline_value("<t:-1:R>"), Err(()));
    assert_eq!(edit_deadline_value("tomorrow"), Err(()));
}

#[test]
fn user_arguments() {
    assert_eq!(parse_user_arg("<@42>"), Some(42));
    assert_eq!(parse_user_arg("<@!42>"), Some(42));
    assert_eq!(parse_user_arg("42"), Some(42));
    assert_eq!(parse_user_arg("<@&42>"), None);
    assert_eq!(parse_user_arg("<@>"), None);
    assert_eq!(parse_user_arg("bob"), None);
    assert_eq!(parse_user_arg(""), None);
}

#[test]
fn unknown_field_reply() {
    assert_eq!(
        unknown_field_message(),
        "Unknown field. Possible values are: `title`, `additional-info`, `proposed-amount`, `due-date`, `issue-url`, `judging-criteria`"
    );
}

#[test]
fn every_listed_field_name_is_known() {
    let fields = [
        ("title", BountyInfoKey::Title),
        ("additional-info", BountyInfoKey::AdditionalInfo),
        ("proposed-amount", BountyInfoKey::BountyAmount),
        ("due-date", BountyInfoKey::Deadline),
        ("issue-url", BountyInfoKey::IssueUrl),
        ("judging-criteria", BountyInfoKey::JudgingCriteria),
    ];
    for (name, key) in fields {
        assert_eq!(parse_edit_args(name), Some((key, String::new())));
        assert_eq!(parse_edit_args(&format!(" {name}  ")), Some((key, String::new())));
    }
}
