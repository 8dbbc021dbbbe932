use bounty_bot::bounty::{BountyInfoKey, BountySubmissionContent};
use bounty_bot::submission::{
    check_submission, created_message, missing_fields_message, missing_required,
    parse_message_content_as_submission, BountySubmissionFormat, SubmissionCheck,
};
use bounty_bot::bounty_id::BountyNum;

fn only(c: &BountySubmissionContent, expected: &[(BountyInfoKey, &str)]) {
    for key in [
        BountyInfoKey::Title,
        BountyInfoKey::AdditionalInfo,
        BountyInfoKey::BountyAmount,
        BountyInfoKey::Deadline,
        BountyInfoKey::IssueUrl,
        BountyInfoKey::JudgingCriteria,
    ] {
        let want = expected.iter().find(|(k, _)| *k == key).map(|(_, v)| v.to_string());
        assert_eq!(c.get(key).clone(), want, "field {key:?}");
    }
}

#[test]
fn test_parse_message_content_as_submission() {
    let format = BountySubmissionFormat::default();

    {
        let content = "
            ## Title
            Some content
            ";
        let parsed = parse_message_content_as_submission(&format, content);
        only(&parsed, &[(BountyInfoKey::Title, "Some content")]);
    }
    {
        let content = "## Bounty title
## Deadline
never™
or actually- yesterday!

## Amount
one miwwion dollahs";
        let parsed = parse_message_content_as_submission(&format, content);
        only(
            &parsed,
            &[
                (BountyInfoKey::Title, ""),
                (BountyInfoKey::Deadline, "never™\nor actually- yesterday!"),
                (BountyInfoKey::BountyAmount, "one miwwion dollahs"),
            ],
        );
    }
}

#[test]
fn text_before_the_first_section_is_ignored() {
    let format = BountySubmissionFormat::default();
    let parsed = parse_message_content_as_submission(&format, "hello\n## Issue URL\r\nhttps://x/1\r\n");
    only(&parsed, &[(BountyInfoKey::IssueUrl, "https://x/1")]);
}

#[test]
fn unknown_sections_are_dropped_and_later_sections_win() {
    let format = BountySubmissionFormat::default();
    let parsed = parse_message_content_as_submission(
        &format,
        "## Whatever\nx\n## TITLE\nfirst\n## bounty title\n  second  \n##NoSpace\nstill second",
    );
    only(&parsed, &[(BountyInfoKey::Title, "second  \n##NoSpace\nstill second")]);
}

#[test]
fn missing_required_fields_are_listed_in_template_order() {
    let format = BountySubmissionFormat::default();
    let parsed = parse_message_content_as_submission(&format, "## Amount\n$5");
    let missing = missing_required(&format, &parsed);
    assert_eq!(missing, vec![BountyInfoKey::Title, BountyInfoKey::IssueUrl]);
    assert_eq!(
        missing_fields_message(&format, &missing),
        "Your submission is missing the following: Title, Issue URL"
    );
    match check_submission(&format, &parsed) {
        SubmissionCheck::MissingFields(m) => assert_eq!(m, missing),
        _ => panic!("expected missing fields"),
    }
}

#[test]
fn complete_submission_with_deadline_is_accepted() {
    let format = BountySubmissionFormat::default();
    let parsed = parse_message_content_as_submission(
        &format,
        "## Title\nFix it\n## Issue\nhttps://example.com/1\n## Bounty Amount\n$20\n## Due Date\n  <t:1700000000:f>  ",
    );
    match check_submission(&format, &parsed) {
        SubmissionCheck::Accepted { deadline } => assert_eq!(deadline, Some(1700000000)),
        _ => panic!("expected acceptance"),
    }
}

#[test]
fn complete_submission_without_deadline_is_accepted() {
    let format = BountySubmissionFormat::default();
    let parsed = parse_message_content_as_submission(&format, "## Title\nA\n## Issue URL\nB\n## Amount\nC");
    match check_submission(&format, &parsed) {
        SubmissionCheck::Accepted { deadline } => assert_eq!(deadline, None),
        _ => panic!("expected acceptance"),
    }
}

#[test]
fn malformed_deadline_is_refused() {
    let format = BountySubmissionFormat::default();
    let parsed = parse_message_content_as_submission(
        &format,
        "## Title\nA\n## Issue URL\nB\n## Amount\nC\n## Deadline\nnext week",
    );
    assert!(matches!(check_submission(&format, &parsed), SubmissionCheck::InvalidDeadline));
}

#[test]
fn created_reply_names_the_bounty() {
    let n = BountyNum(3);
    assert_eq!(created_message(n), format!("Bounty `{}` created (now awaiting approval).", n.to_string()));
}
