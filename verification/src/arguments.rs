//! Reading the arguments of the bounty, stakeholder and configuration commands.

use vstd::prelude::*;
use crate::bounty::{content_view, BountyInfoKey, BountySubmissionContent};
use crate::bounty_id::{parse_bounty_id, BountyNum};
use crate::text::{
    chars_of, parse_u64, parse_u64_range, push_str, range_eq, range_starts_with, split_once_bounds,
    split_once_or_all, starts_with, string_from_chars, string_from_range, trim, trim_bounds,
};
use crate::timestamp::{max_plain_unix_time, parse_timestamp, timestamp_value};

verus! {

/// Why the bounty id argument was refused.
#[derive(Copy, Clone, Debug, PartialEq, Eq, Structural)]
pub enum BountyArgError {
    /// No id was given.
    Missing,
    /// The text is not a bounty id.
    Invalid,
}

/// The bounty id at the start of a command's arguments, and the rest.
pub open spec fn bounty_arg(args: Seq<char>) -> Result<(i64, Seq<char>), BountyArgError> {
    let (num, rest) = split_once_or_all(trim(args), ' ');
    if num.len() == 0 {
        Err(BountyArgError::Missing)
    } else {
        match parse_bounty_id(num) {
            Some(n) => Ok((n, rest)),
            None => Err(BountyArgError::Invalid),
        }
    }
}

/// Reads the bounty id that starts a command's arguments; returns it and the rest.
pub fn parse_bounty_num_arg(args: &str) -> (r: Result<(BountyNum, String), BountyArgError>)
    ensures
        match bounty_arg(args@) {
            Ok((n, rest)) => (r matches Ok((b, s)) && b == BountyNum(n) && s@ == rest),
            Err(e) => r == Err::<(BountyNum, String), BountyArgError>(e),
        },
{
    let v = chars_of(args);
    let (a, b) = trim_bounds(&v, 0, v.len());
    assert(v@.subrange(0, v.len() as int) == v@);
    let (n0, n1, r0, r1) = split_once_bounds(&v, a, b, ' ');
    if n0 == n1 {
        return Err(BountyArgError::Missing);
    }
    let num = string_from_range(&v, n0, n1);
    match BountyNum::from_str(num.as_str()) {
        Ok(n) => Ok((n, string_from_range(&v, r0, r1))),
        Err(_) => Err(BountyArgError::Invalid),
    }
}

/// The reply to a refused bounty id, for a command described by `operation`.
pub open spec fn bounty_arg_error_text(e: BountyArgError, operation: Seq<char>) -> Seq<char> {
    match e {
        BountyArgError::Missing => "Provide a bounty ID to "@ + operation + " that bounty."@,
        BountyArgError::Invalid => "Could not parse the bounty ID."@,
    }
}

/// Explains why a bounty id was refused.
pub fn bounty_arg_error_message(e: BountyArgError, operation: &str) -> (r: String)
    ensures
        r@ == bounty_arg_error_text(e, operation@),
{
    let mut out: Vec<char> = Vec::new();
    match e {
        BountyArgError::Missing => {
            push_str(&mut out, "Provide a bounty ID to ");
            push_str(&mut out, operation);
            push_str(&mut out, " that bounty.");
        },
        BountyArgError::Invalid => push_str(&mut out, "Could not parse the bounty ID."),
    }
    assert(out@ =~= bounty_arg_error_text(e, operation@));
    string_from_chars(&out)
}

/// A stakeholder subcommand with its arguments.
pub enum StakeholderCommand {
    Add(String),
    Remove(String),
    Unknown,
}

/// Reads `add ...`, `remove ...` or `rm ...`.
pub fn parse_stakeholder_command(args: &str) -> (r: StakeholderCommand)
    ensures
        ({
            let (sub, rest) = split_once_or_all(trim(args@), ' ');
            if sub == "add"@ {
                r matches StakeholderCommand::Add(a) && a@ == rest
            } else if sub == "remove"@ || sub == "rm"@ {
                r matches StakeholderCommand::Remove(a) && a@ == rest
            } else {
                r is Unknown
            }
        }),
{
    let v = chars_of(args);
    let (a, b) = trim_bounds(&v, 0, v.len());
    assert(v@.subrange(0, v.len() as int) == v@);
    let (s0, s1, r0, r1) = split_once_bounds(&v, a, b, ' ');
    let rest = string_from_range(&v, r0, r1);
    if range_eq(&v, s0, s1, &chars_of("add")) {
        StakeholderCommand::Add(rest)
    } else if range_eq(&v, s0, s1, &chars_of("remove")) || range_eq(&v, s0, s1, &chars_of("rm")) {
        StakeholderCommand::Remove(rest)
    } else {
        StakeholderCommand::Unknown
    }
}

/// An amount argument split into its number and unit: `$` before the number
/// or no unit means dollars, `ct` after it means cents.
pub struct AmountToken {
    pub number: String,
    pub in_cents: bool,
    pub rest: String,
}

pub open spec fn ends_with(s: Seq<char>, p: Seq<char>) -> bool {
    p.len() <= s.len() && s.skip(s.len() - p.len()) == p
}

/// The number text and whether it is in cents, of an amount argument.
pub open spec fn amount_parts(amount: Seq<char>) -> (Seq<char>, bool) {
    if amount.len() > 0 && amount[0] == '$' {
        (amount.drop_first(), false)
    } else if ends_with(amount, "ct"@) {
        (amount.take(amount.len() - 2), true)
    } else {
        (amount, false)
    }
}

proof fn lemma_ends_with_ct(s: Seq<char>)
    ensures
        ends_with(s, "ct"@) <==> (s.len() >= 2 && s[s.len() - 2] == 'c' && s[s.len() - 1] == 't'),
{
    reveal_strlit("ct");
    if s.len() >= 2 {
        let t = s.skip(s.len() - 2);
        assert(t.len() == 2 && t[0] == s[s.len() - 2] && t[1] == s[s.len() - 1]);
        if s[s.len() - 2] == 'c' && s[s.len() - 1] == 't' {
            assert(t =~= "ct"@);
        }
    }
}

/// The number part of `v[a0..a1]` and whether it is in cents.
fn amount_range(v: &Vec<char>, a0: usize, a1: usize) -> (r: (usize, usize, bool))
    requires
        a0 <= a1 <= v.len(),
    ensures
        r.0 <= r.1 <= v.len(),
        amount_parts(v@.subrange(a0 as int, a1 as int)) == (v@.subrange(r.0 as int, r.1 as int), r.2),
{
    let ghost amount = v@.subrange(a0 as int, a1 as int);
    proof { lemma_ends_with_ct(amount); }
    if a1 > a0 && v[a0] == '$' {
        assert(amount.drop_first() == v@.subrange(a0 + 1, a1 as int));
        (a0 + 1, a1, false)
    } else if a1 - a0 >= 2 && v[a1 - 2] == 'c' && v[a1 - 1] == 't' {
        assert(amount.take(amount.len() - 2) == v@.subrange(a0 as int, a1 - 2));
        (a0, a1 - 2, true)
    } else {
        (a0, a1, false)
    }
}

/// Splits an amount off the front of the arguments.
pub fn split_amount(args: &str) -> (r: AmountToken)
    ensures
        ({
            let (amount, rest) = split_once_or_all(args@, ' ');
            r.rest@ == rest && (r.number@, r.in_cents) == amount_parts(amount)
        }),
{
    let v = chars_of(args);
    assert(v@.subrange(0, v.len() as int) == v@);
    let (a0, a1, r0, r1) = split_once_bounds(&v, 0, v.len(), ' ');
    let rest = string_from_range(&v, r0, r1);
    let (n0, n1, cents) = amount_range(&v, a0, a1);
    AmountToken { number: string_from_range(&v, n0, n1), in_cents: cents, rest }
}

/// The user argument and the optional note that follow a stakeholder's amount.
pub fn split_user_and_note(rest: &str) -> (r: (String, Option<String>))
    ensures
        ({
            let (user, note) = split_once_or_all(rest@, ' ');
            &&& r.0@ == user
            &&& if trim(note).len() == 0 { r.1 is None } else { r.1 matches Some(n) && n@ == trim(note) }
        }),
{
    let v = chars_of(rest);
    assert(v@.subrange(0, v.len() as int) == v@);
    let (u0, u1, n0, n1) = split_once_bounds(&v, 0, v.len(), ' ');
    let user = string_from_range(&v, u0, u1);
    let (t0, t1) = trim_bounds(&v, n0, n1);
    if t0 == t1 {
        (user, None)
    } else {
        (user, Some(string_from_range(&v, t0, t1)))
    }
}

/// The user a user argument names: a mention `<@id>` (also written `<@!id>`)
/// or a bare user id.
pub open spec fn user_ref(s: Seq<char>) -> Option<u64> {
    if starts_with(s, "<@"@) && s.len() >= 3 && s.last() == '>' {
        let inner = s.subrange(2, s.len() - 1);
        if inner.len() > 0 && inner[0] == '!' {
            parse_u64(inner.drop_first())
        } else {
            parse_u64(inner)
        }
    } else {
        parse_u64(s)
    }
}

/// Reads a user argument: a user mention or a user id.
pub fn parse_user_arg(s: &str) -> (r: Option<u64>)
    ensures
        r == user_ref(s@),
{
    let v = chars_of(s);
    let n = v.len();
    assert(v@.subrange(0, n as int) == v@);
    if range_starts_with(&v, 0, n, &chars_of("<@")) && n >= 3 && v[n - 1] == '>' {
        proof { reveal_strlit("<@"); }
        let ghost inner = v@.subrange(2, n - 1);
        if v[2] == '!' {
            assert(inner.drop_first() == v@.subrange(3, n - 1));
            parse_u64_range(&v, 3, n - 1)
        } else {
            parse_u64_range(&v, 2, n - 1)
        }
    } else {
        parse_u64_range(&v, 0, n)
    }
}

/// The name under which the edit command addresses a field.
pub open spec fn field_descriptor(k: BountyInfoKey) -> Seq<char> {
    match k {
        BountyInfoKey::Title => "title"@,
        BountyInfoKey::AdditionalInfo => "additional-info"@,
        BountyInfoKey::BountyAmount => "proposed-amount"@,
        BountyInfoKey::Deadline => "due-date"@,
        BountyInfoKey::IssueUrl => "issue-url"@,
        BountyInfoKey::JudgingCriteria => "judging-criteria"@,
    }
}

/// The field addressed by `name`; the judging criteria are also reached as
/// `judging_criteria`.
pub open spec fn field_named(name: Seq<char>) -> Option<BountyInfoKey> {
    if name == "title"@ {
        Some(BountyInfoKey::Title)
    } else if name == "additional-info"@ {
        Some(BountyInfoKey::AdditionalInfo)
    } else if name == "proposed-amount"@ {
        Some(BountyInfoKey::BountyAmount)
    } else if name == "due-date"@ {
        Some(BountyInfoKey::Deadline)
    } else if name == "issue-url"@ {
        Some(BountyInfoKey::IssueUrl)
    } else if name == "judging-criteria"@ || name == "judging_criteria"@ {
        Some(BountyInfoKey::JudgingCriteria)
    } else {
        None
    }
}

/// The field and value of `<field> [value]`; the value is trimmed.
pub open spec fn edit_args(rest: Seq<char>) -> Option<(BountyInfoKey, Seq<char>)> {
    let (field, value) = split_once_or_all(trim(rest), ' ');
    match field_named(field) {
        Some(k) => Some((k, trim(value))),
        None => None,
    }
}

/// Reads the arguments of the edit command (after the bounty id).
pub fn parse_edit_args(rest: &str) -> (r: Option<(BountyInfoKey, String)>)
    ensures
        match edit_args(rest@) {
            Some((k, v)) => (r matches Some((k2, v2)) && k2 == k && v2@ == v),
            None => r is None,
        },
{
    let v = chars_of(rest);
    let (a, b) = trim_bounds(&v, 0, v.len());
    assert(v@.subrange(0, v.len() as int) == v@);
    let (f0, f1, x0, x1) = split_once_bounds(&v, a, b, ' ');
    let (t0, t1) = trim_bounds(&v, x0, x1);
    let value = string_from_range(&v, t0, t1);
    let key = if range_eq(&v, f0, f1, &chars_of("title")) {
        BountyInfoKey::Title
    } else if range_eq(&v, f0, f1, &chars_of("additional-info")) {
        BountyInfoKey::AdditionalInfo
    } else if range_eq(&v, f0, f1, &chars_of("proposed-amount")) {
        BountyInfoKey::BountyAmount
    } else if range_eq(&v, f0, f1, &chars_of("due-date")) {
        BountyInfoKey::Deadline
    } else if range_eq(&v, f0, f1, &chars_of("issue-url")) {
        BountyInfoKey::IssueUrl
    } else if range_eq(&v, f0, f1, &chars_of("judging-criteria"))
        || range_eq(&v, f0, f1, &chars_of("judging_criteria")) {
        BountyInfoKey::JudgingCriteria
    } else {
        return None;
    };
    Some((key, value))
}

/// The reply to an unknown field: every field name, in display order.
pub open spec fn unknown_field_text() -> Seq<char> {
    "Unknown field. Possible values are: `title`, `additional-info`, `proposed-amount`, `due-date`, `issue-url`, `judging-criteria`"@
}

/// Lists the field names the edit command knows.
pub fn unknown_field_message() -> (r: String)
    ensures
        r@ == unknown_field_text(),
{
    string_from_chars(&chars_of(
        "Unknown field. Possible values are: `title`, `additional-info`, `proposed-amount`, `due-date`, `issue-url`, `judging-criteria`",
    ))
}

/// Sets a content field to `value`, or clears it when `value` is empty.
pub fn apply_content_edit(content: &mut BountySubmissionContent, key: BountyInfoKey, value: String)
    ensures
        content_view(*final(content)) == if value@.len() == 0 {
            content_view(*old(content)).remove(key)
        } else {
            content_view(*old(content)).insert(key, value@)
        },
{
    let ghost before = *content;
    if value.as_str().is_empty() {
        content.set(key, None);
        proof {
            assert(content_view(*content) =~= content_view(before).remove(key));
        }
    } else {
        let ghost vv = value@;
        content.set(key, Some(value));
        proof {
            assert(content_view(*content) =~= content_view(before).insert(key, vv));
        }
    }
}

/// The new due date an edit gives: none for an empty value, else the time the
/// value writes as timestamp markup; `Err` when it is not such markup.
pub fn edit_deadline_value(value: &str) -> (r: Result<Option<i64>, ()>)
    ensures
        value@.len() == 0 ==> r == Ok::<Option<i64>, ()>(None),
        value@.len() > 0 ==> {
            &&& (r matches Ok(Some(t)) ==> timestamp_value(value@) == Some(t))
            &&& (r matches Ok(None) ==> false)
            &&& (timestamp_value(value@) is None ==> r is Err)
            &&& (timestamp_value(value@) matches Some(t) ==> (t <= max_plain_unix_time() ==> r == Ok::<Option<i64>, ()>(Some(t))))
        },
{
    if value.is_empty() {
        return Ok(None);
    }
    match parse_timestamp(value) {
        Some(t) => Ok(Some(t)),
        None => Err(()),
    }
}

} // verus!
