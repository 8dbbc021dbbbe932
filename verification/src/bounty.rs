//! Bounty records: states, content fields and the rows they are read from.

use vstd::prelude::*;
use crate::bounty_id::BountyNum;
use crate::text::{all_ascii, ascii_lower, chars_of, string_from_chars};
use crate::permissions::eq_lit;

verus! {

/// Where a bounty is in its lifecycle.
#[derive(Copy, Clone, Debug, PartialEq, Eq, Structural)]
pub enum BountyState {
    /// The bounty has been implemented (implies Approved).
    Completed,
    /// The bounty has been approved but is not implemented yet.
    Approved,
    /// The bounty is pending approval.
    Pending,
    /// The bounty has been rejected.
    Rejected,
}

/// The name of a state, as it is stored and shown.
pub open spec fn state_name(s: BountyState) -> Seq<char> {
    match s {
        BountyState::Completed => "Completed"@,
        BountyState::Approved => "Approved"@,
        BountyState::Pending => "Pending"@,
        BountyState::Rejected => "Rejected"@,
    }
}

/// The name of a state in lower case, as replies write it.
pub open spec fn state_word(s: BountyState) -> Seq<char> {
    match s {
        BountyState::Completed => "completed"@,
        BountyState::Approved => "approved"@,
        BountyState::Pending => "pending"@,
        BountyState::Rejected => "rejected"@,
    }
}

/// State names are ASCII, and lower-casing one gives the state's word.
pub proof fn lemma_state_word(s: BountyState)
    ensures
        all_ascii(state_name(s)),
        ascii_lower(state_name(s)) == state_word(s),
{
    reveal_strlit("Completed");
    reveal_strlit("Approved");
    reveal_strlit("Pending");
    reveal_strlit("Rejected");
    reveal_strlit("completed");
    reveal_strlit("approved");
    reveal_strlit("pending");
    reveal_strlit("rejected");
    assert(ascii_lower(state_name(s)) =~= state_word(s));
}

/// The state named exactly `s` (names are case-sensitive).
pub open spec fn state_named(s: Seq<char>) -> Option<BountyState> {
    if s == "Completed"@ {
        Some(BountyState::Completed)
    } else if s == "Approved"@ {
        Some(BountyState::Approved)
    } else if s == "Pending"@ {
        Some(BountyState::Pending)
    } else if s == "Rejected"@ {
        Some(BountyState::Rejected)
    } else {
        None
    }
}

impl BountyState {
    /// The state's name.
    pub fn to_string(&self) -> (r: String)
        ensures
            r@ == state_name(*self),
    {
        let v = match self {
            BountyState::Completed => chars_of("Completed"),
            BountyState::Approved => chars_of("Approved"),
            BountyState::Pending => chars_of("Pending"),
            BountyState::Rejected => chars_of("Rejected"),
        };
        string_from_chars(&v)
    }

    /// The state with this exact name.
    pub fn from_str(s: &str) -> (r: Option<BountyState>)
        ensures
            r == state_named(s@),
    {
        let v = chars_of(s);
        if eq_lit(&v, "Completed") {
            Some(BountyState::Completed)
        } else if eq_lit(&v, "Approved") {
            Some(BountyState::Approved)
        } else if eq_lit(&v, "Pending") {
            Some(BountyState::Pending)
        } else if eq_lit(&v, "Rejected") {
            Some(BountyState::Rejected)
        } else {
            None
        }
    }
}

/// A field of a bounty's content, in the order in which fields are shown.
#[derive(Copy, Clone, Debug, PartialEq, Eq, Structural)]
pub enum BountyInfoKey {
    Title,
    AdditionalInfo,
    BountyAmount,
    Deadline,
    IssueUrl,
    JudgingCriteria,
}

/// The field at position `i` in display order.
pub open spec fn key_at(i: int) -> BountyInfoKey {
    if i == 0 {
        BountyInfoKey::Title
    } else if i == 1 {
        BountyInfoKey::AdditionalInfo
    } else if i == 2 {
        BountyInfoKey::BountyAmount
    } else if i == 3 {
        BountyInfoKey::Deadline
    } else if i == 4 {
        BountyInfoKey::IssueUrl
    } else {
        BountyInfoKey::JudgingCriteria
    }
}

/// Every field, in display order.
pub fn all_keys() -> (r: Vec<BountyInfoKey>)
    ensures
        r@.len() == 6,
        forall|i: int| 0 <= i < 6 ==> r@[i] == key_at(i),
{
    let mut r = Vec::new();
    r.push(BountyInfoKey::Title);
    r.push(BountyInfoKey::AdditionalInfo);
    r.push(BountyInfoKey::BountyAmount);
    r.push(BountyInfoKey::Deadline);
    r.push(BountyInfoKey::IssueUrl);
    r.push(BountyInfoKey::JudgingCriteria);
    r
}

/// One value for each content field.
#[derive(Clone, Debug)]
pub struct KeyMap<T> {
    pub title: T,
    pub additional_info: T,
    pub bounty_amount: T,
    pub deadline: T,
    pub issue_url: T,
    pub judging_criteria: T,
}

impl<T> KeyMap<T> {
    pub open spec fn spec_get(&self, k: BountyInfoKey) -> T {
        match k {
            BountyInfoKey::Title => self.title,
            BountyInfoKey::AdditionalInfo => self.additional_info,
            BountyInfoKey::BountyAmount => self.bounty_amount,
            BountyInfoKey::Deadline => self.deadline,
            BountyInfoKey::IssueUrl => self.issue_url,
            BountyInfoKey::JudgingCriteria => self.judging_criteria,
        }
    }

    /// The value of field `k`.
    pub fn get(&self, k: BountyInfoKey) -> (r: &T)
        ensures
            *r == self.spec_get(k),
    {
        match k {
            BountyInfoKey::Title => &self.title,
            BountyInfoKey::AdditionalInfo => &self.additional_info,
            BountyInfoKey::BountyAmount => &self.bounty_amount,
            BountyInfoKey::Deadline => &self.deadline,
            BountyInfoKey::IssueUrl => &self.issue_url,
            BountyInfoKey::JudgingCriteria => &self.judging_criteria,
        }
    }

    /// Replaces the value of field `k`; the other fields keep theirs.
    pub fn set(&mut self, k: BountyInfoKey, v: T)
        ensures
            final(self).spec_get(k) == v,
            forall|j: BountyInfoKey| j != k ==> final(self).spec_get(j) == old(self).spec_get(j),
    {
        match k {
            BountyInfoKey::Title => self.title = v,
            BountyInfoKey::AdditionalInfo => self.additional_info = v,
            BountyInfoKey::BountyAmount => self.bounty_amount = v,
            BountyInfoKey::Deadline => self.deadline = v,
            BountyInfoKey::IssueUrl => self.issue_url = v,
            BountyInfoKey::JudgingCriteria => self.judging_criteria = v,
        }
    }
}

/// The content of a bounty: a text for some of the fields.
pub type BountySubmissionContent = KeyMap<Option<String>>;

/// The content as a map from field to text.
pub open spec fn content_view(c: BountySubmissionContent) -> Map<BountyInfoKey, Seq<char>> {
    Map::new(
        |k: BountyInfoKey| c.spec_get(k) is Some,
        |k: BountyInfoKey| c.spec_get(k).unwrap()@,
    )
}

/// Content with no field set.
pub fn empty_content() -> (r: BountySubmissionContent)
    ensures
        content_view(r) == Map::<BountyInfoKey, Seq<char>>::empty(),
{
    let r = KeyMap {
        title: None,
        additional_info: None,
        bounty_amount: None,
        deadline: None,
        issue_url: None,
        judging_criteria: None,
    };
    assert(content_view(r) =~= Map::<BountyInfoKey, Seq<char>>::empty());
    r
}

/// Where the message that shows a bounty lives.
#[derive(Copy, Clone, Debug, PartialEq, Eq, Structural)]
pub struct BountyRelatedMessage {
    pub channel_id: u64,
    pub message_id: u64,
}

/// A stored bounty. Times are Unix times: `created_at_ms` in milliseconds,
/// `deadline` in seconds.
pub struct Bounty {
    pub bounty_id: i64,
    pub bounty_number: BountyNum,
    pub guild_id: u64,
    pub created_by: u64,
    pub content: BountySubmissionContent,
    pub state: BountyState,
    pub created_at_ms: i64,
    pub assigned_to: Option<u64>,
    pub related_message: Option<BountyRelatedMessage>,
    pub deadline: Option<i64>,
}

/// What is stored for a new bounty.
pub struct BountyCreateData {
    pub bounty_number: BountyNum,
    pub guild_id: u64,
    pub created_by: u64,
    pub content: BountySubmissionContent,
    pub state: BountyState,
    pub created_at_ms: i64,
    pub assigned_to: Option<u64>,
    pub related_message: Option<BountyRelatedMessage>,
    pub deadline: Option<i64>,
}

/// A bounty as the database stores it (the content already decoded).
pub struct BountySchema {
    pub bounty_id: i64,
    pub bounty_number: i64,
    pub guild_id: i64,
    pub created_by: i64,
    pub content: BountySubmissionContent,
    pub state: String,
    pub created_at_ms: i64,
    pub assigned_to: Option<i64>,
    pub related_message_id: Option<i64>,
    pub related_channel_id: Option<i64>,
    pub deadline: Option<i64>,
}

/// Why a stored bounty row could not be read.
#[derive(Debug)]
pub enum BountyRowError {
    /// The stored state is not the name of a state; the text is kept.
    UnknownState(String),
}

pub open spec fn opt_unsigned(x: Option<i64>) -> Option<u64> {
    match x {
        Some(v) => Some(v as u64),
        None => None,
    }
}

/// The message a row points to: only when both its ids are stored.
pub open spec fn row_related_message(message_id: Option<i64>, channel_id: Option<i64>) -> Option<BountyRelatedMessage> {
    match (message_id, channel_id) {
        (Some(m), Some(c)) => Some(BountyRelatedMessage { channel_id: c as u64, message_id: m as u64 }),
        _ => None,
    }
}

impl Bounty {
    /// Reads a stored row: ids are reinterpreted as unsigned, the state must be
    /// a state's exact name, and the message is kept only when both its ids are there.
    pub fn try_from_schema(value: BountySchema) -> (r: Result<Bounty, BountyRowError>)
        ensures
            state_named(value.state@) is None ==> (r matches Err(BountyRowError::UnknownState(s)) && s@ == value.state@),
            state_named(value.state@) matches Some(st) ==> (r matches Ok(b) && b.bounty_id == value.bounty_id
                && b.bounty_number == BountyNum(value.bounty_number) && b.guild_id == value.guild_id as u64
                && b.created_by == value.created_by as u64 && b.content == value.content && b.state == st
                && b.created_at_ms == value.created_at_ms && b.assigned_to == opt_unsigned(value.assigned_to)
                && b.related_message == row_related_message(value.related_message_id, value.related_channel_id)
                && b.deadline == value.deadline),
    {
        let state = match BountyState::from_str(value.state.as_str()) {
            Some(s) => s,
            None => return Err(BountyRowError::UnknownState(value.state)),
        };
        let assigned_to = match value.assigned_to {
            Some(id) => Some(id as u64),
            None => None,
        };
        let related_message = match (value.related_message_id, value.related_channel_id) {
            (Some(m), Some(c)) => Some(BountyRelatedMessage { channel_id: c as u64, message_id: m as u64 }),
            _ => None,
        };
        Ok(Bounty {
            bounty_id: value.bounty_id,
            bounty_number: BountyNum(value.bounty_number),
            guild_id: value.guild_id as u64,
            created_by: value.created_by as u64,
            content: value.content,
            state,
            created_at_ms: value.created_at_ms,
            assigned_to,
            related_message,
            deadline: value.deadline,
        })
    }
}

/// One contribution to a bounty, in cents (USD).
pub struct BountyStakeholder {
    pub bounty_id: i64,
    pub user_id: u64,
    pub amount: u64,
    pub note: Option<String>,
}

/// A contribution as the database stores it.
pub struct BountyStakeholderSchema {
    pub bounty_id: i64,
    pub user_id: i64,
    pub amount: i64,
    pub note: Option<String>,
}

/// Why a stored contribution could not be read.
#[derive(Copy, Clone, Debug, PartialEq, Eq, Structural)]
pub enum StakeholderRowError {
    /// The stored amount is negative.
    NegativeAmount,
}

impl BountyStakeholder {
    /// Reads a stored contribution; a negative amount is refused.
    pub fn try_from_schema(value: BountyStakeholderSchema) -> (r: Result<BountyStakeholder, StakeholderRowError>)
        ensures
            value.amount < 0 <==> r is Err,
            r matches Ok(s) ==> s.bounty_id == value.bounty_id && s.user_id == value.user_id as u64
                && s.amount == value.amount && s.note == value.note,
    {
        if value.amount < 0 {
            return Err(StakeholderRowError::NegativeAmount);
        }
        Ok(BountyStakeholder {
            bounty_id: value.bounty_id,
            user_id: value.user_id as u64,
            amount: value.amount as u64,
            note: value.note,
        })
    }
}

} // verus!
