//! The bounty lifecycle: state changes and assignment, as decisions on what is
//! stored of a bounty.

use vstd::prelude::*;
use crate::bounty::{lemma_state_word, state_word, Bounty, BountyState};
use crate::bounty_id::{bounty_id_text, BountyNum};
use crate::text::{chars_of, dec, push_dec_u64, push_str, string_from_chars, to_lowercase};
use crate::permissions::eq_lit;

verus! {

/// What the lifecycle commands read and change of a stored bounty.
#[derive(Copy, Clone, Debug, PartialEq, Eq, Structural)]
pub struct BountyStatus {
    pub state: BountyState,
    pub assigned_to: Option<u64>,
}

/// Why a lifecycle command is refused.
#[derive(Copy, Clone, Debug, PartialEq, Eq, Structural)]
pub enum Refusal {
    /// No bounty with that number exists in the community.
    NotFound,
    /// The bounty is already in the requested state.
    AlreadyInState(BountyState),
    /// The bounty already has an assignee (who is kept).
    AlreadyAssigned(u64),
    /// Only approved bounties can be taken by a hunter.
    NotApproved,
    /// Only pending bounties can be approved.
    NotPending,
    /// Nobody is assigned to the bounty.
    NobodyAssigned,
    /// The caller is not the bounty's assignee.
    NotAssignedToCaller,
}

/// Approving, completing or rejecting: a change into the state the bounty
/// already has is refused, and only a pending bounty can be approved;
/// completing and rejecting work from any other state.
pub open spec fn spec_set_state(b: Option<BountyStatus>, new_state: BountyState) -> Result<BountyStatus, Refusal> {
    match b {
        None => Err(Refusal::NotFound),
        Some(s) => if s.state == new_state {
            Err(Refusal::AlreadyInState(new_state))
        } else if new_state == BountyState::Approved && s.state != BountyState::Pending {
            Err(Refusal::NotPending)
        } else {
            Ok(BountyStatus { state: new_state, assigned_to: s.assigned_to })
        },
    }
}

/// A manager assigns someone: allowed whatever the state, even over another assignee.
pub open spec fn spec_assign(b: Option<BountyStatus>, user: u64) -> Result<BountyStatus, Refusal> {
    match b {
        None => Err(Refusal::NotFound),
        Some(s) => Ok(BountyStatus { state: s.state, assigned_to: Some(user) }),
    }
}

/// A hunter takes a bounty: only an approved bounty that nobody holds.
pub open spec fn spec_self_assign(b: Option<BountyStatus>, user: u64) -> Result<BountyStatus, Refusal> {
    match b {
        None => Err(Refusal::NotFound),
        Some(s) => match s.assigned_to {
            Some(other) => Err(Refusal::AlreadyAssigned(other)),
            None => if s.state != BountyState::Approved {
                Err(Refusal::NotApproved)
            } else {
                Ok(BountyStatus { state: s.state, assigned_to: Some(user) })
            },
        },
    }
}

/// A manager clears the assignee, if there is one.
pub open spec fn spec_unassign(b: Option<BountyStatus>) -> Result<BountyStatus, Refusal> {
    match b {
        None => Err(Refusal::NotFound),
        Some(s) => match s.assigned_to {
            None => Err(Refusal::NobodyAssigned),
            Some(_) => Ok(BountyStatus { state: s.state, assigned_to: None }),
        },
    }
}

/// A hunter gives a bounty back: only the assignee may.
pub open spec fn spec_self_unassign(b: Option<BountyStatus>, user: u64) -> Result<BountyStatus, Refusal> {
    match b {
        None => Err(Refusal::NotFound),
        Some(s) => if s.assigned_to != Some(user) {
            Err(Refusal::NotAssignedToCaller)
        } else {
            Ok(BountyStatus { state: s.state, assigned_to: None })
        },
    }
}

/// Decides a state change (approve, complete, reject).
pub fn set_state(b: Option<BountyStatus>, new_state: BountyState) -> (r: Result<BountyStatus, Refusal>)
    ensures
        r == spec_set_state(b, new_state),
{
    match b {
        None => Err(Refusal::NotFound),
        Some(s) => if s.state == new_state {
            Err(Refusal::AlreadyInState(new_state))
        } else if new_state == BountyState::Approved && s.state != BountyState::Pending {
            Err(Refusal::NotPending)
        } else {
            Ok(BountyStatus { state: new_state, assigned_to: s.assigned_to })
        },
    }
}

/// Decides a manager's assignment.
pub fn assign(b: Option<BountyStatus>, user: u64) -> (r: Result<BountyStatus, Refusal>)
    ensures
        r == spec_assign(b, user),
{
    match b {
        None => Err(Refusal::NotFound),
        Some(s) => Ok(BountyStatus { state: s.state, assigned_to: Some(user) }),
    }
}

/// Decides a hunter's self-assignment.
pub fn self_assign(b: Option<BountyStatus>, user: u64) -> (r: Result<BountyStatus, Refusal>)
    ensures
        r == spec_self_assign(b, user),
{
    match b {
        None => Err(Refusal::NotFound),
        Some(s) => match s.assigned_to {
            Some(other) => Err(Refusal::AlreadyAssigned(other)),
            None => if s.state != BountyState::Approved {
                Err(Refusal::NotApproved)
            } else {
                Ok(BountyStatus { state: s.state, assigned_to: Some(user) })
            },
        },
    }
}

/// Decides a manager's unassignment.
pub fn unassign(b: Option<BountyStatus>) -> (r: Result<BountyStatus, Refusal>)
    ensures
        r == spec_unassign(b),
{
    match b {
        None => Err(Refusal::NotFound),
        Some(s) => match s.assigned_to {
            None => Err(Refusal::NobodyAssigned),
            Some(_) => Ok(BountyStatus { state: s.state, assigned_to: None }),
        },
    }
}

/// Decides a hunter's self-unassignment.
pub fn self_unassign(b: Option<BountyStatus>, user: u64) -> (r: Result<BountyStatus, Refusal>)
    ensures
        r == spec_self_unassign(b, user),
{
    match b {
        None => Err(Refusal::NotFound),
        Some(s) => {
            let mine = match s.assigned_to {
                Some(a) => a == user,
                None => false,
            };
            if !mine {
                Err(Refusal::NotAssignedToCaller)
            } else {
                Ok(BountyStatus { state: s.state, assigned_to: None })
            }
        },
    }
}

/// The reply to a refused lifecycle command.
pub open spec fn refusal_text(r: Refusal) -> Seq<char> {
    match r {
        Refusal::NotFound => "A bounty with that ID does not exist."@,
        Refusal::AlreadyInState(s) => "The bounty is already "@ + state_word(s) + "."@,
        Refusal::AlreadyAssigned(id) => "The bounty is already assigned to <@"@ + dec(id as nat) + ">."@,
        Refusal::NotApproved => "You cannot assign yourself to this bounty because it is not in the correct state."@,
        Refusal::NotPending => "Only pending bounties can be approved."@,
        Refusal::NobodyAssigned => "No one is assigned to that bounty."@,
        Refusal::NotAssignedToCaller => "You are not assigned to that bounty."@,
    }
}

/// Explains why a lifecycle command was refused.
pub fn refusal_message(r: Refusal) -> (m: String)
    ensures
        m@ == refusal_text(r),
{
    let mut out: Vec<char> = Vec::new();
    match r {
        Refusal::NotFound => push_str(&mut out, "A bounty with that ID does not exist."),
        Refusal::AlreadyInState(s) => {
            push_str(&mut out, "The bounty is already ");
            let name = s.to_string();
            proof { lemma_state_word(s); }
            let lower = to_lowercase(name.as_str());
            push_str(&mut out, lower.as_str());
            push_str(&mut out, ".");
        },
        Refusal::AlreadyAssigned(id) => {
            push_str(&mut out, "The bounty is already assigned to <@");
            push_dec_u64(&mut out, id);
            push_str(&mut out, ">.");
        },
        Refusal::NotApproved => push_str(
            &mut out,
            "You cannot assign yourself to this bounty because it is not in the correct state.",
        ),
        Refusal::NotPending => push_str(&mut out, "Only pending bounties can be approved."),
        Refusal::NobodyAssigned => push_str(&mut out, "No one is assigned to that bounty."),
        Refusal::NotAssignedToCaller => push_str(&mut out, "You are not assigned to that bounty."),
    }
    assert(out@ =~= refusal_text(r));
    string_from_chars(&out)
}

/// The reply to a state change.
pub open spec fn state_changed_text(n: BountyNum, s: BountyState) -> Seq<char> {
    "Updated `"@ + bounty_id_text(n.0) + "`, it is now "@ + state_word(s)
}

/// Reports a state change.
pub fn state_changed_message(n: BountyNum, s: BountyState) -> (m: String)
    ensures
        m@ == state_changed_text(n, s),
{
    let mut out: Vec<char> = Vec::new();
    push_str(&mut out, "Updated `");
    let id = n.to_string();
    push_str(&mut out, id.as_str());
    push_str(&mut out, "`, it is now ");
    let name = s.to_string();
    proof { lemma_state_word(s); }
    let lower = to_lowercase(name.as_str());
    push_str(&mut out, lower.as_str());
    assert(out@ =~= state_changed_text(n, s));
    string_from_chars(&out)
}

/// The reply to an assignment by a manager.
pub open spec fn assigned_text(user: u64, n: BountyNum) -> Seq<char> {
    "Assigned <@"@ + dec(user as nat) + "> to the bounty `"@ + bounty_id_text(n.0) + "`."@
}

/// Reports an assignment by a manager.
pub fn assigned_message(user: u64, n: BountyNum) -> (m: String)
    ensures
        m@ == assigned_text(user, n),
{
    let mut out: Vec<char> = Vec::new();
    push_str(&mut out, "Assigned <@");
    push_dec_u64(&mut out, user);
    push_str(&mut out, "> to the bounty `");
    let id = n.to_string();
    push_str(&mut out, id.as_str());
    push_str(&mut out, "`.");
    assert(out@ =~= assigned_text(user, n));
    string_from_chars(&out)
}

/// The reply to an unassignment by a manager.
pub open spec fn unassigned_text(user: u64, n: BountyNum) -> Seq<char> {
    "Unassigned <@"@ + dec(user as nat) + "> from the bounty `"@ + bounty_id_text(n.0) + "`."@
}

/// Reports an unassignment by a manager.
pub fn unassigned_message(user: u64, n: BountyNum) -> (m: String)
    ensures
        m@ == unassigned_text(user, n),
{
    let mut out: Vec<char> = Vec::new();
    push_str(&mut out, "Unassigned <@");
    push_dec_u64(&mut out, user);
    push_str(&mut out, "> from the bounty `");
    let id = n.to_string();
    push_str(&mut out, id.as_str());
    push_str(&mut out, "`.");
    assert(out@ =~= unassigned_text(user, n));
    string_from_chars(&out)
}


/// What the lifecycle commands read of a fetched bounty.
pub fn status_of(b: &Option<Bounty>) -> (r: Option<BountyStatus>)
    ensures
        match b {
            Some(x) => r == Some(BountyStatus { state: x.state, assigned_to: x.assigned_to }),
            None => r is None,
        },
{
    match b {
        Some(x) => Some(BountyStatus { state: x.state, assigned_to: x.assigned_to }),
        None => None,
    }
}

/// Replies that name a bounty by its public id.
#[derive(Copy, Clone, Debug, PartialEq, Eq, Structural)]
pub enum BountyNotice {
    SelfAssigned,
    SelfUnassigned,
    Edited,
    Deleted,
    ConfirmDelete,
}

pub open spec fn notice_text(k: BountyNotice, n: BountyNum) -> Seq<char> {
    let id = bounty_id_text(n.0);
    match k {
        BountyNotice::SelfAssigned => "Assigned yourself to the bounty `"@ + id + "`."@,
        BountyNotice::SelfUnassigned => "Unassigned you from `"@ + id + "`."@,
        BountyNotice::Edited => "Updated the bounty content of `"@ + id + "`."@,
        BountyNotice::Deleted => "Deleted bounty `"@ + id + "`."@,
        BountyNotice::ConfirmDelete => "This will delete the bounty `"@ + id + "`, which cannot be undone.\nAre you sure?"@,
    }
}

/// A reply that names a bounty by its public id.
pub fn notice_message(k: BountyNotice, n: BountyNum) -> (r: String)
    ensures
        r@ == notice_text(k, n),
{
    let id = n.to_string();
    let mut out: Vec<char> = Vec::new();
    match k {
        BountyNotice::SelfAssigned => push_str(&mut out, "Assigned yourself to the bounty `"),
        BountyNotice::SelfUnassigned => push_str(&mut out, "Unassigned you from `"),
        BountyNotice::Edited => push_str(&mut out, "Updated the bounty content of `"),
        BountyNotice::Deleted => push_str(&mut out, "Deleted bounty `"),
        BountyNotice::ConfirmDelete => push_str(&mut out, "This will delete the bounty `"),
    }
    push_str(&mut out, id.as_str());
    match k {
        BountyNotice::ConfirmDelete => push_str(&mut out, "`, which cannot be undone.\nAre you sure?"),
        _ => push_str(&mut out, "`."),
    }
    assert(out@ =~= notice_text(k, n));
    string_from_chars(&out)
}

/// The reply to removing a stakeholder.
pub open spec fn stakeholder_removed_text(user: u64, n: BountyNum) -> Seq<char> {
    "Removed bounty stakeholder <@"@ + dec(user as nat) + "> from bounty `"@ + bounty_id_text(n.0) + "`."@
}

/// Reports that a stakeholder's contributions were removed.
pub fn stakeholder_removed_message(user: u64, n: BountyNum) -> (r: String)
    ensures
        r@ == stakeholder_removed_text(user, n),
{
    let mut out: Vec<char> = Vec::new();
    push_str(&mut out, "Removed bounty stakeholder <@");
    push_dec_u64(&mut out, user);
    push_str(&mut out, "> from bounty `");
    let id = n.to_string();
    push_str(&mut out, id.as_str());
    push_str(&mut out, "`.");
    assert(out@ =~= stakeholder_removed_text(user, n));
    string_from_chars(&out)
}

/// The emoji that confirms a destructive command.
pub open spec fn confirm_emoji() -> Seq<char> {
    "\u{2705}"@
}

/// The emoji that declines a destructive command.
pub open spec fn decline_emoji() -> Seq<char> {
    "\u{274c}"@
}

/// What a reaction to a confirmation prompt answers: only the member who ran
/// the command answers, yes with the confirm emoji and no with the decline
/// emoji; any other reaction answers nothing.
pub fn confirmation_answer(expected_user: u64, reacting_user: u64, emoji: &str) -> (r: Option<bool>)
    ensures
        r == if reacting_user != expected_user {
            None
        } else if emoji@ == confirm_emoji() {
            Some(true)
        } else if emoji@ == decline_emoji() {
            Some(false)
        } else {
            None
        },
{
    if reacting_user != expected_user {
        return None;
    }
    let v = chars_of(emoji);
    if eq_lit(&v, "\u{2705}") {
        Some(true)
    } else if eq_lit(&v, "\u{274c}") {
        Some(false)
    } else {
        None
    }
}

} // verus!
