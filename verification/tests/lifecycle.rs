use bounty_bot::bounty::BountyState;
use bounty_bot::bounty_id::BountyNum;
use bounty_bot::lifecycle::{
    assign, assigned_message, confirmation_answer, notice_message, refusal_message, self_assign, self_unassign, set_state,
    stakeholder_removed_message, state_changed_message, unassign, unassigned_message, BountyNotice,
    BountyStatus, Refusal,
};

fn status(state: BountyState, assigned_to: Option<u64>) -> BountyStatus {
    BountyStatus { state, assigned_to }
}

#[test]
fn state_changes() {
    assert_eq!(set_state(None, BountyState::Approved), Err(Refusal::NotFound));
    let s = status(BountyState::Pending, Some(4));
    assert_eq!(set_state(Some(s), BountyState::Approved), Ok(status(BountyState::Approved, Some(4))));
    assert_eq!(set_state(Some(s), BountyState::Pending), Err(Refusal::AlreadyInState(BountyState::Pending)));
    assert_eq!(set_state(Some(status(BountyState::Completed, None)), BountyState::Rejected), Ok(status(BountyState::Rejected, None)));
    assert_eq!(set_state(Some(status(BountyState::Completed, None)), BountyState::Approved), Err(Refusal::NotPending));
    assert_eq!(set_state(Some(status(BountyState::Rejected, Some(2))), BountyState::Approved), Err(Refusal::NotPending));
    assert_eq!(set_state(Some(status(BountyState::Approved, None)), BountyState::Completed), Ok(status(BountyState::Completed, None)));
    assert_eq!(refusal_message(Refusal::NotPending), "Only pending bounties can be approved.");
}

#[test]
fn self_assignment_needs_an_approved_free_bounty() {
    assert_eq!(self_assign(None, 1), Err(Refusal::NotFound));
    assert_eq!(self_assign(Some(status(BountyState::Approved, Some(2))), 1), Err(Refusal::AlreadyAssigned(2)));
    assert_eq!(self_assign(Some(status(BountyState::Pending, None)), 1), Err(Refusal::NotApproved));
    let taken = self_assign(Some(status(BountyState::Approved, None)), 1).unwrap();
    assert_eq!(taken, status(BountyState::Approved, Some(1)));
    assert_eq!(self_unassign(Some(taken), 2), Err(Refusal::NotAssignedToCaller));
    assert_eq!(self_unassign(Some(taken), 1), Ok(status(BountyState::Approved, None)));
}

#[test]
fn managers_assign_and_unassign() {
    assert_eq!(assign(Some(status(BountyState::Pending, Some(3))), 9), Ok(status(BountyState::Pending, Some(9))));
    assert_eq!(assign(None, 9), Err(Refusal::NotFound));
    assert_eq!(unassign(Some(status(BountyState::Approved, Some(3)))), Ok(status(BountyState::Approved, None)));
    assert_eq!(unassign(Some(status(BountyState::Approved, None))), Err(Refusal::NobodyAssigned));
}

#[test]
fn lifecycle_replies() {
    assert_eq!(refusal_message(Refusal::AlreadyInState(BountyState::Completed)), "The bounty is already completed.");
    assert_eq!(refusal_message(Refusal::AlreadyAssigned(5)), "The bounty is already assigned to <@5>.");
    assert_eq!(refusal_message(Refusal::NotFound), "A bounty with that ID does not exist.");
    assert_eq!(refusal_message(Refusal::NobodyAssigned), "No one is assigned to that bounty.");
    assert_eq!(refusal_message(Refusal::NotAssignedToCaller), "You are not assigned to that bounty.");
    let n = BountyNum(8);
    let id = n.to_string();
    assert_eq!(state_changed_message(n, BountyState::Approved), format!("Updated `{id}`, it is now approved"));
    assert_eq!(assigned_message(4, n), format!("Assigned <@4> to the bounty `{id}`."));
    assert_eq!(unassigned_message(4, n), format!("Unassigned <@4> from the bounty `{id}`."));
    assert_eq!(notice_message(BountyNotice::Deleted, n), format!("Deleted bounty `{id}`."));
    assert_eq!(
        notice_message(BountyNotice::ConfirmDelete, n),
        format!("This will delete the bounty `{id}`, which cannot be undone.\nAre you sure?")
    );
    assert_eq!(notice_message(BountyNotice::SelfUnassigned, n), format!("Unassigned you from `{id}`."));
    assert_eq!(stakeholder_removed_message(6, n), format!("Removed bounty stakeholder <@6> from bounty `{id}`."));
}

#[test]
fn confirmation_reactions() {
    assert_eq!(confirmation_answer(5, 5, "\u{2705}"), Some(true));
    assert_eq!(confirmation_answer(5, 5, "\u{274c}"), Some(false));
    assert_eq!(confirmation_answer(5, 6, "\u{2705}"), None);
    assert_eq!(confirmation_answer(5, 5, "\u{1f44d}"), None);
}

#[test]
fn repeated_changes_and_retaking() {
    let approved = set_state(Some(status(BountyState::Pending, None)), BountyState::Approved).unwrap();
    assert_eq!(set_state(Some(approved), BountyState::Approved), Err(Refusal::AlreadyInState(BountyState::Approved)));
    let freed = unassign(Some(status(BountyState::Approved, Some(3)))).unwrap();
    assert_eq!(self_assign(Some(freed), 7), Ok(status(BountyState::Approved, Some(7))));
}
