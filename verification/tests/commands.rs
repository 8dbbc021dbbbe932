use bounty_bot::bounty::BountyState;
use bounty_bot::commands::{
    channel_allows_commands, extract_command, latency_message, new_dispatcher_with_commands,
    permissions_updated_message, state_change_for, CommandDispatcher, CommandKind,
};
use bounty_bot::guild::GuildConfig;
use bounty_bot::permissions::BotPermissions;
use bounty_bot::submission::BountySubmissionFormat;

fn route(d: &CommandDispatcher, text: &str) -> Option<(CommandKind, BotPermissions, String)> {
    d.route(text).map(|r| (r.command, r.required, r.args))
}

#[test]
fn every_documented_alias_reaches_its_command() {
    let d = new_dispatcher_with_commands();
    let cases: &[(&str, CommandKind, BotPermissions)] = &[
        ("ping", CommandKind::Ping, BotPermissions::empty()),
        ("bounty-complete", CommandKind::CompleteBounty, BotPermissions::manage_bounties()),
        ("approve-bounty", CommandKind::ApproveBounty, BotPermissions::manage_bounties()),
        ("deny", CommandKind::RejectBounty, BotPermissions::manage_bounties()),
        ("bounty-deny", CommandKind::RejectBounty, BotPermissions::manage_bounties()),
        ("removebounty", CommandKind::DeleteBounty, BotPermissions::manage_bounties()),
        ("bountydelete", CommandKind::DeleteBounty, BotPermissions::manage_bounties()),
        ("delbounty", CommandKind::DeleteBounty, BotPermissions::manage_bounties()),
        ("assign-to-bounty", CommandKind::AssignToBounty, BotPermissions::manage_bounties()),
        ("selfassign", CommandKind::SelfAssignToBounty, BotPermissions::bounty_hunter()),
        ("bounty-unassign", CommandKind::UnassignFromBounty, BotPermissions::manage_bounties()),
        ("self-unassign", CommandKind::SelfUnassignFromBounty, BotPermissions::bounty_hunter()),
        ("edit-bounty", CommandKind::EditBounty, BotPermissions::manage_bounties()),
        ("stakeholder", CommandKind::BountyStakeholder, BotPermissions::manage_bounties()),
        ("cfg", CommandKind::GuildConfig, BotPermissions::manage_guild_config()),
        ("server-config", CommandKind::GuildConfig, BotPermissions::manage_guild_config()),
        ("workflow", CommandKind::BountyWorkflow, BotPermissions::empty()),
        ("add-permission", CommandKind::AddPermission, BotPermissions::manage_guild_config()),
        ("rm-permission", CommandKind::RemovePermission, BotPermissions::manage_guild_config()),
        ("list-perms", CommandKind::ListPermissions, BotPermissions::manage_guild_config()),
    ];
    for (name, kind, perms) in cases {
        assert_eq!(route(&d, name), Some((*kind, *perms, String::new())), "{name}");
    }
}

#[test]
fn routing_splits_name_and_arguments() {
    let d = new_dispatcher_with_commands();
    assert_eq!(
        route(&d, "  deny abc  more "),
        Some((CommandKind::RejectBounty, BotPermissions::manage_bounties(), "abc  more".to_owned()))
    );
    assert_eq!(route(&d, "Ping"), None);
    assert_eq!(route(&d, "unknown x"), None);
    assert_eq!(route(&d, " ping"), None);
    assert_eq!(route(&d, "ping "), None);
    assert_eq!(route(&d, "ping"), Some((CommandKind::Ping, BotPermissions::empty(), String::new())));
}

#[test]
fn later_duplicate_names_replace_earlier_ones() {
    let d = CommandDispatcher::new(vec![
        (vec!["x".to_owned(), "y".to_owned()], BotPermissions::empty(), CommandKind::Ping),
        (vec!["x".to_owned()], BotPermissions::manage_bounties(), CommandKind::EditBounty),
    ]);
    assert_eq!(route(&d, "x"), Some((CommandKind::EditBounty, BotPermissions::manage_bounties(), String::new())));
    assert_eq!(route(&d, "y 1"), Some((CommandKind::Ping, BotPermissions::empty(), "1".to_owned())));
}

#[test]
fn commands_are_found_after_a_mention_or_a_prefix() {
    let prefixes = vec!["b!".to_owned(), "bounty ".to_owned()];
    assert_eq!(extract_command("  <@99> ping ", 99, &prefixes), Some("ping".to_owned()));
    assert_eq!(extract_command("<@99>   approve  x", 99, &prefixes), Some("approve  x".to_owned()));
    assert_eq!(extract_command("b! ping", 99, &prefixes), Some(" ping".to_owned()));
    assert_eq!(extract_command("<@98> ping", 99, &prefixes), None);
    assert_eq!(extract_command("b!approve x", 99, &prefixes), Some("approve x".to_owned()));
    assert_eq!(extract_command("bounty ping", 99, &prefixes), Some("ping".to_owned()));
    assert_eq!(extract_command("hello", 99, &prefixes), None);
    assert_eq!(extract_command("", 99, &Vec::new()), None);
}

#[test]
fn command_channels_restrict_where_commands_run() {
    assert!(channel_allows_commands(&None, 5));
    assert!(channel_allows_commands(&Some(vec![4, 5]), 5));
    assert!(!channel_allows_commands(&Some(vec![4]), 5));
    assert!(!channel_allows_commands(&Some(vec![]), 5));
}

fn config() -> GuildConfig {
    GuildConfig {
        command_prefix: "b!".to_owned(),
        command_prefixes: vec!["b!".to_owned()],
        command_channels: None,
        current_bounty_number: 12,
        bounty_submission_channel: Some(1),
        approval_queue_channel: None,
        approved_bounties_channel: Some(3),
        claimed_bounties_channel: None,
        completed_bounties_channel: Some(5),
        rejected_bounties_channel: None,
        bounty_submission_format: BountySubmissionFormat::default(),
    }
}

#[test]
fn state_changing_commands_and_their_channels() {
    let c = config();
    assert_eq!(state_change_for(CommandKind::CompleteBounty, &c), Some((BountyState::Completed, Some(5), "complete".to_owned())));
    assert_eq!(state_change_for(CommandKind::ApproveBounty, &c), Some((BountyState::Approved, Some(3), "approve".to_owned())));
    assert_eq!(state_change_for(CommandKind::RejectBounty, &c), Some((BountyState::Rejected, None, "reject".to_owned())));
    assert_eq!(state_change_for(CommandKind::Ping, &c), None);
}

#[test]
fn small_replies() {
    assert_eq!(latency_message(15), "**Latency:** 15 ms");
    assert_eq!(latency_message(-3), "**Latency:** -3 ms");
    assert_eq!(permissions_updated_message(77), "Permissions for <@&77> updated.");
}

#[test]
fn a_mention_followed_by_a_command_runs_it() {
    let d = new_dispatcher_with_commands();
    let text = extract_command("<@99> ping", 99, &vec!["b!".to_owned()]).unwrap();
    assert_eq!(route(&d, &text), Some((CommandKind::Ping, BotPermissions::empty(), String::new())));
    let text = extract_command("<@99> approve abc", 99, &Vec::new()).unwrap();
    assert_eq!(route(&d, &text), Some((CommandKind::ApproveBounty, BotPermissions::manage_bounties(), "abc".to_owned())));
    let text = extract_command("b! ping", 99, &vec!["b!".to_owned()]).unwrap();
    assert_eq!(route(&d, &text), None);
}
