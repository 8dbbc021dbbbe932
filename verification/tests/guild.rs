use bounty_bot::guild::{
    channel_in_list, channel_set_message, default_command_prefix, is_submission_channel, guild_config_message, parse_channel_arg,
    parse_channel_mention_or_id_or_link, parse_config_command, parse_prefix_arg, prefix_set_message,
    ChannelArg, ChannelSetting, ConfigCommand, GuildConfig,
};
use bounty_bot::submission::BountySubmissionFormat;

#[test]
fn channel_references() {
    assert_eq!(parse_channel_mention_or_id_or_link(" <#123> "), Some((None, 123)));
    assert_eq!(parse_channel_mention_or_id_or_link("456"), Some((None, 456)));
    assert_eq!(parse_channel_mention_or_id_or_link("https://fluxer.app/channels/11/22"), Some((Some(11), 22)));
    assert_eq!(parse_channel_mention_or_id_or_link("https://fluxer.app/channels/11/22/"), Some((Some(11), 22)));
    assert_eq!(parse_channel_mention_or_id_or_link("11//22"), Some((Some(11), 22)));
    assert_eq!(parse_channel_mention_or_id_or_link("a/b"), None);
    assert_eq!(parse_channel_mention_or_id_or_link("/22"), None);
    assert_eq!(parse_channel_mention_or_id_or_link("<#12"), None);
    assert_eq!(parse_channel_mention_or_id_or_link("<#1/2>"), None);
    assert_eq!(parse_channel_mention_or_id_or_link(""), None);
}

#[test]
fn configuration_subcommands() {
    assert!(matches!(parse_config_command(""), ConfigCommand::Show));
    assert!(matches!(parse_config_command(" "), ConfigCommand::Show));
    assert!(matches!(parse_config_command("prefix !"), ConfigCommand::SetPrefix(a) if a == "!"));
    assert!(matches!(
        parse_config_command("assigned-bounties-channel <#5>"),
        ConfigCommand::SetChannel(ChannelSetting::ClaimedBounties, a) if a == "<#5>"
    ));
    assert!(matches!(
        parse_config_command("denied-bounties-channel reset"),
        ConfigCommand::SetChannel(ChannelSetting::RejectedBounties, a) if a == "reset"
    ));
    assert!(matches!(parse_config_command("colour red"), ConfigCommand::Unknown));
}

#[test]
fn channel_arguments() {
    assert_eq!(parse_channel_arg("  "), ChannelArg::Reset);
    assert_eq!(parse_channel_arg(" reset "), ChannelArg::Reset);
    assert_eq!(parse_channel_arg("<#9>"), ChannelArg::Channel(9));
    assert_eq!(parse_channel_arg("x/1/2"), ChannelArg::Channel(2));
    assert_eq!(parse_channel_arg("general"), ChannelArg::Invalid);
    assert!(channel_in_list(&vec![1, 9], 9));
    assert!(!channel_in_list(&vec![1], 9));
}

#[test]
fn configuration_replies() {
    assert_eq!(channel_set_message(ChannelSetting::ApprovalQueue, Some(7)), "Set the approval queue channel to <#7>.");
    assert_eq!(channel_set_message(ChannelSetting::CompletedBounties, None), "Unset the completed bounties channel.");
    assert_eq!(parse_prefix_arg("  ?? "), Some("??".to_owned()));
    assert_eq!(parse_prefix_arg("   "), None);
    assert_eq!(prefix_set_message("?"), "The command prefix is now `?`.");
    let c = GuildConfig {
        command_prefix: "b!".to_owned(),
        command_prefixes: vec!["b!".to_owned()],
        command_channels: None,
        current_bounty_number: 12,
        bounty_submission_channel: Some(1),
        approval_queue_channel: None,
        approved_bounties_channel: Some(3),
        claimed_bounties_channel: Some(4),
        completed_bounties_channel: None,
        rejected_bounties_channel: Some(6),
        bounty_submission_format: BountySubmissionFormat::default(),
    };
    assert_eq!(
        guild_config_message(&c),
        "**Command prefix:** `b!`\n**Total bounties ever created:** `12`\n__Channels__\n**Bounty Submissions:** <#1>\n\
**Approval Queue:** *none*\n**Approved Bounties:** <#3>\n**Claimed Bounties:** <#4>\n**Completed Bounties:** *none*\n**Denied Bounties:** <#6>"
    );
    assert!(is_submission_channel(&c, 1));
    assert!(!is_submission_channel(&c, 3));
    assert_eq!(default_command_prefix(), "b!");
}
