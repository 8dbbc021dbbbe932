//! Community configuration: the stored settings, the configuration command and
//! reading channel references.

use vstd::prelude::*;
use crate::submission::BountySubmissionFormat;
use crate::text::{
    chars_of, dec, dec_int, parse_u64, parse_u64_range, push_dec_i64, push_dec_u64, push_str,
    range_eq, range_starts_with, split_once_bounds, split_once_or_all, starts_with,
    string_from_chars, string_from_range, trim, trim_bounds,
};

verus! {

/// A community's settings.
pub struct GuildConfig {
    /// The prefix shown in the configuration.
    pub command_prefix: String,
    /// Every prefix that starts a command.
    pub command_prefixes: Vec<String>,
    /// When set, commands are only read in these channels.
    pub command_channels: Option<Vec<u64>>,
    pub current_bounty_number: i64,
    pub bounty_submission_channel: Option<u64>,
    pub approval_queue_channel: Option<u64>,
    pub approved_bounties_channel: Option<u64>,
    pub claimed_bounties_channel: Option<u64>,
    pub completed_bounties_channel: Option<u64>,
    pub rejected_bounties_channel: Option<u64>,
    pub bounty_submission_format: BountySubmissionFormat,
}

/// The command prefix a community starts with.
pub open spec fn default_prefix() -> Seq<char> {
    "b!"@
}

/// The command prefix a community starts with.
pub fn default_command_prefix() -> (r: String)
    ensures
        r@ == default_prefix(),
{
    string_from_chars(&chars_of("b!"))
}

/// A channel setting of the configuration command.
#[derive(Copy, Clone, Debug, PartialEq, Eq, Structural)]
pub enum ChannelSetting {
    BountySubmission,
    ApprovalQueue,
    ApprovedBounties,
    ClaimedBounties,
    CompletedBounties,
    RejectedBounties,
}

/// What the configuration command is asked to do.
pub enum ConfigCommand {
    /// Set or reset a channel; the rest of the arguments follow.
    SetChannel(ChannelSetting, String),
    /// Set the command prefix; the rest of the arguments follow.
    SetPrefix(String),
    /// Show the configuration.
    Show,
    Unknown,
}

/// The subcommand named `s`.
pub open spec fn config_subcommand(s: Seq<char>) -> Option<Option<ChannelSetting>> {
    if s == "bounty-submission-channel"@ {
        Some(Some(ChannelSetting::BountySubmission))
    } else if s == "approval-queue-channel"@ {
        Some(Some(ChannelSetting::ApprovalQueue))
    } else if s == "approved-bounties-channel"@ {
        Some(Some(ChannelSetting::ApprovedBounties))
    } else if s == "claimed-bounties-channel"@ || s == "assigned-bounties-channel"@ {
        Some(Some(ChannelSetting::ClaimedBounties))
    } else if s == "completed-bounties-channel"@ {
        Some(Some(ChannelSetting::CompletedBounties))
    } else if s == "rejected-bounties-channel"@ || s == "denied-bounties-channel"@ {
        Some(Some(ChannelSetting::RejectedBounties))
    } else if s == "command-prefix"@ || s == "prefix"@ {
        Some(None)
    } else {
        None
    }
}

/// Reads the configuration command's arguments: a subcommand (trimmed) and the rest.
pub fn parse_config_command(args: &str) -> (r: ConfigCommand)
    ensures
        ({
            let (sub, rest) = split_once_or_all(args@, ' ');
            let s = trim(sub);
            if s.len() == 0 {
                r is Show
            } else {
                match config_subcommand(s) {
                    Some(Some(c)) => (r matches ConfigCommand::SetChannel(c2, a) && c2 == c && a@ == rest),
                    Some(None) => (r matches ConfigCommand::SetPrefix(a) && a@ == rest),
                    None => r is Unknown,
                }
            }
        }),
{
    let v = chars_of(args);
    assert(v@.subrange(0, v.len() as int) == v@);
    let (s0, s1, r0, r1) = split_once_bounds(&v, 0, v.len(), ' ');
    let (a, b) = trim_bounds(&v, s0, s1);
    let rest = string_from_range(&v, r0, r1);
    if a == b {
        return ConfigCommand::Show;
    }
    if range_eq(&v, a, b, &chars_of("bounty-submission-channel")) {
        ConfigCommand::SetChannel(ChannelSetting::BountySubmission, rest)
    } else if range_eq(&v, a, b, &chars_of("approval-queue-channel")) {
        ConfigCommand::SetChannel(ChannelSetting::ApprovalQueue, rest)
    } else if range_eq(&v, a, b, &chars_of("approved-bounties-channel")) {
        ConfigCommand::SetChannel(ChannelSetting::ApprovedBounties, rest)
    } else if range_eq(&v, a, b, &chars_of("claimed-bounties-channel"))
        || range_eq(&v, a, b, &chars_of("assigned-bounties-channel")) {
        ConfigCommand::SetChannel(ChannelSetting::ClaimedBounties, rest)
    } else if range_eq(&v, a, b, &chars_of("completed-bounties-channel")) {
        ConfigCommand::SetChannel(ChannelSetting::CompletedBounties, rest)
    } else if range_eq(&v, a, b, &chars_of("rejected-bounties-channel"))
        || range_eq(&v, a, b, &chars_of("denied-bounties-channel")) {
        ConfigCommand::SetChannel(ChannelSetting::RejectedBounties, rest)
    } else if range_eq(&v, a, b, &chars_of("command-prefix")) || range_eq(&v, a, b, &chars_of("prefix")) {
        ConfigCommand::SetPrefix(rest)
    } else {
        ConfigCommand::Unknown
    }
}

/// Non-empty pieces between slashes read so far, and the piece being read.
pub open spec fn segments_scan(s: Seq<char>) -> (Seq<Seq<char>>, Seq<char>)
    decreases s.len(),
{
    if s.len() == 0 {
        (Seq::empty(), Seq::empty())
    } else {
        let (done, cur) = segments_scan(s.drop_last());
        if s.last() == '/' {
            (if cur.len() > 0 { done.push(cur) } else { done }, Seq::empty())
        } else {
            (done, cur.push(s.last()))
        }
    }
}

/// The non-empty pieces of `s` between slashes.
pub open spec fn path_segments(s: Seq<char>) -> Seq<Seq<char>> {
    let (done, cur) = segments_scan(s);
    if cur.len() > 0 {
        done.push(cur)
    } else {
        done
    }
}

/// What a channel argument names: `<#id>` or a bare id names a channel;
/// otherwise the last two non-empty path pieces (as in a link) name the
/// community and the channel.
pub open spec fn channel_ref(input: Seq<char>) -> Option<(Option<u64>, u64)> {
    let t = trim(input);
    if starts_with(t, "<#"@) {
        let r = t.skip(2);
        if r.len() > 0 && r.last() == '>' {
            match parse_u64(r.drop_last()) {
                Some(id) => Some((None, id)),
                None => None,
            }
        } else {
            None
        }
    } else if parse_u64(t) is Some {
        Some((None, parse_u64(t).unwrap()))
    } else {
        let p = path_segments(t);
        if p.len() < 2 {
            None
        } else {
            match (parse_u64(p[p.len() - 2]), parse_u64(p[p.len() - 1])) {
                (Some(g), Some(c)) => Some((Some(g), c)),
                _ => None,
            }
        }
    }
}

/// Bounds of the non-empty pieces between slashes of `v[lo..hi]`.
fn segment_bounds(v: &Vec<char>, lo: usize, hi: usize) -> (r: Vec<(usize, usize)>)
    requires
        lo <= hi <= v.len(),
    ensures
        forall|i: int| 0 <= i < r@.len() ==> (#[trigger] r@[i]).0 <= r@[i].1 <= v.len(),
        r@.map_values(|p: (usize, usize)| v@.subrange(p.0 as int, p.1 as int)) == path_segments(v@.subrange(lo as int, hi as int)),
{
    let mut done: Vec<(usize, usize)> = Vec::new();
    let mut start = lo;
    let mut i = lo;
    while i < hi
        invariant
            lo <= start <= i <= hi <= v.len(),
            forall|k: int| 0 <= k < done@.len() ==> (#[trigger] done@[k]).0 <= done@[k].1 <= v.len(),
            segments_scan(v@.subrange(lo as int, i as int)) == (
                done@.map_values(|p: (usize, usize)| v@.subrange(p.0 as int, p.1 as int)),
                v@.subrange(start as int, i as int),
            ),
        decreases hi - i,
    {
        assert(v@.subrange(lo as int, i + 1).drop_last() == v@.subrange(lo as int, i as int));
        assert(v@.subrange(lo as int, i + 1).last() == v@[i as int]);
        if v[i] == '/' {
            if start < i {
                let ghost before = done@;
                done.push((start, i));
                assert(done@.map_values(|p: (usize, usize)| v@.subrange(p.0 as int, p.1 as int))
                    =~= before.map_values(|p: (usize, usize)| v@.subrange(p.0 as int, p.1 as int)).push(v@.subrange(start as int, i as int)));
            }
            start = i + 1;
            assert(v@.subrange(start as int, i + 1) =~= Seq::<char>::empty());
        } else {
            assert(v@.subrange(start as int, i + 1) == v@.subrange(start as int, i as int).push(v@[i as int]));
        }
        i = i + 1;
    }
    if start < hi {
        let ghost before = done@;
        done.push((start, hi));
        assert(done@.map_values(|p: (usize, usize)| v@.subrange(p.0 as int, p.1 as int))
            =~= before.map_values(|p: (usize, usize)| v@.subrange(p.0 as int, p.1 as int)).push(v@.subrange(start as int, hi as int)));
    }
    done
}

/// Reads a channel mention, channel id or channel link.
pub fn parse_channel_mention_or_id_or_link(input: &str) -> (r: Option<(Option<u64>, u64)>)
    ensures
        r == channel_ref(input@),
{
    let v = chars_of(input);
    assert(v@.subrange(0, v.len() as int) == v@);
    let (a, b) = trim_bounds(&v, 0, v.len());
    let ghost t = v@.subrange(a as int, b as int);
    if range_starts_with(&v, a, b, &chars_of("<#")) {
        proof { reveal_strlit("<#"); }
        assert(t.skip(2) == v@.subrange(a + 2, b as int));
        if b > a + 2 && v[b - 1] == '>' {
            assert(t.skip(2).drop_last() == v@.subrange(a + 2, b - 1));
            return match parse_u64_range(&v, a + 2, b - 1) {
                Some(id) => Some((None, id)),
                None => None,
            };
        }
        return None;
    }
    match parse_u64_range(&v, a, b) {
        Some(id) => return Some((None, id)),
        None => {},
    }
    let segs = segment_bounds(&v, a, b);
    let ghost p = path_segments(t);
    assert(p.len() == segs@.len());
    if segs.len() < 2 {
        return None;
    }
    let (g0, g1) = segs[segs.len() - 2];
    let (c0, c1) = segs[segs.len() - 1];
    assert(p[p.len() - 2] == v@.subrange(g0 as int, g1 as int));
    assert(p[p.len() - 1] == v@.subrange(c0 as int, c1 as int));
    let g = parse_u64_range(&v, g0, g1);
    let c = parse_u64_range(&v, c0, c1);
    match (g, c) {
        (Some(g), Some(c)) => Some((Some(g), c)),
        _ => None,
    }
}

/// What a channel setting's argument asks for.
#[derive(Copy, Clone, Debug, PartialEq, Eq, Structural)]
pub enum ChannelArg {
    /// No channel, or `reset`: the setting is cleared.
    Reset,
    /// This channel.
    Channel(u64),
    /// The text names no channel.
    Invalid,
}

pub open spec fn channel_arg(args: Seq<char>) -> ChannelArg {
    let t = trim(args);
    if t.len() == 0 || t == "reset"@ {
        ChannelArg::Reset
    } else {
        match channel_ref(t) {
            Some((_, c)) => ChannelArg::Channel(c),
            None => ChannelArg::Invalid,
        }
    }
}

/// Reads the argument of a channel setting.
pub fn parse_channel_arg(args: &str) -> (r: ChannelArg)
    ensures
        r == channel_arg(args@),
{
    let v = chars_of(args);
    assert(v@.subrange(0, v.len() as int) == v@);
    let (a, b) = trim_bounds(&v, 0, v.len());
    if a == b || range_eq(&v, a, b, &chars_of("reset")) {
        return ChannelArg::Reset;
    }
    let t = string_from_range(&v, a, b);
    match parse_channel_mention_or_id_or_link(t.as_str()) {
        Some((_, c)) => ChannelArg::Channel(c),
        None => ChannelArg::Invalid,
    }
}

/// The name of a channel setting in replies.
pub open spec fn setting_name(s: ChannelSetting) -> Seq<char> {
    match s {
        ChannelSetting::BountySubmission => "bounty submission"@,
        ChannelSetting::ApprovalQueue => "approval queue"@,
        ChannelSetting::ApprovedBounties => "approved bounties"@,
        ChannelSetting::ClaimedBounties => "claimed bounties"@,
        ChannelSetting::CompletedBounties => "completed bounties"@,
        ChannelSetting::RejectedBounties => "rejected bounties"@,
    }
}

fn push_setting_name(out: &mut Vec<char>, s: ChannelSetting)
    ensures
        final(out)@ == old(out)@ + setting_name(s),
{
    match s {
        ChannelSetting::BountySubmission => push_str(out, "bounty submission"),
        ChannelSetting::ApprovalQueue => push_str(out, "approval queue"),
        ChannelSetting::ApprovedBounties => push_str(out, "approved bounties"),
        ChannelSetting::ClaimedBounties => push_str(out, "claimed bounties"),
        ChannelSetting::CompletedBounties => push_str(out, "completed bounties"),
        ChannelSetting::RejectedBounties => push_str(out, "rejected bounties"),
    }
}

/// The reply to a channel setting change.
pub open spec fn channel_set_text(s: ChannelSetting, channel: Option<u64>) -> Seq<char> {
    match channel {
        Some(c) => "Set the "@ + setting_name(s) + " channel to <#"@ + dec(c as nat) + ">."@,
        None => "Unset the "@ + setting_name(s) + " channel."@,
    }
}

/// Reports a channel setting change.
pub fn channel_set_message(s: ChannelSetting, channel: Option<u64>) -> (r: String)
    ensures
        r@ == channel_set_text(s, channel),
{
    let mut out: Vec<char> = Vec::new();
    match channel {
        Some(c) => {
            push_str(&mut out, "Set the ");
            push_setting_name(&mut out, s);
            push_str(&mut out, " channel to <#");
            push_dec_u64(&mut out, c);
            push_str(&mut out, ">.");
        },
        None => {
            push_str(&mut out, "Unset the ");
            push_setting_name(&mut out, s);
            push_str(&mut out, " channel.");
        },
    }
    assert(out@ =~= channel_set_text(s, channel));
    string_from_chars(&out)
}

/// The new command prefix: the trimmed argument, if not empty.
pub fn parse_prefix_arg(args: &str) -> (r: Option<String>)
    ensures
        trim(args@).len() == 0 ==> r is None,
        trim(args@).len() > 0 ==> (r matches Some(p) && p@ == trim(args@)),
{
    let v = chars_of(args);
    assert(v@.subrange(0, v.len() as int) == v@);
    let (a, b) = trim_bounds(&v, 0, v.len());
    if a == b {
        None
    } else {
        Some(string_from_range(&v, a, b))
    }
}

/// A channel in the configuration listing.
pub open spec fn channel_text(c: Option<u64>) -> Seq<char> {
    match c {
        Some(id) => "<#"@ + dec(id as nat) + ">"@,
        None => "*none*"@,
    }
}

fn push_channel(out: &mut Vec<char>, c: Option<u64>)
    ensures
        final(out)@ == old(out)@ + channel_text(c),
{
    match c {
        Some(id) => {
            push_str(out, "<#");
            push_dec_u64(out, id);
            push_str(out, ">");
            assert(final(out)@ =~= old(out)@ + channel_text(c));
        },
        None => push_str(out, "*none*"),
    }
}

/// The configuration listing.
pub open spec fn guild_config_text(c: GuildConfig) -> Seq<char> {
    "**Command prefix:** `"@ + c.command_prefix@ + "`\n**Total bounties ever created:** `"@
        + dec_int(c.current_bounty_number as int) + "`\n__Channels__\n**Bounty Submissions:** "@
        + channel_text(c.bounty_submission_channel) + "\n**Approval Queue:** "@
        + channel_text(c.approval_queue_channel) + "\n**Approved Bounties:** "@
        + channel_text(c.approved_bounties_channel) + "\n**Claimed Bounties:** "@
        + channel_text(c.claimed_bounties_channel) + "\n**Completed Bounties:** "@
        + channel_text(c.completed_bounties_channel) + "\n**Denied Bounties:** "@
        + channel_text(c.rejected_bounties_channel)
}

/// Lists a community's configuration.
pub fn guild_config_message(c: &GuildConfig) -> (r: String)
    ensures
        r@ == guild_config_text(*c),
{
    let mut out: Vec<char> = Vec::new();
    push_str(&mut out, "**Command prefix:** `");
    push_str(&mut out, c.command_prefix.as_str());
    push_str(&mut out, "`\n**Total bounties ever created:** `");
    push_dec_i64(&mut out, c.current_bounty_number);
    push_str(&mut out, "`\n__Channels__\n**Bounty Submissions:** ");
    push_channel(&mut out, c.bounty_submission_channel);
    push_str(&mut out, "\n**Approval Queue:** ");
    push_channel(&mut out, c.approval_queue_channel);
    push_str(&mut out, "\n**Approved Bounties:** ");
    push_channel(&mut out, c.approved_bounties_channel);
    push_str(&mut out, "\n**Claimed Bounties:** ");
    push_channel(&mut out, c.claimed_bounties_channel);
    push_str(&mut out, "\n**Completed Bounties:** ");
    push_channel(&mut out, c.completed_bounties_channel);
    push_str(&mut out, "\n**Denied Bounties:** ");
    push_channel(&mut out, c.rejected_bounties_channel);
    assert(out@ =~= guild_config_text(*c));
    string_from_chars(&out)
}

/// The reply to a prefix change.
pub open spec fn prefix_set_text(prefix: Seq<char>) -> Seq<char> {
    "The command prefix is now `"@ + prefix + "`."@
}

/// Reports a prefix change.
pub fn prefix_set_message(prefix: &str) -> (r: String)
    ensures
        r@ == prefix_set_text(prefix@),
{
    let mut out = chars_of("The command prefix is now `");
    push_str(&mut out, prefix);
    push_str(&mut out, "`.");
    assert(out@ =~= prefix_set_text(prefix@));
    string_from_chars(&out)
}

/// Whether a message in `channel_id` is a bounty submission: it is when the
/// community has a submission channel and the message was posted there.
pub fn is_submission_channel(config: &GuildConfig, channel_id: u64) -> (r: bool)
    ensures
        r == (config.bounty_submission_channel == Some(channel_id)),
{
    match config.bounty_submission_channel {
        Some(c) => c == channel_id,
        None => false,
    }
}

/// Whether a channel is among a community's channels.
pub fn channel_in_list(channels: &Vec<u64>, channel_id: u64) -> (r: bool)
    ensures
        r == channels@.contains(channel_id),
{
    crate::permissions::vec_contains_u64(channels, channel_id)
}

} // verus!
