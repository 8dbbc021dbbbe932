//! Commands: the command table, finding the command in a message, and reading
//! each command's arguments.

use vstd::prelude::*;
use crate::permissions::BotPermissions;
use crate::bounty::BountyState;
use crate::guild::GuildConfig;
use crate::text::{
    chars_of, dec, dec_int, push_dec_i64, push_dec_u64, push_str, range_eq, range_starts_with,
    split_once, split_once_bounds, starts_with, string_from_chars, string_from_range, trim,
    trim_bounds,
};

verus! {

/// The commands the bot runs.
#[derive(Copy, Clone, Debug, PartialEq, Eq, Structural)]
pub enum CommandKind {
    Ping,
    CompleteBounty,
    ApproveBounty,
    RejectBounty,
    DeleteBounty,
    AssignToBounty,
    SelfAssignToBounty,
    UnassignFromBounty,
    SelfUnassignFromBounty,
    EditBounty,
    BountyStakeholder,
    GuildConfig,
    BountyWorkflow,
    AddPermission,
    RemovePermission,
    ListPermissions,
}

/// One name under which a command is run, with the permissions it needs.
pub struct CommandEntry {
    pub name: String,
    pub permissions: BotPermissions,
    pub command: CommandKind,
}

pub open spec fn entry_view(e: CommandEntry) -> (Seq<char>, u64, CommandKind) {
    (e.name@, e.permissions.bits, e.command)
}

/// The names and what they run, as a table: a later entry for a name replaces an earlier one.
pub open spec fn command_table(entries: Seq<(Seq<char>, u64, CommandKind)>) -> Map<Seq<char>, (u64, CommandKind)>
    decreases entries.len(),
{
    if entries.len() == 0 {
        Map::empty()
    } else {
        let e = entries.last();
        command_table(entries.drop_last()).insert(e.0, (e.1, e.2))
    }
}

/// Maps command names to commands.
pub struct CommandDispatcher {
    pub commands: Vec<CommandEntry>,
}

impl CommandDispatcher {
    pub open spec fn entries(&self) -> Seq<(Seq<char>, u64, CommandKind)> {
        self.commands@.map_values(|e: CommandEntry| entry_view(e))
    }

    /// What each name runs.
    pub open spec fn table(&self) -> Map<Seq<char>, (u64, CommandKind)> {
        command_table(self.entries())
    }

    /// A dispatcher for the given groups of names: every name of a group runs
    /// the group's command with the group's permissions; a name given twice
    /// runs what it was given last.
    pub fn new(commands: Vec<(Vec<String>, BotPermissions, CommandKind)>) -> (r: CommandDispatcher)
        ensures
            r.entries() == flatten_groups(group_views(commands@)),
    {
        let mut entries: Vec<CommandEntry> = Vec::new();
        let mut g: usize = 0;
        while g < commands.len()
            invariant
                g <= commands.len(),
                entries@.map_values(|e: CommandEntry| entry_view(e)) == flatten_groups(group_views(commands@).take(g as int)),
            decreases commands.len() - g,
        {
            let ghost before = entries@.map_values(|e: CommandEntry| entry_view(e));
            let names = &commands[g].0;
            let permissions = commands[g].1;
            let command = commands[g].2;
            let mut i: usize = 0;
            while i < names.len()
                invariant
                    i <= names.len(),
                    entries@.map_values(|e: CommandEntry| entry_view(e))
                        == before + group_entries(names@.take(i as int).map_values(|s: String| s@), permissions.bits, command),
                decreases names.len() - i,
            {
                let ghost mid = entries@;
                entries.push(CommandEntry { name: names[i].clone(), permissions, command });
                proof {
                    let ns = names@.take(i + 1).map_values(|s: String| s@);
                    assert(ns.drop_last() =~= names@.take(i as int).map_values(|s: String| s@));
                    assert(entries@.map_values(|e: CommandEntry| entry_view(e))
                        =~= mid.map_values(|e: CommandEntry| entry_view(e)).push((names@[i as int]@, permissions.bits, command)));
                    assert(group_entries(ns, permissions.bits, command) =~= group_entries(ns.drop_last(), permissions.bits, command).push((ns.last(), permissions.bits, command)));
                }
                i = i + 1;
            }
            proof {
                assert(names@.take(names.len() as int) == names@);
                let gs = group_views(commands@).take(g + 1);
                assert(gs.drop_last() =~= group_views(commands@).take(g as int));
            }
            g = g + 1;
        }
        assert(group_views(commands@).take(commands.len() as int) == group_views(commands@));
        CommandDispatcher { commands: entries }
    }

    /// What the name `name[lo..hi]` runs, if anything.
    pub fn lookup_range(&self, name: &Vec<char>, lo: usize, hi: usize) -> (r: Option<(BotPermissions, CommandKind)>)
        requires
            lo <= hi <= name.len(),
        ensures
            match r {
                Some((p, c)) => self.table().contains_key(name@.subrange(lo as int, hi as int))
                    && self.table()[name@.subrange(lo as int, hi as int)] == (p.bits, c),
                None => !self.table().contains_key(name@.subrange(lo as int, hi as int)),
            },
    {
        let ghost key = name@.subrange(lo as int, hi as int);
        let mut i = self.commands.len();
        assert(self.entries().take(i as int) =~= self.entries());
        while i > 0
            invariant
                i <= self.commands.len(),
                key == name@.subrange(lo as int, hi as int),
                lo <= hi <= name.len(),
                command_table(self.entries()).contains_key(key) == command_table(self.entries().take(i as int)).contains_key(key),
                command_table(self.entries().take(i as int)).contains_key(key)
                    ==> command_table(self.entries())[key] == command_table(self.entries().take(i as int))[key],
            decreases i,
        {
            let e = &self.commands[i - 1];
            let n = chars_of(e.name.as_str());
            proof {
                let t = self.entries().take(i as int);
                assert(t.drop_last() == self.entries().take(i - 1));
                assert(t.last() == entry_view(self.commands@[i - 1]));
            }
            if range_eq(name, lo, hi, &n) {
                return Some((e.permissions, e.command));
            }
            i = i - 1;
        }
        assert(self.entries().take(0) =~= Seq::<(Seq<char>, u64, CommandKind)>::empty());
        None
    }
}

/// The entries a group of names gives.
pub open spec fn group_entries(names: Seq<Seq<char>>, bits: u64, c: CommandKind) -> Seq<(Seq<char>, u64, CommandKind)>
    decreases names.len(),
{
    if names.len() == 0 {
        Seq::empty()
    } else {
        group_entries(names.drop_last(), bits, c).push((names.last(), bits, c))
    }
}

pub open spec fn group_views(gs: Seq<(Vec<String>, BotPermissions, CommandKind)>) -> Seq<(Seq<Seq<char>>, u64, CommandKind)> {
    gs.map_values(|g: (Vec<String>, BotPermissions, CommandKind)| (g.0@.map_values(|s: String| s@), g.1.bits, g.2))
}

/// The entries of all groups, in order.
pub open spec fn flatten_groups(gs: Seq<(Seq<Seq<char>>, u64, CommandKind)>) -> Seq<(Seq<char>, u64, CommandKind)>
    decreases gs.len(),
{
    if gs.len() == 0 {
        Seq::empty()
    } else {
        flatten_groups(gs.drop_last()) + group_entries(gs.last().0, gs.last().1, gs.last().2)
    }
}

/// A command name and its arguments: the trimmed text up to its first space,
/// and the rest. Text whose trimmed form has no space is the name itself, as
/// it stands (so a prefix followed by a space and a lone name runs nothing).
pub open spec fn command_and_args(command: Seq<char>) -> (Seq<char>, Seq<char>) {
    match split_once(trim(command), ' ') {
        Some(p) => p,
        None => (command, Seq::empty()),
    }
}

/// A command found in a message.
pub struct CommandRoute {
    pub command: CommandKind,
    pub required: BotPermissions,
    pub args: String,
}

impl CommandDispatcher {
    /// Finds the command that `command` (the message text after the prefix) runs.
    pub fn route(&self, command: &str) -> (r: Option<CommandRoute>)
        ensures
            ({
                let (name, args) = command_and_args(command@);
                match r {
                    Some(route) => self.table().contains_key(name)
                        && self.table()[name] == (route.required.bits, route.command) && route.args@ == args,
                    None => !self.table().contains_key(name),
                }
            }),
    {
        let v = chars_of(command);
        let (a, b) = trim_bounds(&v, 0, v.len());
        assert(v@.subrange(0, v.len() as int) == v@);
        let (n0, n1, r0, r1) = split_once_bounds(&v, a, b, ' ');
        let (lo, hi, alo, ahi) = match crate::text::find_char_in(&v, a, b, ' ') {
            Some(_) => (n0, n1, r0, r1),
            None => {
                assert(v@.subrange(v.len() as int, v.len() as int) =~= Seq::<char>::empty());
                (0, v.len(), v.len(), v.len())
            },
        };
        match self.lookup_range(&v, lo, hi) {
            Some((p, c)) => Some(CommandRoute { command: c, required: p, args: string_from_range(&v, alo, ahi) }),
            None => None,
        }
    }
}

/// The text after the bot's prefix: after a mention of the bot the rest of the
/// message, trimmed; or else the text after the first of the community's
/// prefixes that the trimmed message starts with.
pub open spec fn command_text(content: Seq<char>, client_id: u64, prefixes: Seq<Seq<char>>) -> Option<Seq<char>> {
    let t = trim(content);
    let mention = "<@"@ + dec(client_id as nat) + ">"@;
    if starts_with(t, mention) {
        Some(trim(t.skip(mention.len() as int)))
    } else {
        prefix_strip_from(t, prefixes, 0)
    }
}

/// `t` without the first of `prefixes[i..]` that it starts with.
pub open spec fn prefix_strip_from(t: Seq<char>, prefixes: Seq<Seq<char>>, i: int) -> Option<Seq<char>>
    decreases prefixes.len() - i,
{
    if i < 0 || i >= prefixes.len() {
        None
    } else if starts_with(t, prefixes[i]) {
        Some(t.skip(prefixes[i].len() as int))
    } else {
        prefix_strip_from(t, prefixes, i + 1)
    }
}

/// Finds the command text of a message, if the message is addressed to the bot.
pub fn extract_command(content: &str, client_id: u64, prefixes: &Vec<String>) -> (r: Option<String>)
    ensures
        match r {
            Some(c) => command_text(content@, client_id, prefixes@.map_values(|p: String| p@)) == Some(c@),
            None => command_text(content@, client_id, prefixes@.map_values(|p: String| p@)) is None,
        },
{
    let ghost ps = prefixes@.map_values(|p: String| p@);
    let v = chars_of(content);
    let (a, b) = trim_bounds(&v, 0, v.len());
    assert(v@.subrange(0, v.len() as int) == v@);
    let ghost t = v@.subrange(a as int, b as int);
    let mut mention = chars_of("<@");
    push_dec_u64(&mut mention, client_id);
    push_str(&mut mention, ">");
    assert(mention@ =~= "<@"@ + dec(client_id as nat) + ">"@);
    if range_starts_with(&v, a, b, &mention) {
        assert(t.skip(mention.len() as int) == v@.subrange(a + mention.len(), b as int));
        let (c0, c1) = trim_bounds(&v, a + mention.len(), b);
        return Some(string_from_range(&v, c0, c1));
    }
    let mut i: usize = 0;
    while i < prefixes.len()
        invariant
            i <= prefixes.len(),
            a <= b <= v.len(),
            t == v@.subrange(a as int, b as int),
            ps == prefixes@.map_values(|p: String| p@),
            prefix_strip_from(t, ps, 0) == prefix_strip_from(t, ps, i as int),
            !starts_with(t, "<@"@ + dec(client_id as nat) + ">"@),
            t == trim(content@),
        decreases prefixes.len() - i,
    {
        let p = chars_of(prefixes[i].as_str());
        assert(ps.len() == prefixes.len());
        assert(ps[i as int] == p@);
        if range_starts_with(&v, a, b, &p) {
            assert(t.skip(p.len() as int) == v@.subrange(a + p.len(), b as int));
            assert(prefix_strip_from(t, ps, i as int) == Some(t.skip(p.len() as int)));
            return Some(string_from_range(&v, a + p.len(), b));
        }
        i = i + 1;
    }
    None
}

/// Whether commands may be run in a channel: everywhere, unless the community
/// limits commands to a list of channels.
pub fn channel_allows_commands(command_channels: &Option<Vec<u64>>, channel_id: u64) -> (r: bool)
    ensures
        r == match command_channels {
            Some(cs) => cs@.contains(channel_id),
            None => true,
        },
{
    match command_channels {
        None => true,
        Some(cs) => crate::permissions::vec_contains_u64(cs, channel_id),
    }
}

/// The command names, their permissions and commands, group by group.
pub open spec fn default_command_groups() -> Seq<(Seq<Seq<char>>, u64, CommandKind)> {
    seq![
        (seq!["ping"@], 0, CommandKind::Ping),
        (seq!["complete"@, "complete-bounty"@, "bounty-complete"@], 2, CommandKind::CompleteBounty),
        (seq!["approve"@, "approve-bounty"@, "bounty-approve"@], 2, CommandKind::ApproveBounty),
        (seq!["reject"@, "deny"@, "reject-bounty"@, "bounty-reject"@, "deny-bounty"@, "bounty-deny"@], 2, CommandKind::RejectBounty),
        (seq!["delete"@, "delete-bounty"@, "deletebounty"@, "removebounty"@, "bounty-delete"@, "bountydelete"@, "bountydel"@, "bountyrm"@, "rmbounty"@, "delbounty"@], 2, CommandKind::DeleteBounty),
        (seq!["assign"@, "assign-to"@, "assign-to-bounty"@, "bounty-assign"@], 2, CommandKind::AssignToBounty),
        (seq!["self-assign"@, "selfassign"@], 8, CommandKind::SelfAssignToBounty),
        (seq!["unassign"@, "unassign-from"@, "unassign-from-bounty"@, "bounty-unassign"@], 2, CommandKind::UnassignFromBounty),
        (seq!["self-unassign"@, "selfunassign"@], 8, CommandKind::SelfUnassignFromBounty),
        (seq!["edit"@, "edit-bounty"@], 2, CommandKind::EditBounty),
        (seq!["stakeholder"@], 2, CommandKind::BountyStakeholder),
        (seq!["config"@, "communityconfig"@, "community-config"@, "guildconfig"@, "guild-config"@, "serverconfig"@, "server-config"@, "cfg"@], 4, CommandKind::GuildConfig),
        (seq!["bounty-workflow"@, "bountyworkflow"@, "workflow"@, "bounty-workflow-image"@], 0, CommandKind::BountyWorkflow),
        (seq!["add-permission"@], 4, CommandKind::AddPermission),
        (seq!["remove-permission"@, "rm-permission"@], 4, CommandKind::RemovePermission),
        (seq!["permissions"@, "perms"@, "list-perms"@, "list-permissions"@], 4, CommandKind::ListPermissions),
    ]
}

/// The dispatcher with every command of the bot under all its names.
pub fn new_dispatcher_with_commands() -> (r: CommandDispatcher)
    ensures
        r.entries() == flatten_groups(default_command_groups()),
{
    let groups: Vec<(Vec<String>, BotPermissions, CommandKind)> = vec![
        (vec!["ping".to_owned()], BotPermissions::empty(), CommandKind::Ping),
        (vec!["complete".to_owned(), "complete-bounty".to_owned(), "bounty-complete".to_owned()], BotPermissions::manage_bounties(), CommandKind::CompleteBounty),
        (vec!["approve".to_owned(), "approve-bounty".to_owned(), "bounty-approve".to_owned()], BotPermissions::manage_bounties(), CommandKind::ApproveBounty),
        (vec!["reject".to_owned(), "deny".to_owned(), "reject-bounty".to_owned(), "bounty-reject".to_owned(), "deny-bounty".to_owned(), "bounty-deny".to_owned()], BotPermissions::manage_bounties(), CommandKind::RejectBounty),
        (vec!["delete".to_owned(), "delete-bounty".to_owned(), "deletebounty".to_owned(), "removebounty".to_owned(), "bounty-delete".to_owned(), "bountydelete".to_owned(), "bountydel".to_owned(), "bountyrm".to_owned(), "rmbounty".to_owned(), "delbounty".to_owned()], BotPermissions::manage_bounties(), CommandKind::DeleteBounty),
        (vec!["assign".to_owned(), "assign-to".to_owned(), "assign-to-bounty".to_owned(), "bounty-assign".to_owned()], BotPermissions::manage_bounties(), CommandKind::AssignToBounty),
        (vec!["self-assign".to_owned(), "selfassign".to_owned()], BotPermissions::bounty_hunter(), CommandKind::SelfAssignToBounty),
        (vec!["unassign".to_owned(), "unassign-from".to_owned(), "unassign-from-bounty".to_owned(), "bounty-unassign".to_owned()], BotPermissions::manage_bounties(), CommandKind::UnassignFromBounty),
        (vec!["self-unassign".to_owned(), "selfunassign".to_owned()], BotPermissions::bounty_hunter(), CommandKind::SelfUnassignFromBounty),
        (vec!["edit".to_owned(), "edit-bounty".to_owned()], BotPermissions::manage_bounties(), CommandKind::EditBounty),
        (vec!["stakeholder".to_owned()], BotPermissions::manage_bounties(), CommandKind::BountyStakeholder),
        (vec!["config".to_owned(), "communityconfig".to_owned(), "community-config".to_owned(), "guildconfig".to_owned(), "guild-config".to_owned(), "serverconfig".to_owned(), "server-config".to_owned(), "cfg".to_owned()], BotPermissions::manage_guild_config(), CommandKind::GuildConfig),
        (vec!["bounty-workflow".to_owned(), "bountyworkflow".to_owned(), "workflow".to_owned(), "bounty-workflow-image".to_owned()], BotPermissions::empty(), CommandKind::BountyWorkflow),
        (vec!["add-permission".to_owned()], BotPermissions::manage_guild_config(), CommandKind::AddPermission),
        (vec!["remove-permission".to_owned(), "rm-permission".to_owned()], BotPermissions::manage_guild_config(), CommandKind::RemovePermission),
        (vec!["permissions".to_owned(), "perms".to_owned(), "list-perms".to_owned(), "list-permissions".to_owned()], BotPermissions::manage_guild_config(), CommandKind::ListPermissions),
    ];
    assert(group_views(groups@) =~~= default_command_groups());
    CommandDispatcher::new(groups)
}

/// The state a state-changing command moves a bounty into, the channel where
/// the bounty is then shown (if the community has one), and the verb that
/// names the command in replies.
pub open spec fn state_change_target(c: CommandKind, config: GuildConfig) -> Option<(BountyState, Option<u64>, Seq<char>)> {
    match c {
        CommandKind::CompleteBounty => Some((BountyState::Completed, config.completed_bounties_channel, "complete"@)),
        CommandKind::ApproveBounty => Some((BountyState::Approved, config.approved_bounties_channel, "approve"@)),
        CommandKind::RejectBounty => Some((BountyState::Rejected, config.rejected_bounties_channel, "reject"@)),
        _ => None,
    }
}

/// Where a state-changing command takes a bounty.
pub fn state_change_for(c: CommandKind, config: &GuildConfig) -> (r: Option<(BountyState, Option<u64>, String)>)
    ensures
        match state_change_target(c, *config) {
            Some((st, ch, verb)) => (r matches Some((st2, ch2, verb2)) && st2 == st && ch2 == ch && verb2@ == verb),
            None => r is None,
        },
{
    match c {
        CommandKind::CompleteBounty => Some((BountyState::Completed, config.completed_bounties_channel, "complete".to_owned())),
        CommandKind::ApproveBounty => Some((BountyState::Approved, config.approved_bounties_channel, "approve".to_owned())),
        CommandKind::RejectBounty => Some((BountyState::Rejected, config.rejected_bounties_channel, "reject".to_owned())),
        _ => None,
    }
}

/// The reply to a ping, given the latency in milliseconds.
pub open spec fn latency_text(ms: i64) -> Seq<char> {
    "**Latency:** "@ + dec_int(ms as int) + " ms"@
}

/// Reports the latency of a ping.
pub fn latency_message(ms: i64) -> (r: String)
    ensures
        r@ == latency_text(ms),
{
    let mut out = chars_of("**Latency:** ");
    push_dec_i64(&mut out, ms);
    push_str(&mut out, " ms");
    assert(out@ =~= latency_text(ms));
    string_from_chars(&out)
}

/// The reply to a permission change of a role.
pub open spec fn permissions_updated_text(role: u64) -> Seq<char> {
    "Permissions for <@&"@ + dec(role as nat) + "> updated."@
}

/// Reports a permission change of a role.
pub fn permissions_updated_message(role: u64) -> (r: String)
    ensures
        r@ == permissions_updated_text(role),
{
    let mut out = chars_of("Permissions for <@&");
    crate::text::push_dec_u64(&mut out, role);
    push_str(&mut out, "> updated.");
    assert(out@ =~= permissions_updated_text(role));
    string_from_chars(&out)
}

} // verus!
