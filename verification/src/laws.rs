//! Properties that hold across the library's operations.

use vstd::prelude::*;
use crate::bounty::{state_name, state_named, BountyState};
use crate::lifecycle::{
    spec_assign, spec_self_assign, spec_self_unassign, spec_set_state, spec_unassign, BountyStatus, Refusal,
};
use crate::permissions::{
    bits_after_add, bits_after_remove, entry_applies, flag_bit, flag_name, granted_bits, permission_named,
    role_grant, GuildPermissionEntity, GuildPermissionsEntry,
};
use crate::text::{
    all_ascii, ascii_lower, dec, find_char, is_white, lemma_find_char, split_once_or_all, starts_with,
    trim, trim_end, trim_start,
};
use crate::commands::{command_and_args, command_text};
use crate::arguments::{edit_args, field_descriptor, field_named};
use crate::submission::missing_upto;
use crate::bounty::BountyInfoKey;
use crate::guild::{config_subcommand, ChannelSetting};

verus! {

/// Whether bit `b` is set in `x`.
pub open spec fn has_bit(x: u64, b: u64) -> bool {
    (x >> b) & 1 == 1
}

/// A member holds a flag exactly when some grant that applies to the member
/// (to the member, one of its roles, or the everyone role) gives that flag.
pub proof fn member_holds_flag_iff_granted(
    entries: Seq<GuildPermissionsEntry>,
    guild_id: u64,
    member_id: u64,
    roles: Seq<u64>,
    b: u64,
)
    requires
        b < 64,
    ensures
        has_bit(granted_bits(entries, guild_id, member_id, roles), b) <==> exists|i: int|
            0 <= i < entries.len() && entry_applies(#[trigger] entries[i], guild_id, member_id, roles)
                && has_bit(entries[i].allow.bits, b),
    decreases entries.len(),
{
    if entries.len() == 0 {
        assert(((0u64 >> b) & 1) == 0) by (bit_vector);
    } else {
        let init = entries.drop_last();
        member_holds_flag_iff_granted(init, guild_id, member_id, roles, b);
        let rest = granted_bits(init, guild_id, member_id, roles);
        let last = entries.last();
        if entry_applies(last, guild_id, member_id, roles) {
            let y = last.allow.bits;
            assert((((rest | y) >> b) & 1 == 1) <==> (((rest >> b) & 1 == 1) || ((y >> b) & 1 == 1))) by (bit_vector)
                requires b < 64;
        }
        if has_bit(granted_bits(entries, guild_id, member_id, roles), b) {
            if has_bit(rest, b) {
                let i = choose|i: int| 0 <= i < init.len() && entry_applies(#[trigger] init[i], guild_id, member_id, roles)
                    && has_bit(init[i].allow.bits, b);
                assert(entries[i] == init[i]);
            } else {
                assert(entries[entries.len() - 1] == last);
            }
        }
        if exists|i: int| 0 <= i < entries.len() && entry_applies(#[trigger] entries[i], guild_id, member_id, roles)
            && has_bit(entries[i].allow.bits, b) {
            let i = choose|i: int| 0 <= i < entries.len() && entry_applies(#[trigger] entries[i], guild_id, member_id, roles)
                && has_bit(entries[i].allow.bits, b);
            if i < entries.len() - 1 {
                assert(init[i] == entries[i]);
            }
        }
    }
}

/// A grant to the everyone role (whose id is the community's id) applies to
/// every member of the community, whatever its roles.
pub proof fn everyone_grant_applies_to_all(e: GuildPermissionsEntry, guild_id: u64, member_id: u64, roles: Seq<u64>)
    requires
        e.entity == GuildPermissionEntity::Role(guild_id),
    ensures
        entry_applies(e, guild_id, member_id, roles),
{
}

/// A hunter who takes a bounty and gives it back leaves it as it was.
pub proof fn self_assign_then_unassign_restores(s: BountyStatus, user: u64)
    requires
        spec_self_assign(Some(s), user) is Ok,
    ensures
        spec_self_unassign(Some(spec_self_assign(Some(s), user)->Ok_0), user) == Ok::<BountyStatus, Refusal>(s),
{
}

/// Once a hunter holds a bounty, no other hunter can take it, and the holder
/// stays the assignee.
pub proof fn held_bounty_cannot_be_taken(s: BountyStatus, holder: u64, other: u64)
    requires
        s.assigned_to == Some(holder),
    ensures
        spec_self_assign(Some(s), other) == Err::<BountyStatus, Refusal>(Refusal::AlreadyAssigned(holder)),
{
}

/// Only the assignee can give a bounty back.
pub proof fn only_assignee_can_unassign_self(s: BountyStatus, user: u64)
    ensures
        spec_self_unassign(Some(s), user) is Ok <==> s.assigned_to == Some(user),
{
}

/// Moving a bounty into a state it is already in is refused, so a repeated
/// approval, completion or rejection changes nothing.
pub proof fn repeated_state_change_refused(s: BountyStatus, st: BountyState)
    requires
        spec_set_state(Some(s), st) is Ok,
    ensures
        spec_set_state(Some(spec_set_state(Some(s), st)->Ok_0), st) == Err::<BountyStatus, Refusal>(Refusal::AlreadyInState(st)),
{
}

/// Only a pending bounty can be approved.
pub proof fn only_pending_bounties_are_approved(s: BountyStatus)
    ensures
        spec_set_state(Some(s), BountyState::Approved) is Ok <==> s.state == BountyState::Pending,
{
}

/// Assignment never changes a bounty's state, and a state change never
/// changes its assignee.
pub proof fn assignment_and_state_are_independent(s: BountyStatus, user: u64, st: BountyState)
    ensures
        spec_assign(Some(s), user) matches Ok(t) ==> t.state == s.state,
        spec_self_assign(Some(s), user) matches Ok(t) ==> t.state == s.state,
        spec_unassign(Some(s)) matches Ok(t) ==> t.state == s.state,
        spec_self_unassign(Some(s), user) matches Ok(t) ==> t.state == s.state,
        spec_set_state(Some(s), st) matches Ok(t) ==> t.assigned_to == s.assigned_to,
{
}

/// After a manager clears the assignee, any hunter may take the bounty again
/// if it is approved.
pub proof fn unassigned_approved_bounty_can_be_taken(s: BountyStatus, user: u64)
    requires
        s.state == BountyState::Approved,
        spec_unassign(Some(s)) is Ok,
    ensures
        spec_self_assign(Some(spec_unassign(Some(s))->Ok_0), user) is Ok,
{
}

/// A submission lacks no required field exactly when every required field is present.
pub proof fn nothing_missing_iff_all_present(required: Seq<BountyInfoKey>, c: Map<BountyInfoKey, Seq<char>>, n: int)
    requires
        0 <= n <= required.len(),
    ensures
        missing_upto(required, c, n).len() == 0 <==> forall|i: int| 0 <= i < n ==> c.contains_key(#[trigger] required[i]),
    decreases n,
{
    if n > 0 {
        nothing_missing_iff_all_present(required, c, n - 1);
    }
}

/// Every flag name that the permission listing shows is ASCII and, in any
/// letter case, is read back as that flag.
pub proof fn listed_flag_names_read_back(i: int)
    requires
        0 <= i < 4,
    ensures
        all_ascii(flag_name(i)),
        permission_named(ascii_lower(flag_name(i))) == Some(flag_bit(i)),
{
    reveal_strlit("CREATE_BOUNTIES");
    reveal_strlit("MANAGE_BOUNTIES");
    reveal_strlit("MANAGE_GUILD_CONFIG");
    reveal_strlit("BOUNTY_HUNTER");
    reveal_strlit("create_bounties");
    reveal_strlit("create_bounty");
    reveal_strlit("create-bounties");
    reveal_strlit("create-bounty");
    reveal_strlit("create bounties");
    reveal_strlit("create bounty");
    reveal_strlit("manage_bounties");
    reveal_strlit("manage-bounties");
    reveal_strlit("manage bounties");
    reveal_strlit("manage_guild_config");
    reveal_strlit("manage-guild-config");
    reveal_strlit("manage_community_config");
    reveal_strlit("manage-community-config");
    reveal_strlit("manage community config");
    reveal_strlit("manage guild config");
    reveal_strlit("bounty_hunter");
    reveal_strlit("bounty-hunter");
    reveal_strlit("bounty hunter");
    let l = ascii_lower(flag_name(i));
    if i == 0 {
        assert(l =~= "create_bounties"@);
    } else if i == 1 {
        assert(l =~= "manage_bounties"@);
        assert(l[0] == 'm' && l[7] == 'b');
    } else if i == 2 {
        assert(l =~= "manage_guild_config"@);
        assert(l[0] == 'm' && l[6] == '_' && l[7] == 'g');
    } else {
        assert(l =~= "bounty_hunter"@);
        assert(l[0] == 'b' && l[6] == '_');
    }
}

/// Whatever a community's prefixes are, a message that starts with a mention
/// of the bot is addressed to it: the command is the rest of the trimmed
/// message, trimmed.
pub proof fn mention_always_addresses_the_bot(content: Seq<char>, client_id: u64, prefixes: Seq<Seq<char>>)
    requires
        starts_with(trim(content), "<@"@ + dec(client_id as nat) + ">"@),
    ensures
        command_text(content, client_id, prefixes)
            == Some(trim(trim(content).skip(("<@"@ + dec(client_id as nat) + ">"@).len() as int))),
{
}

proof fn lemma_no_char_not_found(s: Seq<char>, c: char)
    requires
        !s.contains(c),
    ensures
        find_char(s, c) is None,
    decreases s.len(),
{
    if s.len() > 0 {
        assert(s[0] != c);
        assert forall|i: int| 0 <= i < s.drop_first().len() implies s.drop_first()[i] != c by {
            assert(s.drop_first()[i] == s[i + 1]);
        }
        lemma_no_char_not_found(s.drop_first(), c);
    }
}

/// `<field>` given alone to the edit command reads as that field with an
/// empty value (and an empty value is what `apply_content_edit` clears).
pub proof fn field_alone_reads_as_empty_value(rest: Seq<char>)
    requires
        !trim(rest).contains(' '),
        field_named(trim(rest)) is Some,
    ensures
        edit_args(rest) == Some((field_named(trim(rest))->0, Seq::<char>::empty())),
{
    lemma_no_char_not_found(trim(rest), ' ');
    assert(split_once_or_all(trim(rest), ' ') == (trim(rest), Seq::<char>::empty()));
    assert(trim_start(Seq::<char>::empty()) == Seq::<char>::empty());
    assert(trim_end(Seq::<char>::empty()) == Seq::<char>::empty());
}

/// Each field's name in the edit command's list of fields addresses that field.
pub proof fn field_descriptors_address_their_fields(k: BountyInfoKey)
    ensures
        field_named(field_descriptor(k)) == Some(k),
{
    reveal_strlit("title");
    reveal_strlit("additional-info");
    reveal_strlit("proposed-amount");
    reveal_strlit("due-date");
    reveal_strlit("issue-url");
    reveal_strlit("judging-criteria");
    reveal_strlit("judging_criteria");
    let d = field_descriptor(k);
    match k {
        BountyInfoKey::Title => {},
        BountyInfoKey::AdditionalInfo => { assert(d[0] == 'a'); },
        BountyInfoKey::BountyAmount => { assert(d[0] == 'p'); },
        BountyInfoKey::Deadline => { assert(d[0] == 'd'); },
        BountyInfoKey::IssueUrl => { assert(d[0] == 'i'); },
        BountyInfoKey::JudgingCriteria => { assert(d[0] == 'j'); },
    }
}

proof fn lemma_trim_start_keeps(s: Seq<char>)
    requires
        s.len() > 0,
        !is_white(s[0]),
    ensures
        trim_start(s) == s,
{
}

proof fn lemma_trim_end_keeps(s: Seq<char>)
    requires
        s.len() > 0,
        !is_white(s.last()),
    ensures
        trim_end(s) == s,
{
}

/// The text a command name and its arguments are written as: the name alone,
/// or the name, a space and the arguments.
pub open spec fn written_command(name: Seq<char>, args: Seq<char>) -> Seq<char> {
    if args.len() == 0 {
        name
    } else {
        name + " "@ + args
    }
}

/// A message made of a mention of the bot, a space, and a command name (with
/// no whitespace in it) optionally followed by a space and arguments (which
/// neither start nor end with whitespace) is read as that command with those
/// arguments, whatever the community's prefixes are.
pub proof fn mention_then_command_is_read(
    client_id: u64,
    name: Seq<char>,
    args: Seq<char>,
    prefixes: Seq<Seq<char>>,
)
    requires
        name.len() > 0,
        forall|i: int| 0 <= i < name.len() ==> !is_white(#[trigger] name[i]),
        args.len() > 0 ==> !is_white(args[0]) && !is_white(args.last()),
    ensures
        ({
            let mention = "<@"@ + dec(client_id as nat) + ">"@;
            &&& command_text(mention + " "@ + written_command(name, args), client_id, prefixes)
                == Some(written_command(name, args))
            &&& command_and_args(written_command(name, args)) == (name, args)
        }),
{
    reveal_strlit("<@");
    reveal_strlit(">");
    reveal_strlit(" ");
    let mention = "<@"@ + dec(client_id as nat) + ">"@;
    let tail = written_command(name, args);
    let c = " "@ + tail;
    let content = mention + c;
    assert(mention + " "@ + tail =~= content);
    assert(tail[0] == name[0]);
    assert(!is_white(tail.last())) by {
        if args.len() == 0 {
            assert(!is_white(name[name.len() - 1]));
        }
    }
    assert(content[0] == '<');
    assert(content.last() == tail.last());
    lemma_trim_start_keeps(content);
    lemma_trim_end_keeps(content);
    assert(trim(content) == content);
    assert(content.take(mention.len() as int) =~= mention);
    assert(starts_with(trim(content), mention));
    assert(content.skip(mention.len() as int) =~= c);
    assert(is_white(' '));
    assert(c.drop_first() =~= tail);
    assert(trim_start(c) == trim_start(tail));
    lemma_trim_start_keeps(tail);
    lemma_trim_end_keeps(tail);
    assert(trim(c) == tail);
    if args.len() == 0 {
        assert forall|j: int| 0 <= j < tail.len() implies tail[j] != ' ' by {
            assert(!is_white(name[j]));
        }
        lemma_find_char(tail, ' ', tail.len() as int);
        assert(args =~= Seq::<char>::empty());
    } else {
        assert forall|j: int| 0 <= j < name.len() implies tail[j] != ' ' by {
            assert(tail[j] == name[j]);
            assert(!is_white(name[j]));
        }
        assert(tail[name.len() as int] == ' ');
        lemma_find_char(tail, ' ', name.len() as int);
        assert(tail.take(name.len() as int) =~= name);
        assert(tail.skip(name.len() as int + 1) =~= args);
    }
}

/// Removing a permission undoes adding it: if a role's stored grant did not
/// already hold the flags `p`, and the grants now hold what adding `p` gave
/// the role, then removing `p` gives back the role's earlier flags (none when
/// it had no grant, which the store then drops).
pub proof fn remove_undoes_add(
    before: Seq<GuildPermissionsEntry>,
    after: Seq<GuildPermissionsEntry>,
    role: u64,
    p: u64,
)
    requires
        role_grant(after, role) == Some(bits_after_add(before, role, p)),
        role_grant(before, role) matches Some(a) ==> a & p == 0,
    ensures
        bits_after_remove(after, role, p) == match role_grant(before, role) {
            Some(a) => a,
            None => 0,
        },
{
    match role_grant(before, role) {
        Some(a) => {
            assert((a | p) & !p == a) by (bit_vector)
                requires a & p == 0;
        },
        None => {
            assert(p & !p == 0) by (bit_vector);
        },
    }
}

/// Completing or rejecting a bounty succeeds from every state but the target
/// one: the bounty moves into the target state and keeps its assignee.
pub proof fn complete_and_reject_work_from_any_other_state(s: BountyStatus, st: BountyState)
    requires
        st == BountyState::Completed || st == BountyState::Rejected,
        s.state != st,
    ensures
        spec_set_state(Some(s), st) == Ok::<BountyStatus, Refusal>(BountyStatus { state: st, assigned_to: s.assigned_to }),
{
}

/// A successful state change puts the bounty in the requested state and
/// leaves its assignee alone; a missing bounty is always refused as not found.
pub proof fn state_change_results(b: Option<BountyStatus>, st: BountyState)
    ensures
        b is None ==> spec_set_state(b, st) == Err::<BountyStatus, Refusal>(Refusal::NotFound),
        spec_set_state(b, st) matches Ok(t) ==> (b matches Some(s) && t.state == st && t.assigned_to == s.assigned_to),
{
}

/// A manager's assignment of an existing bounty always makes the given member
/// its assignee, whoever held it before, and keeps its state.
pub proof fn assignment_sets_the_assignee(s: BountyStatus, user: u64)
    ensures
        spec_assign(Some(s), user) == Ok::<BountyStatus, Refusal>(BountyStatus { state: s.state, assigned_to: Some(user) }),
        spec_assign(None, user) == Err::<BountyStatus, Refusal>(Refusal::NotFound),
{
}

/// What each assignment command leaves: taking a bounty makes the taker its
/// assignee, and both kinds of unassignment leave it without one; the state
/// never changes.
pub proof fn assignment_results(b: Option<BountyStatus>, user: u64)
    ensures
        spec_self_assign(b, user) matches Ok(t) ==> (b matches Some(s) && t == (BountyStatus { state: s.state, assigned_to: Some(user) })),
        spec_unassign(b) matches Ok(t) ==> (b matches Some(s) && s.assigned_to is Some && t == (BountyStatus { state: s.state, assigned_to: None })),
        spec_self_unassign(b, user) matches Ok(t) ==> (b matches Some(s) && s.assigned_to == Some(user) && t == (BountyStatus { state: s.state, assigned_to: None })),
{
}

/// Whether a grant is given to the member itself, to one of its roles
/// (anywhere in its role list) or to the community's everyone role.
pub open spec fn grant_is_for(entity: GuildPermissionEntity, guild_id: u64, member_id: u64, roles: Seq<u64>) -> bool {
    match entity {
        GuildPermissionEntity::User(u) => u == member_id,
        GuildPermissionEntity::Role(r) => r == guild_id || exists|j: int| 0 <= j < roles.len() && roles[j] == r,
    }
}

/// Every grant to the member, to any of its roles wherever it stands in the
/// role list, or to everyone gives the member all of its flags.
pub proof fn every_grant_for_the_member_counts(
    entries: Seq<GuildPermissionsEntry>,
    guild_id: u64,
    member_id: u64,
    roles: Seq<u64>,
    k: int,
)
    requires
        0 <= k < entries.len(),
        grant_is_for(entries[k].entity, guild_id, member_id, roles),
    ensures
        granted_bits(entries, guild_id, member_id, roles) & entries[k].allow.bits == entries[k].allow.bits,
    decreases entries.len(),
{
    let a = entries[k].allow.bits;
    let rest = granted_bits(entries.drop_last(), guild_id, member_id, roles);
    if let GuildPermissionEntity::Role(r) = entries[k].entity {
        if r != guild_id {
            let j = choose|j: int| 0 <= j < roles.len() && roles[j] == r;
            assert(roles.contains(r));
        }
    }
    if k == entries.len() - 1 {
        assert(entry_applies(entries.last(), guild_id, member_id, roles));
        assert((rest | a) & a == a) by (bit_vector);
    } else {
        assert(entries.drop_last()[k] == entries[k]);
        every_grant_for_the_member_counts(entries.drop_last(), guild_id, member_id, roles, k);
        let l = entries.last().allow.bits;
        assert(((rest | l) & a) == a) by (bit_vector)
            requires rest & a == a;
    }
}

/// A member holds a flag only through a grant to the member, to one of its
/// roles or to everyone that gives that flag.
pub proof fn flags_come_only_from_grants_for_the_member(
    entries: Seq<GuildPermissionsEntry>,
    guild_id: u64,
    member_id: u64,
    roles: Seq<u64>,
    b: u64,
)
    requires
        b < 64,
        has_bit(granted_bits(entries, guild_id, member_id, roles), b),
    ensures
        exists|i: int| 0 <= i < entries.len() && grant_is_for(#[trigger] entries[i].entity, guild_id, member_id, roles)
            && has_bit(entries[i].allow.bits, b),
{
    member_holds_flag_iff_granted(entries, guild_id, member_id, roles, b);
    let i = choose|i: int| 0 <= i < entries.len() && entry_applies(#[trigger] entries[i], guild_id, member_id, roles)
        && has_bit(entries[i].allow.bits, b);
    if let GuildPermissionEntity::Role(r) = entries[i].entity {
        if r != guild_id {
            assert(roles.contains(r));
            let j = choose|j: int| 0 <= j < roles.len() && roles[j] == r;
            assert(roles[j] == r);
        }
    }
    assert(grant_is_for(entries[i].entity, guild_id, member_id, roles));
}

/// The flags a member holds depend on which roles it has, not on the order or
/// repetition of its role list.
pub proof fn role_order_does_not_matter(
    entries: Seq<GuildPermissionsEntry>,
    guild_id: u64,
    member_id: u64,
    roles1: Seq<u64>,
    roles2: Seq<u64>,
)
    requires
        forall|r: u64| roles1.contains(r) <==> roles2.contains(r),
    ensures
        granted_bits(entries, guild_id, member_id, roles1) == granted_bits(entries, guild_id, member_id, roles2),
    decreases entries.len(),
{
    if entries.len() > 0 {
        role_order_does_not_matter(entries.drop_last(), guild_id, member_id, roles1, roles2);
        assert(entry_applies(entries.last(), guild_id, member_id, roles1)
            == entry_applies(entries.last(), guild_id, member_id, roles2));
    }
}

/// The accepted spellings of each flag's name, in lower case.
pub open spec fn flag_spellings(bits: u64) -> Seq<Seq<char>> {
    if bits == 1 {
        seq!["create_bounties"@, "create_bounty"@, "create-bounties"@, "create-bounty"@, "create bounties"@, "create bounty"@]
    } else if bits == 2 {
        seq!["manage_bounties"@, "manage-bounties"@, "manage bounties"@]
    } else if bits == 4 {
        seq!["manage_guild_config"@, "manage-guild-config"@, "manage_community_config"@,
            "manage-community-config"@, "manage community config"@, "manage guild config"@]
    } else if bits == 8 {
        seq!["bounty_hunter"@, "bounty-hunter"@, "bounty hunter"@]
    } else {
        Seq::empty()
    }
}


/// Every accepted spelling of a flag's name reads as that flag, in any letter
/// case of ASCII text (see `parse_permission_str`), and the four flags'
/// spellings never overlap.
pub proof fn spellings_read_as_their_flag(i: int, k: int)
    requires
        0 <= i < 4,
        0 <= k < flag_spellings(flag_bit(i)).len(),
    ensures
        permission_named(flag_spellings(flag_bit(i))[k]) == Some(flag_bit(i)),
{
    reveal_strlit("create_bounties");
    reveal_strlit("create_bounty");
    reveal_strlit("create-bounties");
    reveal_strlit("create-bounty");
    reveal_strlit("create bounties");
    reveal_strlit("create bounty");
    reveal_strlit("manage_bounties");
    reveal_strlit("manage-bounties");
    reveal_strlit("manage bounties");
    reveal_strlit("manage_guild_config");
    reveal_strlit("manage-guild-config");
    reveal_strlit("manage_community_config");
    reveal_strlit("manage-community-config");
    reveal_strlit("manage community config");
    reveal_strlit("manage guild config");
    reveal_strlit("bounty_hunter");
    reveal_strlit("bounty-hunter");
    reveal_strlit("bounty hunter");
    let t = flag_spellings(flag_bit(i))[k];
    if i == 0 {
        assert(t[0] == 'c');
    } else if i == 1 {
        assert(t[0] == 'm' && t.len() == 15);
    } else if i == 2 {
        assert(t[0] == 'm' && (t.len() == 19 || t.len() == 23));
    } else {
        assert(t[0] == 'b' && t.len() == 13);
    }
}

/// Only the accepted spellings are read as a flag: a name that is read as
/// flags `b` is one of the spellings of `b`.
pub proof fn only_spellings_read_as_flags(t: Seq<char>)
    ensures
        permission_named(t) matches Some(b) ==> flag_spellings(b).contains(t),
{
    reveal_strlit("create_bounties");
    reveal_strlit("create_bounty");
    reveal_strlit("create-bounties");
    reveal_strlit("create-bounty");
    reveal_strlit("create bounties");
    reveal_strlit("create bounty");
    reveal_strlit("manage_bounties");
    reveal_strlit("manage-bounties");
    reveal_strlit("manage bounties");
    reveal_strlit("manage_guild_config");
    reveal_strlit("manage-guild-config");
    reveal_strlit("manage_community_config");
    reveal_strlit("manage-community-config");
    reveal_strlit("manage community config");
    reveal_strlit("manage guild config");
    reveal_strlit("bounty_hunter");
    reveal_strlit("bounty-hunter");
    reveal_strlit("bounty hunter");
    if let Some(b) = permission_named(t) {
        let sp = flag_spellings(b);
        if b == 1 {
            assert(sp[0] == "create_bounties"@ && sp[1] == "create_bounty"@ && sp[2] == "create-bounties"@
                && sp[3] == "create-bounty"@ && sp[4] == "create bounties"@ && sp[5] == "create bounty"@);
        } else if b == 2 {
            assert(sp[0] == "manage_bounties"@ && sp[1] == "manage-bounties"@ && sp[2] == "manage bounties"@);
        } else if b == 4 {
            assert(sp[0] == "manage_guild_config"@ && sp[1] == "manage-guild-config"@
                && sp[2] == "manage_community_config"@ && sp[3] == "manage-community-config"@
                && sp[4] == "manage community config"@ && sp[5] == "manage guild config"@);
        } else {
            assert(sp[0] == "bounty_hunter"@ && sp[1] == "bounty-hunter"@ && sp[2] == "bounty hunter"@);
        }
    }
}

/// The subcommand names of each channel setting of the configuration command.
pub open spec fn setting_subcommands(c: ChannelSetting) -> Seq<Seq<char>> {
    match c {
        ChannelSetting::BountySubmission => seq!["bounty-submission-channel"@],
        ChannelSetting::ApprovalQueue => seq!["approval-queue-channel"@],
        ChannelSetting::ApprovedBounties => seq!["approved-bounties-channel"@],
        ChannelSetting::ClaimedBounties => seq!["claimed-bounties-channel"@, "assigned-bounties-channel"@],
        ChannelSetting::CompletedBounties => seq!["completed-bounties-channel"@],
        ChannelSetting::RejectedBounties => seq!["rejected-bounties-channel"@, "denied-bounties-channel"@],
    }
}

/// The subcommand names that set the command prefix.
pub open spec fn prefix_subcommands() -> Seq<Seq<char>> {
    seq!["command-prefix"@, "prefix"@]
}

/// Each configuration subcommand name addresses its own setting: the names of
/// a channel setting set that channel, and the prefix names set the prefix.
pub proof fn subcommands_address_their_setting(c: ChannelSetting, k: int, j: int)
    ensures
        0 <= k < setting_subcommands(c).len() ==> config_subcommand(setting_subcommands(c)[k]) == Some(Some(c)),
        0 <= j < prefix_subcommands().len() ==> config_subcommand(prefix_subcommands()[j]) == Some(None::<ChannelSetting>),
{
    reveal_strlit("bounty-submission-channel");
    reveal_strlit("approval-queue-channel");
    reveal_strlit("approved-bounties-channel");
    reveal_strlit("claimed-bounties-channel");
    reveal_strlit("assigned-bounties-channel");
    reveal_strlit("completed-bounties-channel");
    reveal_strlit("rejected-bounties-channel");
    reveal_strlit("denied-bounties-channel");
    reveal_strlit("command-prefix");
    reveal_strlit("prefix");
    if 0 <= k < setting_subcommands(c).len() {
        let t = setting_subcommands(c)[k];
        match c {
            ChannelSetting::BountySubmission => { assert(t[0] == 'b' && t.len() == 25); },
            ChannelSetting::ApprovalQueue => { assert(t[0] == 'a' && t.len() == 22); },
            ChannelSetting::ApprovedBounties => { assert(t[0] == 'a' && t[2] == 'p' && t.len() == 25); },
            ChannelSetting::ClaimedBounties => {
                assert((t[0] == 'c' && t.len() == 24) || (t[0] == 'a' && t[2] == 's' && t.len() == 25));
            },
            ChannelSetting::CompletedBounties => { assert(t[0] == 'c' && t.len() == 26); },
            ChannelSetting::RejectedBounties => {
                assert((t[0] == 'r' && t.len() == 25) || (t[0] == 'd' && t.len() == 23));
            },
        }
    }
    if 0 <= j < prefix_subcommands().len() {
        let t = prefix_subcommands()[j];
        assert((t[0] == 'c' && t.len() == 14) || (t[0] == 'p' && t.len() == 6));
    }
}

/// Only those names are subcommands: a name that sets a channel is one of
/// that channel's names, and a name that sets the prefix is a prefix name.
pub proof fn only_listed_subcommands(t: Seq<char>)
    ensures
        config_subcommand(t) matches Some(Some(c)) ==> setting_subcommands(c).contains(t),
        config_subcommand(t) == Some(None::<ChannelSetting>) ==> prefix_subcommands().contains(t),
{
    reveal_strlit("bounty-submission-channel");
    reveal_strlit("approval-queue-channel");
    reveal_strlit("approved-bounties-channel");
    reveal_strlit("claimed-bounties-channel");
    reveal_strlit("assigned-bounties-channel");
    reveal_strlit("completed-bounties-channel");
    reveal_strlit("rejected-bounties-channel");
    reveal_strlit("denied-bounties-channel");
    reveal_strlit("command-prefix");
    reveal_strlit("prefix");
    match config_subcommand(t) {
        Some(Some(c)) => {
            let sp = setting_subcommands(c);
            assert(sp[0] == t || (sp.len() > 1 && sp[1] == t));
        },
        Some(None) => {
            let sp = prefix_subcommands();
            assert(sp[0] == t || sp[1] == t);
        },
        None => {},
    }
}

/// The edit command reads a field name only as the field it is listed under
/// (the judging criteria are also reached as `judging_criteria`).
pub proof fn field_names_address_only_their_field(t: Seq<char>)
    ensures
        field_named(t) matches Some(k) ==> (t == field_descriptor(k)
            || (k == BountyInfoKey::JudgingCriteria && t == "judging_criteria"@)),
{
    reveal_strlit("title");
    reveal_strlit("additional-info");
    reveal_strlit("proposed-amount");
    reveal_strlit("due-date");
    reveal_strlit("issue-url");
    reveal_strlit("judging-criteria");
    reveal_strlit("judging_criteria");
}

/// A state is read back from its name, and a name is read only as the state
/// it names.
pub proof fn state_names_read_back(st: BountyState, t: Seq<char>)
    ensures
        state_named(state_name(st)) == Some(st),
        state_named(t) matches Some(s2) ==> t == state_name(s2),
{
    reveal_strlit("Completed");
    reveal_strlit("Approved");
    reveal_strlit("Pending");
    reveal_strlit("Rejected");
    let n = state_name(st);
    assert(n[0] == 'C' || n[0] == 'A' || n[0] == 'P' || n[0] == 'R');
    match st {
        BountyState::Completed => { assert(n[0] == 'C'); },
        BountyState::Approved => { assert(n[0] == 'A'); },
        BountyState::Pending => { assert(n[0] == 'P'); },
        BountyState::Rejected => { assert(n[0] == 'R'); },
    }
}

/// A hunter can take a bounty exactly when it is approved and nobody holds it.
pub proof fn hunters_take_only_free_approved_bounties(s: BountyStatus, user: u64)
    ensures
        spec_self_assign(Some(s), user) is Ok <==> (s.state == BountyState::Approved && s.assigned_to is None),
{
}

} // verus!
