//! Bot permissions: the flag set, grants stored per community, and the
//! decisions built on them.

use vstd::prelude::*;
use crate::text::{
    all_ascii, ascii_lower, chars_eq, chars_of, dec, join, join_chars, lowercase, parse_u64,
    parse_u64_range, push_dec_u64, push_str, range_eq, range_starts_with, split_once_bounds,
    split_once_or_all, starts_with, string_from_chars, string_from_range, to_lowercase, trim,
    trim_bounds, views,
};

verus! {

/// A set of bot permission flags, stored as bits.
#[derive(Copy, Clone, Debug, PartialEq, Eq, Structural)]
pub struct BotPermissions {
    pub bits: u64,
}

pub open spec fn all_bits() -> u64 {
    15
}

/// Names of the defined flags, in declaration order, with their bits.
pub open spec fn flag_bit(i: int) -> u64 {
    if i == 0 { 1 } else if i == 1 { 2 } else if i == 2 { 4 } else { 8 }
}

pub open spec fn flag_name(i: int) -> Seq<char> {
    if i == 0 {
        "CREATE_BOUNTIES"@
    } else if i == 1 {
        "MANAGE_BOUNTIES"@
    } else if i == 2 {
        "MANAGE_GUILD_CONFIG"@
    } else {
        "BOUNTY_HUNTER"@
    }
}

/// Names of the defined flags among `bits`, in declaration order, for the first `n` flags.
pub open spec fn names_in(bits: u64, n: int) -> Seq<Seq<char>>
    decreases n,
{
    if n <= 0 {
        Seq::empty()
    } else if bits & flag_bit(n - 1) != 0 {
        names_in(bits, n - 1).push(flag_name(n - 1))
    } else {
        names_in(bits, n - 1)
    }
}

impl BotPermissions {
    pub open spec fn spec_bits(self) -> u64 {
        self.bits
    }

    /// Whether every flag of `other` is in `self`.
    pub open spec fn spec_contains(self, other: BotPermissions) -> bool {
        self.bits & other.bits == other.bits
    }

    /// The empty set.
    pub fn empty() -> (r: BotPermissions)
        ensures
            r.spec_bits() == 0,
    {
        BotPermissions { bits: 0 }
    }

    /// The set of every defined flag.
    pub fn all() -> (r: BotPermissions)
        ensures
            r.spec_bits() == all_bits(),
    {
        BotPermissions { bits: 15 }
    }

    pub fn create_bounties() -> (r: BotPermissions)
        ensures
            r.spec_bits() == 1,
    {
        BotPermissions { bits: 1 }
    }

    pub fn manage_bounties() -> (r: BotPermissions)
        ensures
            r.spec_bits() == 2,
    {
        BotPermissions { bits: 2 }
    }

    pub fn manage_guild_config() -> (r: BotPermissions)
        ensures
            r.spec_bits() == 4,
    {
        BotPermissions { bits: 4 }
    }

    pub fn bounty_hunter() -> (r: BotPermissions)
        ensures
            r.spec_bits() == 8,
    {
        BotPermissions { bits: 8 }
    }

    /// The raw bits.
    pub fn bits(&self) -> (r: u64)
        ensures
            r == self.spec_bits(),
    {
        self.bits
    }

    /// The flags of `bits` that are defined; other bits are dropped.
    pub fn from_bits_truncate(bits: u64) -> (r: BotPermissions)
        ensures
            r.spec_bits() == bits & all_bits(),
    {
        BotPermissions { bits: bits & 15 }
    }

    /// Flags in either set.
    pub fn union(&self, other: BotPermissions) -> (r: BotPermissions)
        ensures
            r.spec_bits() == self.spec_bits() | other.spec_bits(),
    {
        BotPermissions { bits: self.bits | other.bits }
    }

    /// Flags of `self` that are not in `other`.
    pub fn difference(&self, other: BotPermissions) -> (r: BotPermissions)
        ensures
            r.spec_bits() == self.spec_bits() & !other.spec_bits(),
    {
        BotPermissions { bits: self.bits & !other.bits }
    }

    /// Whether every flag of `other` is in `self`.
    pub fn contains(&self, other: BotPermissions) -> (r: bool)
        ensures
            r == self.spec_contains(other),
    {
        self.bits & other.bits == other.bits
    }

    /// Whether no flag is set.
    pub fn is_empty(&self) -> (r: bool)
        ensures
            r == (self.spec_bits() == 0),
    {
        self.bits == 0
    }

    /// Names of the defined flags that are set, in declaration order.
    pub fn flag_names(&self) -> (r: Vec<Vec<char>>)
        ensures
            views(r@) == names_in(self.spec_bits(), 4),
    {
        let mut r: Vec<Vec<char>> = Vec::new();
        proof { reveal_with_fuel(names_in, 5); }
        assert(views(r@) =~= names_in(self.bits, 0));
        if self.bits & 1 != 0 {
            let ghost before = r@;
            r.push(chars_of("CREATE_BOUNTIES"));
            assert(views(r@) =~= views(before).push(flag_name(0)));
        }
        assert(views(r@) =~= names_in(self.bits, 1));
        if self.bits & 2 != 0 {
            let ghost before = r@;
            r.push(chars_of("MANAGE_BOUNTIES"));
            assert(views(r@) =~= views(before).push(flag_name(1)));
        }
        assert(views(r@) =~= names_in(self.bits, 2));
        if self.bits & 4 != 0 {
            let ghost before = r@;
            r.push(chars_of("MANAGE_GUILD_CONFIG"));
            assert(views(r@) =~= views(before).push(flag_name(2)));
        }
        assert(views(r@) =~= names_in(self.bits, 3));
        if self.bits & 8 != 0 {
            let ghost before = r@;
            r.push(chars_of("BOUNTY_HUNTER"));
            assert(views(r@) =~= views(before).push(flag_name(3)));
        }
        r
    }
}

/// The flag names of `permissions` joined by ", " (empty when no flag is set).
pub open spec fn permissions_string(bits: u64) -> Seq<char> {
    join(names_in(bits, 4), ", "@)
}

/// Lists the names of the set flags, separated by ", ".
pub fn permissions_to_string(permissions: BotPermissions) -> (r: String)
    ensures
        r@ == permissions_string(permissions.spec_bits()),
{
    let names = permissions.flag_names();
    let joined = join_chars(&names, ", ");
    string_from_chars(&joined)
}

/// Who a stored permission grant applies to.
#[derive(Copy, Clone, Debug, PartialEq, Eq, Structural)]
pub enum GuildPermissionEntity {
    User(u64),
    Role(u64),
}

/// One stored permission grant of a community.
#[derive(Copy, Clone, Debug, PartialEq, Eq, Structural)]
pub struct GuildPermissionsEntry {
    pub guild_id: u64,
    pub entity: GuildPermissionEntity,
    pub allow: BotPermissions,
}

/// Whether a grant applies to a member: grants to the member itself, to one of
/// the member's roles, and to the everyone role (whose id is the community's id).
pub open spec fn entry_applies(e: GuildPermissionsEntry, guild_id: u64, member_id: u64, roles: Seq<u64>) -> bool {
    match e.entity {
        GuildPermissionEntity::User(id) => id == member_id,
        GuildPermissionEntity::Role(id) => id == guild_id || roles.contains(id),
    }
}

/// Union of the flags of every grant that applies to the member.
pub open spec fn granted_bits(entries: Seq<GuildPermissionsEntry>, guild_id: u64, member_id: u64, roles: Seq<u64>) -> u64
    decreases entries.len(),
{
    if entries.len() == 0 {
        0
    } else {
        let rest = granted_bits(entries.drop_last(), guild_id, member_id, roles);
        if entry_applies(entries.last(), guild_id, member_id, roles) {
            rest | entries.last().allow.bits
        } else {
            rest
        }
    }
}

pub(crate) fn vec_contains_u64(v: &Vec<u64>, x: u64) -> (r: bool)
    ensures
        r == v@.contains(x),
{
    let mut i: usize = 0;
    while i < v.len()
        invariant
            i <= v.len(),
            forall|j: int| 0 <= j < i ==> v@[j] != x,
        decreases v.len() - i,
    {
        if v[i] == x {
            return true;
        }
        i = i + 1;
    }
    false
}

/// The bot permissions a member holds through the stored grants of its community.
/// Does not look at the platform's own permissions.
pub fn my_permissions(
    entries: &Vec<GuildPermissionsEntry>,
    guild_id: u64,
    member_id: u64,
    member_roles: &Vec<u64>,
) -> (r: BotPermissions)
    ensures
        r.spec_bits() == granted_bits(entries@, guild_id, member_id, member_roles@),
{
    let mut acc = BotPermissions::empty();
    let mut i: usize = 0;
    while i < entries.len()
        invariant
            i <= entries.len(),
            acc.spec_bits() == granted_bits(entries@.take(i as int), guild_id, member_id, member_roles@),
        decreases entries.len() - i,
    {
        let e = entries[i];
        let applies = match e.entity {
            GuildPermissionEntity::User(id) => id == member_id,
            GuildPermissionEntity::Role(id) => id == guild_id || vec_contains_u64(member_roles, id),
        };
        if applies {
            acc = acc.union(e.allow);
        }
        assert(entries@.take(i + 1).drop_last() == entries@.take(i as int));
        i = i + 1;
    }
    assert(entries@.take(entries.len() as int) == entries@);
    acc
}

/// Whether a member may run something that needs `required`: community
/// administrators may run everything; everyone else needs every required flag.
pub fn has_permissions(is_administrator: bool, granted: BotPermissions, required: BotPermissions) -> (r: bool)
    ensures
        r == (is_administrator || granted.spec_contains(required)),
{
    is_administrator || granted.contains(required)
}

/// Index of the first grant to the role `role`.
pub open spec fn role_entry_index(entries: Seq<GuildPermissionsEntry>, role: u64) -> Option<nat>
    decreases entries.len(),
{
    if entries.len() == 0 {
        None
    } else if entries[0].entity == GuildPermissionEntity::Role(role) {
        Some(0)
    } else {
        match role_entry_index(entries.drop_first(), role) {
            Some(i) => Some(i + 1),
            None => None,
        }
    }
}

proof fn lemma_role_entry_index(s: Seq<GuildPermissionsEntry>, role: u64, i: int)
    requires
        0 <= i <= s.len(),
        forall|j: int| 0 <= j < i ==> s[j].entity != GuildPermissionEntity::Role(role),
    ensures
        i == s.len() ==> role_entry_index(s, role) is None,
        i < s.len() && s[i].entity == GuildPermissionEntity::Role(role) ==> role_entry_index(s, role) == Some(i as nat),
    decreases i,
{
    if i > 0 {
        lemma_role_entry_index(s.drop_first(), role, i - 1);
    }
}

/// The stored flags of the role's grant, if the role has one.
pub open spec fn role_grant(entries: Seq<GuildPermissionsEntry>, role: u64) -> Option<u64> {
    match role_entry_index(entries, role) {
        Some(i) => Some(entries[i as int].allow.bits),
        None => None,
    }
}

/// The stored grant of a role, if any.
pub fn find_role_grant(entries: &Vec<GuildPermissionsEntry>, role: u64) -> (r: Option<BotPermissions>)
    ensures
        match r {
            Some(p) => role_grant(entries@, role) == Some(p.spec_bits()),
            None => role_grant(entries@, role) is None,
        },
{
    let mut i: usize = 0;
    while i < entries.len()
        invariant
            i <= entries.len(),
            forall|j: int| 0 <= j < i ==> entries@[j].entity != GuildPermissionEntity::Role(role),
        decreases entries.len() - i,
    {
        if entries[i].entity == GuildPermissionEntity::Role(role) {
            proof { lemma_role_entry_index(entries@, role, i as int); }
            return Some(entries[i].allow);
        }
        i = i + 1;
    }
    proof { lemma_role_entry_index(entries@, role, i as int); }
    None
}

/// The flags a role is to hold after `permission` is added to it.
pub open spec fn bits_after_add(entries: Seq<GuildPermissionsEntry>, role: u64, permission: u64) -> u64 {
    match role_grant(entries, role) {
        Some(b) => b | permission,
        None => permission,
    }
}

/// The flags a role is to hold after `permission` is removed from it.
pub open spec fn bits_after_remove(entries: Seq<GuildPermissionsEntry>, role: u64, permission: u64) -> u64 {
    match role_grant(entries, role) {
        Some(b) => b & !permission,
        None => 0,
    }
}

/// The flags to store for `role` when `permission` is added: its current grant
/// (if any) together with `permission`.
pub fn permissions_after_add(entries: &Vec<GuildPermissionsEntry>, role: u64, permission: BotPermissions) -> (r: BotPermissions)
    ensures
        r.spec_bits() == bits_after_add(entries@, role, permission.spec_bits()),
        r.spec_contains(permission),
        role_grant(entries@, role) matches Some(b) ==> r.spec_contains((BotPermissions { bits: b })),
{
    let r = match find_role_grant(entries, role) {
        Some(existing) => existing.union(permission),
        None => permission,
    };
    proof {
        let p = permission.bits;
        if let Some(b) = role_grant(entries@, role) {
            assert((b | p) & p == p) by (bit_vector);
            assert((b | p) & b == b) by (bit_vector);
        } else {
            assert(p & p == p) by (bit_vector);
        }
    }
    r
}

/// The flags to store for `role` when `permission` is removed: its current
/// grant (if any) without `permission`; nothing when it has no grant.
pub fn permissions_after_remove(entries: &Vec<GuildPermissionsEntry>, role: u64, permission: BotPermissions) -> (r: BotPermissions)
    ensures
        r.spec_bits() == bits_after_remove(entries@, role, permission.spec_bits()),
        r.spec_bits() & permission.spec_bits() == 0,
        role_grant(entries@, role) matches Some(b) ==> (BotPermissions { bits: b }).spec_contains(r),
        role_grant(entries@, role) is None ==> r.spec_bits() == 0,
{
    let r = match find_role_grant(entries, role) {
        Some(existing) => existing.difference(permission),
        None => BotPermissions::empty(),
    };
    proof {
        let p = permission.bits;
        if let Some(b) = role_grant(entries@, role) {
            assert((b & !p) & p == 0) by (bit_vector);
            assert(b & (b & !p) == (b & !p)) by (bit_vector);
        } else {
            assert(0u64 & p == 0) by (bit_vector);
        }
    }
    r
}

/// Whether `v` holds exactly the characters of `lit`.
pub fn eq_lit(v: &Vec<char>, lit: &str) -> (r: bool)
    ensures
        r == (v@ == lit@),
{
    chars_eq(v, &chars_of(lit))
}

/// The flag named by an already lower-cased permission name.
pub open spec fn permission_named(s: Seq<char>) -> Option<u64> {
    if s == "create_bounties"@ || s == "create_bounty"@ || s == "create-bounties"@
        || s == "create-bounty"@ || s == "create bounties"@ || s == "create bounty"@ {
        Some(1)
    } else if s == "manage_bounties"@ || s == "manage-bounties"@ || s == "manage bounties"@ {
        Some(2)
    } else if s == "manage_guild_config"@ || s == "manage-guild-config"@
        || s == "manage_community_config"@ || s == "manage-community-config"@
        || s == "manage community config"@ || s == "manage guild config"@ {
        Some(4)
    } else if s == "bounty_hunter"@ || s == "bounty-hunter"@ || s == "bounty hunter"@ {
        Some(8)
    } else {
        None
    }
}

pub open spec fn opt_permissions(b: Option<u64>) -> Option<BotPermissions> {
    match b {
        Some(bits) => Some(BotPermissions { bits }),
        None => None,
    }
}

/// The flag named by `name`, which is expected in lower case already.
pub fn permission_from_lowercase_name(name: &Vec<char>) -> (r: Option<BotPermissions>)
    ensures
        r == opt_permissions(permission_named(name@)),
{
    if eq_lit(name, "create_bounties") || eq_lit(name, "create_bounty") || eq_lit(name, "create-bounties")
        || eq_lit(name, "create-bounty") || eq_lit(name, "create bounties") || eq_lit(name, "create bounty") {
        Some(BotPermissions::create_bounties())
    } else if eq_lit(name, "manage_bounties") || eq_lit(name, "manage-bounties") || eq_lit(name, "manage bounties") {
        Some(BotPermissions::manage_bounties())
    } else if eq_lit(name, "manage_guild_config") || eq_lit(name, "manage-guild-config")
        || eq_lit(name, "manage_community_config") || eq_lit(name, "manage-community-config")
        || eq_lit(name, "manage community config") || eq_lit(name, "manage guild config") {
        Some(BotPermissions::manage_guild_config())
    } else if eq_lit(name, "bounty_hunter") || eq_lit(name, "bounty-hunter") || eq_lit(name, "bounty hunter") {
        Some(BotPermissions::bounty_hunter())
    } else {
        None
    }
}

/// Reads a permission name, in any letter case (see `permission_named` for the names).
pub fn parse_permission_str(s: &str) -> (r: Option<BotPermissions>)
    ensures
        r == opt_permissions(permission_named(lowercase(s@))),
        all_ascii(s@) ==> r == opt_permissions(permission_named(ascii_lower(s@))),
{
    let lower = to_lowercase(s);
    let v = chars_of(lower.as_str());
    permission_from_lowercase_name(&v)
}

/// What a role argument names: `@everyone` and `everyone` name the community's
/// everyone role, `<@&id>` a mentioned role, and a bare number a role id.
pub open spec fn role_arg(s: Seq<char>, guild_id: u64) -> Option<u64> {
    if s == "@everyone"@ || s == "everyone"@ {
        Some(guild_id)
    } else if starts_with(s, "<@&"@) {
        let rest = s.skip(3);
        if rest.len() > 0 && rest.last() == '>' {
            parse_u64(rest.drop_last())
        } else {
            None
        }
    } else {
        parse_u64(s)
    }
}

/// Reads a role id, role mention or `everyone` from `v[lo..hi]`.
pub fn parse_role_range(v: &Vec<char>, lo: usize, hi: usize, guild_id: u64) -> (r: Option<u64>)
    requires
        lo <= hi <= v.len(),
    ensures
        r == role_arg(v@.subrange(lo as int, hi as int), guild_id),
{
    let ghost s = v@.subrange(lo as int, hi as int);
    if range_eq(v, lo, hi, &chars_of("@everyone")) || range_eq(v, lo, hi, &chars_of("everyone")) {
        return Some(guild_id);
    }
    if range_starts_with(v, lo, hi, &chars_of("<@&")) {
        proof { reveal_strlit("<@&"); }
        let start = lo + 3;
        assert(s.skip(3) == v@.subrange(start as int, hi as int));
        if hi > start && v[hi - 1] == '>' {
            assert(s.skip(3).drop_last() == v@.subrange(start as int, hi - 1));
            parse_u64_range(v, start, hi - 1)
        } else {
            None
        }
    } else {
        parse_u64_range(v, lo, hi)
    }
}

/// Reads a role id, role mention or `everyone`.
pub fn parse_role_id_or_mention(s: &str, guild_id: u64) -> (r: Option<u64>)
    ensures
        r == role_arg(s@, guild_id),
{
    let v = chars_of(s);
    let r = parse_role_range(&v, 0, v.len(), guild_id);
    assert(v@.subrange(0, v.len() as int) == v@);
    r
}

/// A permission grant as the database stores it.
pub struct GuildPermissionsEntrySchema {
    pub guild_id: i64,
    pub kind: String,
    pub entity_id: i64,
    pub allow: i64,
}

/// Why a stored permission row could not be read.
#[derive(Debug)]
pub enum PermissionRowError {
    /// The row's kind is neither `user` nor `role` (in any letter case); the kind is kept.
    UnknownKind(String),
}

impl GuildPermissionsEntry {
    /// Reads a stored row: ids are reinterpreted as unsigned, the kind is matched
    /// case-insensitively, and undefined permission bits are dropped.
    pub fn try_from_schema(value: GuildPermissionsEntrySchema) -> (r: Result<GuildPermissionsEntry, PermissionRowError>)
        ensures
            lowercase(value.kind@) == "user"@ ==> r == Ok::<GuildPermissionsEntry, PermissionRowError>(
                GuildPermissionsEntry {
                    guild_id: value.guild_id as u64,
                    entity: GuildPermissionEntity::User(value.entity_id as u64),
                    allow: BotPermissions { bits: (value.allow as u64) & all_bits() },
                },
            ),
            lowercase(value.kind@) != "user"@ && lowercase(value.kind@) == "role"@ ==> r == Ok::<GuildPermissionsEntry, PermissionRowError>(
                GuildPermissionsEntry {
                    guild_id: value.guild_id as u64,
                    entity: GuildPermissionEntity::Role(value.entity_id as u64),
                    allow: BotPermissions { bits: (value.allow as u64) & all_bits() },
                },
            ),
            lowercase(value.kind@) != "user"@ && lowercase(value.kind@) != "role"@ ==> (r matches Err(PermissionRowError::UnknownKind(k)) && k@ == value.kind@),
    {
        let lower = to_lowercase(value.kind.as_str());
        let v = chars_of(lower.as_str());
        let entity = if eq_lit(&v, "user") {
            GuildPermissionEntity::User(value.entity_id as u64)
        } else if eq_lit(&v, "role") {
            GuildPermissionEntity::Role(value.entity_id as u64)
        } else {
            return Err(PermissionRowError::UnknownKind(value.kind));
        };
        Ok(GuildPermissionsEntry {
            guild_id: value.guild_id as u64,
            entity,
            allow: BotPermissions::from_bits_truncate(value.allow as u64),
        })
    }
}

/// One line of the permission listing: the mention of whom the grant is for,
/// the flag names and the raw bits.
pub open spec fn entry_line(e: GuildPermissionsEntry) -> Seq<char> {
    "<@"@ + match e.entity {
        GuildPermissionEntity::Role(id) => "&"@ + dec(id as nat),
        GuildPermissionEntity::User(id) => dec(id as nat),
    } + "> - "@ + permissions_string(e.allow.bits) + " ("@ + dec(e.allow.bits as nat) + ")"@
}

/// The permission listing of a community: one line per grant, or `*none*`.
pub open spec fn permission_list(entries: Seq<GuildPermissionsEntry>) -> Seq<char> {
    let j = join(entries.map_values(|e: GuildPermissionsEntry| entry_line(e)), "\n"@);
    if j.len() == 0 {
        "*none*"@
    } else {
        j
    }
}

fn entry_line_chars(e: &GuildPermissionsEntry) -> (r: Vec<char>)
    ensures
        r@ == entry_line(*e),
{
    let mut out: Vec<char> = Vec::new();
    push_str(&mut out, "<@");
    match e.entity {
        GuildPermissionEntity::Role(id) => {
            push_str(&mut out, "&");
            push_dec_u64(&mut out, id);
        },
        GuildPermissionEntity::User(id) => {
            push_dec_u64(&mut out, id);
        },
    }
    push_str(&mut out, "> - ");
    let names = permissions_to_string(e.allow);
    push_str(&mut out, names.as_str());
    push_str(&mut out, " (");
    push_dec_u64(&mut out, e.allow.bits);
    push_str(&mut out, ")");
    proof {
        let mid = match e.entity {
            GuildPermissionEntity::Role(id) => "&"@ + dec(id as nat),
            GuildPermissionEntity::User(id) => dec(id as nat),
        };
        assert(out@ =~= "<@"@ + mid + "> - "@ + permissions_string(e.allow.bits) + " ("@ + dec(e.allow.bits as nat) + ")"@);
    }
    out
}

/// The text that lists a community's permission grants.
pub fn permission_list_text(entries: &Vec<GuildPermissionsEntry>) -> (r: String)
    ensures
        r@ == permission_list(entries@),
{
    let mut lines: Vec<Vec<char>> = Vec::new();
    let mut i: usize = 0;
    while i < entries.len()
        invariant
            i <= entries.len(),
            views(lines@) == entries@.take(i as int).map_values(|e: GuildPermissionsEntry| entry_line(e)),
        decreases entries.len() - i,
    {
        let line = entry_line_chars(&entries[i]);
        let ghost before = lines@;
        lines.push(line);
        assert(views(lines@) =~= views(before).push(entry_line(entries@[i as int])));
        assert(entries@.take(i + 1).map_values(|e: GuildPermissionsEntry| entry_line(e))
            =~= entries@.take(i as int).map_values(|e: GuildPermissionsEntry| entry_line(e)).push(entry_line(entries@[i as int])));
        i = i + 1;
    }
    assert(entries@.take(entries.len() as int) == entries@);
    let joined = join_chars(&lines, "\n");
    if joined.len() == 0 {
        string_from_chars(&chars_of("*none*"))
    } else {
        string_from_chars(&joined)
    }
}

/// Why the arguments of a permission command were refused.
#[derive(Copy, Clone, Debug, PartialEq, Eq, Structural)]
pub enum PermissionArgsError {
    /// The first word is not a role id, role mention or `everyone`.
    InvalidRole,
    /// The rest is not a permission name.
    InvalidPermission,
}

/// The role and flag named by `<role> <permission>`.
pub open spec fn permission_args(args: Seq<char>, guild_id: u64) -> Result<(u64, u64), PermissionArgsError> {
    let (role_s, perm_s) = split_once_or_all(args, ' ');
    match role_arg(role_s, guild_id) {
        None => Err(PermissionArgsError::InvalidRole),
        Some(role) => match permission_named(lowercase(trim(perm_s))) {
            None => Err(PermissionArgsError::InvalidPermission),
            Some(p) => Ok((role, p)),
        },
    }
}

/// Reads the arguments `<role> <permission>` of the add- and remove-permission commands.
pub fn parse_permission_args(args: &str, guild_id: u64) -> (r: Result<(u64, BotPermissions), PermissionArgsError>)
    ensures
        match permission_args(args@, guild_id) {
            Ok((role, p)) => r == Ok::<(u64, BotPermissions), PermissionArgsError>((role, BotPermissions { bits: p })),
            Err(e) => r == Err::<(u64, BotPermissions), PermissionArgsError>(e),
        },
{
    let v = chars_of(args);
    assert(v@.subrange(0, v.len() as int) == v@);
    let (a0, a1, b0, b1) = split_once_bounds(&v, 0, v.len(), ' ');
    let role = match parse_role_range(&v, a0, a1, guild_id) {
        Some(role) => role,
        None => return Err(PermissionArgsError::InvalidRole),
    };
    let (t0, t1) = trim_bounds(&v, b0, b1);
    let trimmed = string_from_range(&v, t0, t1);
    let lower = to_lowercase(trimmed.as_str());
    let lv = chars_of(lower.as_str());
    match permission_from_lowercase_name(&lv) {
        Some(p) => Ok((role, p)),
        None => Err(PermissionArgsError::InvalidPermission),
    }
}

} // verus!
