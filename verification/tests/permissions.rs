use bounty_bot::permissions::{
    has_permissions, my_permissions, parse_permission_args, parse_permission_str,
    parse_role_id_or_mention, permission_list_text, permissions_after_add, permissions_after_remove,
    permissions_to_string, BotPermissions, GuildPermissionEntity, GuildPermissionsEntry,
    GuildPermissionsEntrySchema, PermissionArgsError, PermissionRowError,
};

const GUILD: u64 = 1000;

fn entry(entity: GuildPermissionEntity, allow: BotPermissions) -> GuildPermissionsEntry {
    GuildPermissionsEntry { guild_id: GUILD, entity, allow }
}

#[test]
fn permission_names_in_any_case() {
    assert_eq!(parse_permission_str("create-bounty"), Some(BotPermissions::create_bounties()));
    assert_eq!(parse_permission_str("Create Bounties"), Some(BotPermissions::create_bounties()));
    assert_eq!(parse_permission_str("MANAGE_BOUNTIES"), Some(BotPermissions::manage_bounties()));
    assert_eq!(parse_permission_str("manage community config"), Some(BotPermissions::manage_guild_config()));
    assert_eq!(parse_permission_str("Bounty-Hunter"), Some(BotPermissions::bounty_hunter()));
    assert_eq!(parse_permission_str("bounty hunters"), None);
    assert_eq!(parse_permission_str(""), None);
}

#[test]
fn permission_names_are_listed_in_declaration_order() {
    assert_eq!(permissions_to_string(BotPermissions::empty()), "");
    assert_eq!(permissions_to_string(BotPermissions::all()), "CREATE_BOUNTIES, MANAGE_BOUNTIES, MANAGE_GUILD_CONFIG, BOUNTY_HUNTER");
    let p = BotPermissions::bounty_hunter().union(BotPermissions::manage_bounties());
    assert_eq!(permissions_to_string(p), "MANAGE_BOUNTIES, BOUNTY_HUNTER");
    assert_eq!(permissions_to_string(BotPermissions::from_bits_truncate(0xff)), permissions_to_string(BotPermissions::all()));
}

#[test]
fn flag_algebra() {
    let a = BotPermissions::create_bounties().union(BotPermissions::manage_bounties());
    assert!(a.contains(BotPermissions::create_bounties()));
    assert!(a.contains(BotPermissions::empty()));
    assert!(!a.contains(BotPermissions::bounty_hunter()));
    let d = a.difference(BotPermissions::create_bounties());
    assert_eq!(d, BotPermissions::manage_bounties());
    assert_eq!(BotPermissions::from_bits_truncate(0x12).bits(), 2);
    assert!(BotPermissions::empty().is_empty());
}

#[test]
fn member_permissions_combine_user_role_and_everyone_grants() {
    let entries = vec![
        entry(GuildPermissionEntity::User(5), BotPermissions::create_bounties()),
        entry(GuildPermissionEntity::Role(77), BotPermissions::manage_bounties()),
        entry(GuildPermissionEntity::Role(GUILD), BotPermissions::bounty_hunter()),
        entry(GuildPermissionEntity::Role(88), BotPermissions::manage_guild_config()),
        entry(GuildPermissionEntity::User(6), BotPermissions::manage_guild_config()),
    ];
    let p = my_permissions(&entries, GUILD, 5, &vec![77]);
    assert_eq!(p.bits(), 1 | 2 | 8);
    let q = my_permissions(&entries, GUILD, 9, &vec![]);
    assert_eq!(q, BotPermissions::bounty_hunter());
}

#[test]
fn administrators_may_do_everything() {
    assert!(has_permissions(true, BotPermissions::empty(), BotPermissions::all()));
    assert!(!has_permissions(false, BotPermissions::bounty_hunter(), BotPermissions::manage_bounties()));
    assert!(has_permissions(false, BotPermissions::all(), BotPermissions::manage_bounties()));
    assert!(has_permissions(false, BotPermissions::empty(), BotPermissions::empty()));
}

#[test]
fn adding_and_removing_role_permissions() {
    let entries = vec![
        entry(GuildPermissionEntity::User(77), BotPermissions::all()),
        entry(GuildPermissionEntity::Role(77), BotPermissions::manage_bounties()),
    ];
    let added = permissions_after_add(&entries, 77, BotPermissions::bounty_hunter());
    assert_eq!(added.bits(), 2 | 8);
    let fresh = permissions_after_add(&entries, 5, BotPermissions::bounty_hunter());
    assert_eq!(fresh, BotPermissions::bounty_hunter());
    let removed = permissions_after_remove(&entries, 77, BotPermissions::manage_bounties());
    assert_eq!(removed, BotPermissions::empty());
    let none = permissions_after_remove(&entries, 5, BotPermissions::manage_bounties());
    assert_eq!(none, BotPermissions::empty());
}

#[test]
fn role_arguments() {
    assert_eq!(parse_role_id_or_mention("@everyone", GUILD), Some(GUILD));
    assert_eq!(parse_role_id_or_mention("everyone", GUILD), Some(GUILD));
    assert_eq!(parse_role_id_or_mention("<@&123>", GUILD), Some(123));
    assert_eq!(parse_role_id_or_mention("123", GUILD), Some(123));
    assert_eq!(parse_role_id_or_mention("+5", GUILD), Some(5));
    assert_eq!(parse_role_id_or_mention("<@&12", GUILD), None);
    assert_eq!(parse_role_id_or_mention("<@123>", GUILD), None);
    assert_eq!(parse_role_id_or_mention("18446744073709551616", GUILD), None);
    assert_eq!(parse_role_id_or_mention("18446744073709551615", GUILD), Some(u64::MAX));
    assert_eq!(parse_role_id_or_mention("-1", GUILD), None);
    assert_eq!(parse_role_id_or_mention("", GUILD), None);
}

#[test]
fn permission_command_arguments() {
    assert_eq!(
        parse_permission_args("<@&5> Bounty Hunter ", GUILD),
        Ok((5, BotPermissions::bounty_hunter()))
    );
    assert_eq!(parse_permission_args("everyone manage-bounties", GUILD), Ok((GUILD, BotPermissions::manage_bounties())));
    assert_eq!(parse_permission_args("nobody manage-bounties", GUILD), Err(PermissionArgsError::InvalidRole));
    assert_eq!(parse_permission_args("5 fly", GUILD), Err(PermissionArgsError::InvalidPermission));
    assert_eq!(parse_permission_args("5", GUILD), Err(PermissionArgsError::InvalidPermission));
}

#[test]
fn stored_permission_rows() {
    let row = |kind: &str| GuildPermissionsEntrySchema { guild_id: 3, kind: kind.to_owned(), entity_id: -1, allow: 0x13 };
    let u = GuildPermissionsEntry::try_from_schema(row("USER")).unwrap();
    assert_eq!(u.entity, GuildPermissionEntity::User(u64::MAX));
    assert_eq!(u.allow.bits(), 3);
    assert_eq!(u.guild_id, 3);
    let r = GuildPermissionsEntry::try_from_schema(row("Role")).unwrap();
    assert_eq!(r.entity, GuildPermissionEntity::Role(u64::MAX));
    match GuildPermissionsEntry::try_from_schema(row("team")) {
        Err(PermissionRowError::UnknownKind(k)) => assert_eq!(k, "team"),
        Ok(_) => panic!("unknown kind accepted"),
    }
}

#[test]
fn permission_listing() {
    assert_eq!(permission_list_text(&vec![]), "*none*");
    let entries = vec![
        entry(GuildPermissionEntity::Role(5), BotPermissions::manage_bounties()),
        entry(GuildPermissionEntity::User(6), BotPermissions::from_bits_truncate(9)),
    ];
    assert_eq!(
        permission_list_text(&entries),
        "<@&5> - MANAGE_BOUNTIES (2)\n<@6> - CREATE_BOUNTIES, BOUNTY_HUNTER (9)"
    );
}

#[test]
fn listed_names_are_read_back() {
    let listed = permissions_to_string(BotPermissions::all());
    let flags = [
        BotPermissions::create_bounties(),
        BotPermissions::manage_bounties(),
        BotPermissions::manage_guild_config(),
        BotPermissions::bounty_hunter(),
    ];
    let names: Vec<&str> = listed.split(", ").collect();
    assert_eq!(names.len(), 4);
    for (name, flag) in names.iter().zip(flags) {
        assert_eq!(parse_permission_str(name), Some(flag));
        assert_eq!(parse_permission_str(&name.to_lowercase()), Some(flag));
    }
}

#[test]
fn removing_a_permission_undoes_adding_it() {
    let before = vec![entry(GuildPermissionEntity::Role(77), BotPermissions::manage_bounties())];
    let added = permissions_after_add(&before, 77, BotPermissions::bounty_hunter());
    let after = vec![entry(GuildPermissionEntity::Role(77), added)];
    let removed = permissions_after_remove(&after, 77, BotPermissions::bounty_hunter());
    assert_eq!(removed, BotPermissions::manage_bounties());

    let added = permissions_after_add(&Vec::new(), 5, BotPermissions::create_bounties());
    let after = vec![entry(GuildPermissionEntity::Role(5), added)];
    assert_eq!(permissions_after_remove(&after, 5, BotPermissions::create_bounties()), BotPermissions::empty());
}
