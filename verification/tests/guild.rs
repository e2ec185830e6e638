use discord_async::guild::Guild;
use discord_async::protocol::event::Event;
use discord_async::{GuildRegistry, RouteDecision, Snowflake};

fn decode(text: &str) -> Event {
    discord_async::gateway::decode_text(text).unwrap().event
}

#[test]
fn registry_availability_tracks_flag() {
    let mut reg = GuildRegistry::new();

    // Seeding from the ready frame registers each guild once, unavailable.
    let ready = decode(
        "{\"t\":\"READY\",\"s\":1,\"op\":0,\"d\":{\"v\":8,\"user\":{\"id\":\"1\",\"username\":\"u\",\"discriminator\":\"0\",\"avatar\":null},\"session_id\":\"abc\",\"guilds\":[{\"id\":\"10\",\"unavailable\":true},{\"id\":\"10\",\"unavailable\":true},{\"id\":\"11\",\"unavailable\":true}]}}",
    );
    match reg.demux(&ready) {
        RouteDecision::CacheReady => {}
        _ => panic!("ready must seed the registry"),
    }
    assert!(reg.contains(10));
    assert!(reg.contains(11));
    assert!(!reg.entry(10).unwrap().available);

    // A guild create opens the mailbox and sets availability from the flag.
    let gc = decode(
        "{\"t\":\"GUILD_CREATE\",\"s\":2,\"op\":0,\"d\":{\"id\":\"10\",\"name\":\"g\",\"unavailable\":false}}",
    );
    match reg.demux(&gc) {
        RouteDecision::SeedGuild { guild_id, available } => {
            assert_eq!(guild_id, 10);
            assert!(available);
        }
        _ => panic!("first guild create must seed"),
    }
    assert!(reg.entry(10).unwrap().available);
    assert!(reg.entry(10).unwrap().mailbox_open);

    // A later create with the unavailable flag flips availability.
    let gc2 = decode(
        "{\"t\":\"GUILD_CREATE\",\"s\":3,\"op\":0,\"d\":{\"id\":\"10\",\"name\":\"g\",\"unavailable\":true}}",
    );
    match reg.demux(&gc2) {
        RouteDecision::AvailabilityEvent { guild_id, online } => {
            assert_eq!(guild_id, 10);
            assert!(!online);
        }
        _ => panic!("a flag flip must be announced"),
    }
    assert!(!reg.entry(10).unwrap().available);

    // Guild-scoped events route to open mailboxes and are dropped elsewhere.
    let rd = decode(
        "{\"t\":\"GUILD_ROLE_DELETE\",\"s\":4,\"op\":0,\"d\":{\"guild_id\":\"10\",\"role_id\":\"9\"}}",
    );
    match reg.demux(&rd) {
        RouteDecision::Forward { guild_id } => assert_eq!(guild_id, 10),
        _ => panic!("open mailbox must forward"),
    }
    let rd11 = decode(
        "{\"t\":\"GUILD_ROLE_DELETE\",\"s\":5,\"op\":0,\"d\":{\"guild_id\":\"11\",\"role_id\":\"9\"}}",
    );
    match reg.demux(&rd11) {
        RouteDecision::DropNoMailbox { guild_id } => assert_eq!(guild_id, 11),
        _ => panic!("an unopened mailbox must drop"),
    }
    reg.drop_mailbox(10);
    match reg.demux(&rd) {
        RouteDecision::DropNoMailbox { guild_id } => assert_eq!(guild_id, 10),
        _ => panic!("a closed mailbox must drop"),
    }
}

#[test]
fn role_delete_strips_members() {
    let mut guild = Guild::new(Snowflake::new(5), Snowflake::new(1));
    let gc = decode(
        "{\"t\":\"GUILD_CREATE\",\"s\":1,\"op\":0,\"d\":{\"id\":\"5\",\"name\":\"g\",\"unavailable\":false,\"member_count\":2,\"roles\":[{\"id\":\"9\",\"name\":\"r\",\"color\":0,\"hoist\":false,\"position\":1,\"permissions\":0,\"managed\":false,\"mentionable\":false}],\"members\":[{\"user\":{\"id\":\"2\",\"username\":\"a\",\"discriminator\":\"1\",\"avatar\":null},\"nick\":null,\"roles\":[\"9\"],\"joined_at\":\"t\",\"deaf\":false,\"mute\":false},{\"user\":{\"id\":\"3\",\"username\":\"b\",\"discriminator\":\"2\",\"avatar\":null},\"nick\":null,\"roles\":[\"9\",\"12\"],\"joined_at\":\"t\",\"deaf\":false,\"mute\":false}],\"channels\":[]}}",
    );
    match gc {
        Event::GuildCreate(g) => {
            let request = guild.update_from(&g);
            assert!(!request);
        }
        _ => panic!("expected a guild create"),
    }
    assert!(guild.role(9).is_some());
    assert!(guild
        .member(2)
        .unwrap()
        .roles
        .iter()
        .any(|r| r.value == 9));

    let rd = decode(
        "{\"t\":\"GUILD_ROLE_DELETE\",\"s\":2,\"op\":0,\"d\":{\"guild_id\":\"5\",\"role_id\":\"9\"}}",
    );
    let out = guild.apply(&rd);
    assert!(out.forward);

    // No member retains the deleted role id afterwards.
    assert!(guild.role(9).is_none());
    assert!(!guild.member(2).unwrap().roles.iter().any(|r| r.value == 9));
    assert!(!guild.member(3).unwrap().roles.iter().any(|r| r.value == 9));
    // Other roles are untouched.
    assert!(guild.member(3).unwrap().roles.iter().any(|r| r.value == 12));
}

#[test]
fn member_update_diff() {
    let mut guild = Guild::new(Snowflake::new(5), Snowflake::new(1));
    let gc = decode(
        "{\"t\":\"GUILD_CREATE\",\"s\":1,\"op\":0,\"d\":{\"id\":\"5\",\"name\":\"g\",\"unavailable\":false,\"members\":[{\"user\":{\"id\":\"2\",\"username\":\"a\",\"discriminator\":\"1\",\"avatar\":null},\"nick\":null,\"roles\":[\"9\"],\"joined_at\":\"t\",\"deaf\":false,\"mute\":false}]}}",
    );
    match gc {
        Event::GuildCreate(g) => {
            guild.update_from(&g);
        }
        _ => panic!("expected a guild create"),
    }
    let mu = decode(
        "{\"t\":\"GUILD_MEMBER_UPDATE\",\"s\":2,\"op\":0,\"d\":{\"guild_id\":\"5\",\"roles\":[\"9\",\"13\"],\"user\":{\"id\":\"2\",\"username\":\"a2\",\"discriminator\":\"1\",\"avatar\":null},\"nick\":\"nn\"}}",
    );
    let out = guild.apply(&mu);
    let diff = out.member_diff.expect("a held member must be diffed");
    assert_eq!(diff.user_id, 2);
    assert_eq!(diff.nickname, Some(Some("nn".to_string())));
    assert_eq!(
        diff.username,
        Some(("a".to_string(), "a2".to_string()))
    );
    assert!(diff.discriminator.is_none());
    assert_eq!(
        diff.role_change,
        Some(discord_async::guild::RoleDiff::Added(13))
    );
    // The map now holds the updated member.
    let m = guild.member(2).unwrap();
    assert_eq!(m.nick.as_deref(), Some("nn"));
    assert!(m.roles.iter().any(|r| r.value == 13));
}

#[test]
fn message_pass_through_policy() {
    let mut guild = Guild::new(Snowflake::new(5), Snowflake::new(1));
    let mc = decode(
        "{\"t\":\"MESSAGE_CREATE\",\"s\":1,\"op\":0,\"d\":{\"id\":\"1\",\"channel_id\":\"2\",\"author\":{\"id\":\"3\",\"username\":\"u\",\"discriminator\":\"0\",\"avatar\":null},\"content\":\"hi\",\"timestamp\":\"t\",\"edited_timestamp\":null,\"tts\":false,\"mention_everyone\":false,\"mentions\":[],\"pinned\":false,\"type\":0}}",
    );
    assert!(guild.apply(&mc).forward);
    let webhook = decode(
        "{\"t\":\"MESSAGE_CREATE\",\"s\":2,\"op\":0,\"d\":{\"id\":\"1\",\"channel_id\":\"2\",\"author\":{\"id\":\"3\",\"username\":\"u\",\"discriminator\":\"0\",\"avatar\":null},\"content\":\"hi\",\"timestamp\":\"t\",\"edited_timestamp\":null,\"tts\":false,\"mention_everyone\":false,\"mentions\":[],\"pinned\":false,\"webhook_id\":\"4\",\"type\":0}}",
    );
    assert!(!guild.apply(&webhook).forward);
    let joined = decode(
        "{\"t\":\"MESSAGE_CREATE\",\"s\":3,\"op\":0,\"d\":{\"id\":\"1\",\"channel_id\":\"2\",\"author\":{\"id\":\"3\",\"username\":\"u\",\"discriminator\":\"0\",\"avatar\":null},\"content\":\"\",\"timestamp\":\"t\",\"edited_timestamp\":null,\"tts\":false,\"mention_everyone\":false,\"mentions\":[],\"pinned\":false,\"type\":7}}",
    );
    assert!(!guild.apply(&joined).forward);
}

#[test]
fn member_count_hint_requests_members() {
    let mut guild = Guild::new(Snowflake::new(5), Snowflake::new(1));
    let gc = decode(
        "{\"t\":\"GUILD_CREATE\",\"s\":1,\"op\":0,\"d\":{\"id\":\"5\",\"name\":\"g\",\"unavailable\":false,\"member_count\":3,\"members\":[{\"user\":{\"id\":\"2\",\"username\":\"a\",\"discriminator\":\"1\",\"avatar\":null},\"nick\":null,\"roles\":[],\"joined_at\":\"t\",\"deaf\":false,\"mute\":false}]}}",
    );
    match gc {
        Event::GuildCreate(g) => {
            assert!(guild.update_from(&g));
        }
        _ => panic!("expected a guild create"),
    }
    assert_eq!(guild.member_count(), 3);
}

#[test]
fn application_commands_keyed_by_name() {
    let mut guild = Guild::new(Snowflake::new(5), Snowflake::new(1));
    let cc = decode(
        "{\"t\":\"APPLICATION_COMMAND_CREATE\",\"s\":1,\"op\":0,\"d\":{\"id\":\"7\",\"guild_id\":\"5\",\"name\":\"play\",\"description\":\"play a song\"}}",
    );
    guild.apply(&cc);
    assert_eq!(guild.command("play").unwrap().id.value, 7);
    assert!(guild.command("stop").is_none());

    // An update with the same name replaces the record.
    let cu = decode(
        "{\"t\":\"APPLICATION_COMMAND_UPDATE\",\"s\":2,\"op\":0,\"d\":{\"id\":\"8\",\"guild_id\":\"5\",\"name\":\"play\",\"description\":\"play another\"}}",
    );
    guild.apply(&cu);
    assert_eq!(guild.command("play").unwrap().id.value, 8);
    assert_eq!(guild.commands.len(), 1);

    // A delete keyed by name empties the map.
    let cd = decode(
        "{\"t\":\"APPLICATION_COMMAND_DELETE\",\"s\":3,\"op\":0,\"d\":{\"id\":\"8\",\"guild_id\":\"5\",\"name\":\"play\"}}",
    );
    guild.apply(&cd);
    assert!(guild.command("play").is_none());
    assert_eq!(guild.commands.len(), 0);
}

#[test]
fn set_commands_replaces_wholesale() {
    let mut guild = Guild::new(Snowflake::new(5), Snowflake::new(1));
    let cmds = vec![discord_async::protocol::records::ApplicationCommand {
        id: Snowflake::new(1),
        application_id: None,
        guild_id: Some(Snowflake::new(5)),
        name: "ping".to_string(),
        description: None,
    }];
    guild.set_commands(cmds);
    assert_eq!(guild.command("ping").unwrap().id.value, 1);
}
