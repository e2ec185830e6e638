use discord_async::gateway::command::{Command, Heartbeat};
use discord_async::gateway::{decode_text, encode_text, Error};
use discord_async::protocol::event::Event;
use discord_async::{Intents, Snowflake};
use serde_json::Value;
use std::str::FromStr;

#[test]
fn encode() {
    let command = Command::Heartbeat(Heartbeat { sequence: 42 });
    let message = encode_text(&command);
    let value = Value::from_str(&message).unwrap();
    assert_eq!(value, Value::from_str("{\"op\": 1, \"d\": 42}").unwrap());
}

#[test]
fn json_encode() {
    let command = Command::heartbeat(42);
    let message = encode_text(&command);
    let value = Value::from_str(&message).unwrap();
    assert_eq!(value, Value::from_str("{\"op\": 1, \"d\": 42}").unwrap());
}

#[test]
fn encode_intent() {
    let intent = Intents::guild_all();
    let value = serde_json::to_value(intent.bits).unwrap();
    assert_eq!(value, Value::from_str("4095").unwrap());
}

#[test]
fn json_encode_intent() {
    let intent = Intents::guild_all();
    assert_eq!(intent.bits, 4095);
    let rendered = format!("{}", intent.bits);
    assert_eq!(rendered, "4095");
}

#[test]
fn decode() {
    // Hello
    let message = "{\"t\":null,\"s\":null,\"op\":10,\"d\":{\"heartbeat_interval\":123456}}";
    let event = decode_text(message).unwrap().event;
    let hello = event.expect_hello().unwrap();
    assert_eq!(hello.heartbeat_interval, 123456);

    let message = "{\"op\": 99, \"d\": {\"heartbeat_interval\": 123456}}";
    let event = decode_text(message).unwrap().event;
    assert_eq!(&event.expect_unknown().unwrap(), "99");

    // Ready
    let message = "{\"t\":\"READY\",\"s\":1,\"op\":0,\"d\":{\"v\":6,\"user_settings\":{},\"user\":{\"verified\":true,\"username\":\"test\",\"mfa_enabled\":true,\"id\":\"292738120426342368\",\"flags\":0,\"email\":null,\"discriminator\":\"6948\",\"bot\":true,\"avatar\":null},\"session_id\":\"65063c9e155c35f380380e4c0251b1f1\",\"relationships\":[],\"private_channels\":[],\"presences\":[],\"guilds\":[{\"unavailable\":true,\"id\":\"191300962226790300\"}],\"application\":{\"id\":\"292738137426362368\",\"flags\":40960}}}";
    let payload = decode_text(message).unwrap();
    assert_eq!(payload.sequence, Some(1));
    let ready = payload.event.expect_ready().unwrap();
    assert_eq!(ready.user.username, "test");
    assert_eq!(ready.guilds.len(), 1);
    assert!(ready.guilds.contains(Snowflake::new(191_300_962_226_790_300)));
}

#[test]
fn decode_identify_round_trip_fields() {
    // A command rendered by the encoder parses back to the same JSON shape.
    let identify = discord_async::gateway::command::Identify::new(
        "tok\"en\\x".to_string(),
        discord_async::gateway::Properties::new(
            "linux".to_string(),
            "discord-async".to_string(),
            "discord-async".to_string(),
        ),
    );
    let text = encode_text(&Command::Identify(identify));
    let v: Value = serde_json::from_str(&text).unwrap();
    assert_eq!(v["op"], Value::from(2));
    assert_eq!(v["d"]["token"], Value::from("tok\"en\\x"));
    assert_eq!(v["d"]["properties"]["$os"], Value::from("linux"));
    // The constructor's own default: the guild group without webhooks and
    // typing notifications.
    assert_eq!(v["d"]["intents"], Value::from(2015u64));
}

#[test]
fn decode_resume_encode() {
    let resume = discord_async::gateway::command::Resume::new(
        "token".to_string(),
        "sess".to_string(),
        77,
    );
    let text = encode_text(&Command::Resume(resume));
    let v: Value = serde_json::from_str(&text).unwrap();
    assert_eq!(v["op"], Value::from(6));
    assert_eq!(v["d"]["session_id"], Value::from("sess"));
    assert_eq!(v["d"]["seq"], Value::from(77));
}

#[test]
fn decode_guild_events() {
    let message = "{\"t\":\"GUILD_ROLE_DELETE\",\"s\":7,\"op\":0,\"d\":{\"guild_id\":\"5\",\"role_id\":\"9\"}}";
    let payload = decode_text(message).unwrap();
    match payload.event {
        Event::GuildRoleDelete(rd) => {
            assert_eq!(rd.guild_id.value, 5);
            assert_eq!(rd.role_id.value, 9);
        }
        e => panic!("unexpected event {:?}", e.is_heartbeat_ack()),
    }

    let message = "{\"t\":\"VOICE_SERVER_UPDATE\",\"s\":8,\"op\":0,\"d\":{\"token\":\"tk\",\"guild_id\":7,\"endpoint\":null}}";
    let payload = decode_text(message).unwrap();
    match payload.event {
        Event::VoiceServerUpdate(u) => {
            assert_eq!(u.token, "tk");
            assert_eq!(u.guild_id.value, 7);
            assert!(u.endpoint.is_none());
        }
        _ => panic!("unexpected event"),
    }
}

#[test]
fn decode_rejects_bad_envelope() {
    // not JSON at all
    match decode_text("{nope") {
        Err(Error::Serde) => {}
        _ => panic!("expected a parse failure"),
    }
    // JSON without an opcode
    match decode_text("{\"d\": 1}") {
        Err(Error::Protocol(_)) => {}
        _ => panic!("expected an envelope failure"),
    }
    // opcode without a body
    match decode_text("{\"op\": 10}") {
        Err(Error::Protocol(_)) => {}
        _ => panic!("expected an envelope failure"),
    }
    // a sequence field of the wrong shape
    match decode_text("{\"op\": 11, \"s\": \"x\", \"d\": null}") {
        Err(Error::Protocol(discord_async::ProtocolError::InvalidField(f))) => {
            assert_eq!(f, "s");
        }
        _ => panic!("expected an invalid sequence field"),
    }
    // a missing required field inside the body
    match decode_text("{\"op\": 10, \"d\": {}}") {
        Err(Error::Protocol(discord_async::ProtocolError::MissingField(f))) => {
            assert_eq!(f, "heartbeat_interval");
        }
        _ => panic!("expected a missing field"),
    }
}
