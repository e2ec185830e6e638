use discord_async::protocol::event::{Event, InvalidSession};
use discord_async::{SequenceTracker, Supervisor, SupervisorStep};

#[test]
fn heartbeat_tracks_maximum_sequence() {
    let mut t = SequenceTracker::new();
    assert_eq!(t.heartbeat_payload(), 0);
    t.observe(Some(3));
    t.observe(None);
    t.observe(Some(7));
    t.observe(Some(5));
    assert_eq!(t.heartbeat_payload(), 7);
    let c = t.heartbeat_command();
    let text = discord_async::gateway::encode_text(&c);
    assert_eq!(text, "{\"op\":1,\"d\":7}");
}

#[test]
fn invalid_session_on_resume_forgets_session_id() {
    let mut s = Supervisor::new();
    assert!(s.connects_as_new());

    // A new session records the ready frame's session id.
    let ready = "{\"t\":\"READY\",\"s\":1,\"op\":0,\"d\":{\"v\":8,\"user\":{\"id\":\"1\",\"username\":\"u\",\"discriminator\":\"0\",\"avatar\":null},\"session_id\":\"abc\",\"guilds\":[]}}";
    let event = discord_async::gateway::decode_text(ready).unwrap().event;
    let (out, step) = s.after_handshake(true, event).unwrap();
    assert!(matches!(step, SupervisorStep::Run));
    assert_eq!(out.len(), 1);
    assert!(matches!(out[0], discord_async::Lifecycle::Online));
    assert!(!s.connects_as_new());
    assert_eq!(s.user_id, Some(discord_async::Snowflake::new(1)));

    // An invalid session during a resume clears the id before the next
    // connect attempt, which is therefore a new session.
    let (out, step) = s
        .after_handshake(false, Event::InvalidSession(InvalidSession { resumable: false }))
        .unwrap();
    assert!(matches!(step, SupervisorStep::Reconnect));
    assert_eq!(out.len(), 1);
    assert!(matches!(out[0], discord_async::Lifecycle::SessionInvalidated));
    assert!(s.connects_as_new());
    // The identity record is dropped with the session.
    assert!(s.user_id.is_none());
}

#[test]
fn resume_replays_the_first_event() {
    let mut s = Supervisor::new();
    let replayed = discord_async::gateway::decode_text(
        "{\"t\":\"GUILD_ROLE_DELETE\",\"s\":7,\"op\":0,\"d\":{\"guild_id\":\"5\",\"role_id\":\"9\"}}",
    )
    .unwrap()
    .event;
    let (out, step) = s.after_handshake(false, replayed).unwrap();
    assert!(matches!(step, SupervisorStep::Run));
    assert_eq!(out.len(), 2);
    assert!(matches!(out[0], discord_async::Lifecycle::Online));
    match &out[1] {
        discord_async::Lifecycle::Event(Event::GuildRoleDelete(rd)) => {
            assert_eq!(rd.role_id.value, 9);
        }
        _ => panic!("the replayed event must be forwarded verbatim"),
    }
}

#[test]
fn connection_error_policy() {
    let s = Supervisor::new();
    let (lifecycle, step, delay) = s.on_connection_error(false);
    assert!(lifecycle.is_some());
    assert!(matches!(step, SupervisorStep::Reconnect));
    assert_eq!(delay, 3000);
    let (lifecycle, step, _) = s.on_connection_error(true);
    assert!(lifecycle.is_none());
    assert!(matches!(step, SupervisorStep::Stop));
}
