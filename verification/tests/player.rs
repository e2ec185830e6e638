use discord_async::voice::player::{Player, PlayerControl, PlayerEvent, PlayerUpdate};
use discord_async::Snowflake;

#[test]
fn connect_flow_gathers_credentials() {
    let mut p = Player::new(Snowflake::new(5), Snowflake::new(1));
    let out = p.on_control(PlayerControl::Connect { channel_id: Snowflake::new(42) });
    assert_eq!(out.voice_state, Some(Some(Snowflake::new(42))));
    assert!(out.start_timeout);
    assert!(p.state.is_connecting());

    // The state update for this user supplies the session id and channel.
    let out = p.on_update(PlayerUpdate::StateUpdate {
        user_id: Snowflake::new(1),
        guild_id: Some(Snowflake::new(5)),
        channel_id: Some(Snowflake::new(42)),
        session_id: "vsess".to_string(),
    });
    assert!(out.connect.is_none());

    // A state update about someone else changes nothing.
    let out = p.on_update(PlayerUpdate::StateUpdate {
        user_id: Snowflake::new(9),
        guild_id: Some(Snowflake::new(5)),
        channel_id: None,
        session_id: "other".to_string(),
    });
    assert!(out.connect.is_none());
    assert_eq!(p.session_id.as_deref(), Some("vsess"));

    // The server update completes the credentials and asks for a plane.
    let out = p.on_update(PlayerUpdate::ServerUpdate {
        token: "vtok".to_string(),
        endpoint: Some("voice.example:443".to_string()),
    });
    let cred = out.connect.expect("credentials must be complete");
    assert_eq!(cred.session_id, "vsess");
    assert_eq!(cred.token, "vtok");
    assert_eq!(cred.endpoint, "voice.example:443");
    assert_eq!(cred.guild_id.value, 5);
    assert_eq!(cred.user_id.value, 1);

    // The transport coming up announces the connection.
    let ev = p.on_transport_ready();
    assert_eq!(ev, Some(PlayerEvent::Connected { channel_id: 42 }));

    // Connecting again to the same channel just re-announces it.
    let out = p.on_control(PlayerControl::Connect { channel_id: Snowflake::new(42) });
    assert_eq!(out.events, vec![PlayerEvent::Connected { channel_id: 42 }]);
    assert!(out.voice_state.is_none());
}

#[test]
fn null_endpoint_disconnects() {
    let mut p = Player::new(Snowflake::new(5), Snowflake::new(1));
    let _ = p.on_control(PlayerControl::Connect { channel_id: Snowflake::new(42) });
    p.on_transport_ready();
    assert!(p.state.is_connected());
    let out = p.on_update(PlayerUpdate::ServerUpdate { token: "t".to_string(), endpoint: None });
    assert!(p.state.is_shutdown() == false);
    assert!(!p.state.is_connected());
    assert_eq!(out.voice_state, Some(None));
}

#[test]
fn shutdown_leaves_channel() {
    let mut p = Player::new(Snowflake::new(5), Snowflake::new(1));
    let out = p.on_control(PlayerControl::Shutdown);
    assert!(p.state.is_shutdown());
    assert_eq!(out.voice_state, Some(None));
}

#[test]
fn connect_timeout_reports_error() {
    let mut p = Player::new(Snowflake::new(5), Snowflake::new(1));
    let _ = p.on_control(PlayerControl::Connect { channel_id: Snowflake::new(42) });
    let out = p.on_connect_timeout();
    assert_eq!(out.events.last(), Some(&PlayerEvent::ConnectError));
    assert_eq!(out.voice_state, Some(None));
    assert!(!p.state.is_connecting());
}

#[test]
fn play_only_while_connected() {
    let mut p = Player::new(Snowflake::new(5), Snowflake::new(1));
    let out = p.on_control(PlayerControl::Play);
    assert_eq!(out.events, vec![PlayerEvent::Stopped]);
    p.on_transport_ready();
    let out = p.on_control(PlayerControl::Play);
    assert_eq!(out.events, vec![PlayerEvent::Playing]);
    assert_eq!(p.on_stream_end(), PlayerEvent::Finished);
}
