use discord_async::rest::classify_status as classify;
use discord_async::rest::{create_message_body, guild_ban_body, interaction_response_body,
    ButtonComponent, RowComponent};
use discord_async::{ApiError, RestError, Snowflake};

#[test]
fn status_classification() {
    assert!(matches!(classify(400), RestError::BadRequest));
    assert!(matches!(classify(401), RestError::InvalidToken));
    assert!(matches!(classify(403), RestError::NotPermitted));
    assert!(matches!(classify(404), RestError::NotFound));
    assert!(matches!(classify(429), RestError::RateLimited));
    assert!(matches!(classify(502), RestError::GatewayUnavailable));
    assert!(matches!(classify(500), RestError::Response(500)));
}

#[test]
fn not_found_optional() {
    let ok: Result<u32, RestError> = Ok(5);
    assert_eq!(discord_async::rest::optional(ok).unwrap(), Some(5));
    let missing: Result<u32, RestError> = Err(RestError::NotFound);
    assert_eq!(discord_async::rest::optional(missing).unwrap(), None);
    let other: Result<u32, RestError> = Err(RestError::RateLimited);
    assert!(discord_async::rest::optional(other).is_err());
}

#[test]
fn api_error_fields() {
    let e = ApiError::new(50013, "Missing Permissions".to_string());
    assert_eq!(e.code(), 50013);
    assert_eq!(e.message(), "Missing Permissions");
}

#[test]
fn routes() {
    let c = Snowflake::new(12);
    let m = Snowflake::new(345);
    assert_eq!(
        discord_async::rest::message_route(c, m),
        "channels/12/messages/345"
    );
    assert_eq!(
        discord_async::rest::channel_messages_route(c),
        "channels/12/messages"
    );
    assert_eq!(
        discord_async::rest::member_role_route(Snowflake::new(1), Snowflake::new(2), Snowflake::new(3)),
        "guilds/1/members/2/roles/3"
    );
}

#[test]
fn url_encoding_changes_reserved_characters() {
    // The encoder must not hand its argument back unchanged.
    let encoded = discord_async::rest::url_encode("a b:c");
    assert_ne!(encoded, "a b:c");
    assert_eq!(encoded, "a%20b%3Ac");
}

#[test]
fn gateway_commands_for_rest_callers() {
    let c = discord_async::rest::request_guild_members_command(Snowflake::new(7));
    let text = discord_async::gateway::encode_text(&c);
    let v: serde_json::Value = serde_json::from_str(&text).unwrap();
    assert_eq!(v["op"], serde_json::Value::from(8));
    assert_eq!(v["d"]["guild_id"], serde_json::Value::from("7"));
    assert_eq!(v["d"]["limit"], serde_json::Value::from(0));
    assert_eq!(v["d"]["query"], serde_json::Value::from(""));

    let c = discord_async::rest::update_voice_state_command(Snowflake::new(7), None, false, false);
    let text = discord_async::gateway::encode_text(&c);
    let v: serde_json::Value = serde_json::from_str(&text).unwrap();
    assert_eq!(v["op"], serde_json::Value::from(4));
    assert_eq!(v["d"]["channel_id"], serde_json::Value::Null);
}

#[test]
fn reactions_route_encodes_the_emoji() {
    let route = discord_async::rest::reactions_route(
        Snowflake::new(1),
        Snowflake::new(2),
        "thumbsup",
        Some(Snowflake::new(9)),
        Some(200),
        Some(Snowflake::new(4)),
    );
    assert_eq!(
        route,
        "channels/1/messages/2/reactions/thumbsup%3A9?limit=100&after=4"
    );
    let route = discord_async::rest::reactions_route(
        Snowflake::new(1),
        Snowflake::new(2),
        "ok",
        None,
        None,
        None,
    );
    assert_eq!(route, "channels/1/messages/2/reactions/ok?limit=100");
}

#[test]
fn message_body_with_components() {
    let row = RowComponent::new()
        .button(ButtonComponent::primary("ok\"id".to_string()).label("Go".to_string()))
        .button(ButtonComponent::link("https://example.com".to_string()).disabled());
    let body = create_message_body(&Some("hi there".to_string()), &vec![row]);
    let v: serde_json::Value = serde_json::from_str(&body).unwrap();
    assert_eq!(v["content"], serde_json::Value::from("hi there"));
    assert_eq!(v["components"][0]["type"], serde_json::Value::from(1));
    let buttons = v["components"][0]["components"].as_array().unwrap();
    assert_eq!(buttons.len(), 2);
    assert_eq!(buttons[0]["style"], serde_json::Value::from(1));
    assert_eq!(buttons[0]["custom_id"], serde_json::Value::from("ok\"id"));
    assert_eq!(buttons[0]["label"], serde_json::Value::from("Go"));
    assert_eq!(buttons[1]["style"], serde_json::Value::from(5));
    assert_eq!(buttons[1]["url"], serde_json::Value::from("https://example.com"));
    assert_eq!(buttons[1]["disabled"], serde_json::Value::from(true));

    // Without text the body still carries its (empty) component list.
    let body = create_message_body(&None, &Vec::new());
    let v: serde_json::Value = serde_json::from_str(&body).unwrap();
    assert!(v.get("content").is_none());
    assert_eq!(v["components"].as_array().unwrap().len(), 0);
}

#[test]
fn guild_ban_and_interaction_bodies() {
    let body = guild_ban_body(Some(7), &Some("spam".to_string()));
    let v: serde_json::Value = serde_json::from_str(&body).unwrap();
    assert_eq!(v["delete_message_days"], serde_json::Value::from(7));
    assert_eq!(v["reason"], serde_json::Value::from("spam"));
    let body = guild_ban_body(None, &None);
    let v: serde_json::Value = serde_json::from_str(&body).unwrap();
    assert_eq!(v["delete_message_days"], serde_json::Value::Null);

    let body = interaction_response_body(4, &Some("pong".to_string()), true, &Vec::new());
    let v: serde_json::Value = serde_json::from_str(&body).unwrap();
    assert_eq!(v["type"], serde_json::Value::from(4));
    assert_eq!(v["data"]["content"], serde_json::Value::from("pong"));
    assert_eq!(v["data"]["flags"], serde_json::Value::from(64));
}

#[test]
fn url_builders() {
    assert_eq!(
        discord_async::gateway::gateway_url("gateway.example.com", 8),
        "wss://gateway.example.com/?v=8&encoding=json"
    );
    assert_eq!(
        discord_async::voice::control::voice_gateway_url("voice.example.com:443"),
        "wss://voice.example.com/?v=4"
    );
}

#[test]
fn discovery_peer_check() {
    assert!(discord_async::voice::discovery::same_peer(
        "203.0.113.7", 5000, "203.0.113.7", 5000
    ));
    assert!(!discord_async::voice::discovery::same_peer(
        "203.0.113.7", 5000, "203.0.113.8", 5000
    ));
    assert!(!discord_async::voice::discovery::same_peer(
        "203.0.113.7", 5000, "203.0.113.7", 5001
    ));
}
