use discord_async::voice::control::{after_voice_handshake, endpoint_host, voice_handshake_command,
    ControlAction, Credentials, VoiceCommand, VoiceControl, VoiceEvent, VoiceHeartbeat};
use discord_async::voice::pacer::check_encoded_frame;
use discord_async::voice::discovery::{build_discovery_request, parse_discovery_reply};
use discord_async::voice::pacer::{PacedFrame, Pacer};
use discord_async::voice::packet::Packetizer;
use discord_async::voice::pcm::{frame_sample_size, PcmCodec};

fn decode_voice(text: &str) -> VoiceEvent {
    let v: serde_json::Value = serde_json::from_str(text).unwrap();
    discord_async::voice::control::decode_voice_event(&v).unwrap()
}

#[test]
fn discovery_request_shape() {
    let p = build_discovery_request(0x01020304);
    assert_eq!(p.len(), 74);
    assert_eq!(&p[0..4], &[0, 1, 0, 70]);
    assert_eq!(&p[4..8], &[1, 2, 3, 4]);
    assert!(p[8..].iter().all(|&b| b == 0));
}

#[test]
fn discovery_reply_parse() {
    let mut reply = vec![0u8; 74];
    reply[0] = 0;
    reply[1] = 2;
    let ip = b"203.0.113.7";
    reply[8..8 + ip.len()].copy_from_slice(ip);
    reply[72] = 0x1f;
    reply[73] = 0x90;
    let (addr, port) = parse_discovery_reply(&reply).unwrap();
    assert_eq!(addr, "203.0.113.7");
    assert_eq!(port, 8080);
    assert_eq!(format!("{}:{}", addr, port), "203.0.113.7:8080");

    // A reply of the wrong type is rejected.
    reply[1] = 1;
    assert!(parse_discovery_reply(&reply).is_none());
    // A short reply is rejected.
    assert!(parse_discovery_reply(&vec![0u8, 2u8]).is_none());
}

#[test]
fn packet_counters_and_nonce() {
    let key = vec![7u8; 32];
    let mut p = Packetizer::new(0xAABBCCDD);
    let header = p.header();
    assert_eq!(
        header,
        vec![0x80, 0x78, 0, 0, 0, 0, 0, 0, 0xAA, 0xBB, 0xCC, 0xDD]
    );
    // The nonce of packet n is the header of packet n plus twelve zeros.
    let nonce = p.nonce();
    assert_eq!(nonce.len(), 24);
    assert_eq!(&nonce[..12], &header[..]);
    assert!(nonce[12..].iter().all(|&b| b == 0));

    let frame = vec![1u8, 2, 3];
    let packet = p.next_packet(&key, &frame).unwrap();
    // Header, then the sealed frame: 12 + 3 + 16 bytes.
    assert_eq!(packet.len(), 12 + 3 + 16);
    assert_eq!(&packet[..12], &header[..]);
    // The ciphertext is not the plaintext handed back.
    assert_ne!(&packet[12..15], &frame[..]);

    // Counters advance by 1 and 960 per frame.
    assert_eq!(p.sequence, 1);
    assert_eq!(p.timestamp, 960);
    let _ = p.next_packet(&key, &frame).unwrap();
    assert_eq!(p.sequence, 2);
    assert_eq!(p.timestamp, 1920);

    // The sequence wraps at 2^16, the timestamp at 2^32.
    let mut q = Packetizer::new(1);
    q.sequence = 0xffff;
    q.timestamp = 0xffffff00;
    let _ = q.next_packet(&key, &frame).unwrap();
    assert_eq!(q.sequence, 0);
    assert_eq!(q.timestamp, (0xffffff00u64 + 960 - 0x100000000u64) as u32);
}

#[test]
fn encryption_differs_per_nonce() {
    let key = vec![9u8; 32];
    let frame = vec![5u8; 8];
    let mut p = Packetizer::new(1);
    let first = p.next_packet(&key, &frame).unwrap();
    let second = p.next_packet(&key, &frame).unwrap();
    // Same plaintext, different nonce: different ciphertext.
    assert_ne!(&first[12..], &second[12..]);
}

#[test]
fn ready_without_supported_mode_rejects() {
    let mut c = VoiceControl::new();
    let ready = decode_voice(
        "{\"op\":2,\"d\":{\"ssrc\":3,\"ip\":\"10.0.0.1\",\"port\":4000,\"modes\":[\"aead_aes256_gcm\"]}}",
    );
    match c.on_event(ready) {
        ControlAction::RejectModes => {}
        _ => panic!("a ready frame without the supported mode must be rejected"),
    }

    let mut c2 = VoiceControl::new();
    let ready2 = decode_voice(
        "{\"op\":2,\"d\":{\"ssrc\":3,\"ip\":\"10.0.0.1\",\"port\":4000,\"modes\":[\"plain\",\"xsalsa20_poly1305\"]}}",
    );
    match c2.on_event(ready2) {
        ControlAction::OpenTransport { ip, port, ssrc } => {
            assert_eq!(ip, "10.0.0.1");
            assert_eq!(port, 4000);
            assert_eq!(ssrc, 3);
        }
        _ => panic!("a supported mode must open the transport"),
    }

    // Address discovery then selects the protocol and announces speaking.
    let (select, speak) = c2
        .on_address_discovered("203.0.113.7".to_string(), 8080)
        .unwrap();
    match select {
        VoiceCommand::SelectProtocol { address, port } => {
            assert_eq!(address, "203.0.113.7");
            assert_eq!(port, 8080);
        }
        _ => panic!("expected a protocol selection"),
    }
    let text = discord_async::voice::control::encode_voice_command(&speak);
    let v: serde_json::Value = serde_json::from_str(&text).unwrap();
    assert_eq!(v["op"], serde_json::Value::from(5));
    assert_eq!(v["d"]["speaking"], serde_json::Value::from(1));
    assert_eq!(v["d"]["ssrc"], serde_json::Value::from(3));
    // Selected once only.
    assert!(c2
        .on_address_discovered("203.0.113.7".to_string(), 8080)
        .is_none());
}

#[test]
fn session_description_key_delivery() {
    let mut c = VoiceControl::new();
    let mut key_text = String::from("{\"op\":4,\"d\":{\"mode\":\"xsalsa20_poly1305\",\"secret_key\":[");
    for i in 0..32 {
        if i > 0 {
            key_text.push(',');
        }
        key_text.push_str(&format!("{}", i));
    }
    key_text.push_str("]}}");
    match c.on_event(decode_voice(&key_text)) {
        ControlAction::DeliverKey(k) => {
            assert_eq!(k.len(), 32);
            assert_eq!(k[5], 5);
        }
        _ => panic!("the key must be delivered"),
    }
    let mut wrong_text =
        String::from("{\"op\":4,\"d\":{\"mode\":\"aead_aes256_gcm\",\"secret_key\":[");
    for i in 0..32 {
        if i > 0 {
            wrong_text.push(',');
        }
        wrong_text.push_str(&format!("{}", i));
    }
    wrong_text.push_str("]}}");
    match c.on_event(decode_voice(&wrong_text)) {
        ControlAction::RejectDescription => {}
        _ => panic!("a mismatched mode must be rejected"),
    }

    // A key of any other length is rejected at decode time.
    let short = "{\"op\":4,\"d\":{\"mode\":\"xsalsa20_poly1305\",\"secret_key\":[1,2]}}";
    let v: serde_json::Value = serde_json::from_str(short).unwrap();
    assert!(discord_async::voice::control::decode_voice_event(&v).is_err());
}

#[test]
fn voice_command_encodings() {
    let hb = VoiceCommand::Heartbeat { count: 3 };
    assert_eq!(
        discord_async::voice::control::encode_voice_command(&hb),
        "{\"op\":3,\"d\":3}"
    );
    let id = VoiceCommand::Identify {
        server_id: discord_async::Snowflake::new(41771983423143937),
        user_id: discord_async::Snowflake::new(104694319306248192),
        session_id: "sess".to_string(),
        token: "tok".to_string(),
    };
    let v: serde_json::Value =
        serde_json::from_str(&discord_async::voice::control::encode_voice_command(&id)).unwrap();
    assert_eq!(v["op"], serde_json::Value::from(0));
    assert_eq!(v["d"]["server_id"], serde_json::Value::from("41771983423143937"));
    assert_eq!(v["d"]["user_id"], serde_json::Value::from("104694319306248192"));
}

#[test]
fn pacer_cadence() {
    // A pacer started at t yields silence first and owes the k-th frame no
    // earlier than t + (k-1) periods.
    let start: u64 = 1_000_000;
    let mut p = Pacer::new(start);
    assert_eq!(p.deadline_us, start);
    let mut produced = 0u64;
    let mut now = start;
    for _ in 0..7 {
        let kind = p.tick(now);
        if produced < 5 {
            assert!(matches!(kind, PacedFrame::Silence));
        } else {
            assert!(matches!(kind, PacedFrame::Encoded));
        }
        produced += 1;
        // Each frame k was produced at a time no earlier than
        // start + (k-1) * 20 ms.
        assert!(now >= start + (produced - 1) * 20000);
        now = p.deadline_us;
    }
    // Overrun: a late tick clamps the deadline to now.
    let mut q = Pacer::new(0);
    let _ = q.tick(100_000);
    assert_eq!(q.deadline_us, 100_000);
}

#[test]
fn frame_sizes() {
    assert_eq!(frame_sample_size(false), 960);
    assert_eq!(frame_sample_size(true), 1920);
    assert_eq!(discord_async::voice::pacer::frame_size_bytes(96_000), 240);
    assert_eq!(discord_async::voice::pacer::frame_size_bytes(1), 15);
    assert_eq!(discord_async::voice::pacer::frame_size_bytes(4_000_000), 1275);
    let silence = discord_async::voice::pacer::silence_frame();
    assert_eq!(silence, vec![0xf8, 0xff, 0xfe]);
}

#[test]
fn stream() {
    // Framing 20 ms of stereo PCM: each frame is 2 * 1920 bytes.
    let codec = PcmCodec::new(frame_sample_size(true));
    let mut buf = vec![0u8; 2 * 1920 + 10];
    let frame = codec.decode(&mut buf).unwrap();
    assert_eq!(frame.len(), 2 * 1920);
    assert_eq!(buf.len(), 10);
    assert!(codec.decode(&mut buf).is_none());
}

#[test]
fn voice_handshake_steps() {
    assert_eq!(endpoint_host("voice.example.com:443"), "voice.example.com");
    assert_eq!(endpoint_host("voice.example.com:8443"), "voice.example.com:8443");
    assert_eq!(endpoint_host("bare"), "bare");

    let cred = Credentials {
        guild_id: discord_async::Snowflake::new(41771983423143937),
        user_id: discord_async::Snowflake::new(104694319306248192),
        session_id: "sess".to_string(),
        token: "tok".to_string(),
        endpoint: "voice.example.com:443".to_string(),
    };
    let cmd = voice_handshake_command(&cred, false);
    let v: serde_json::Value =
        serde_json::from_str(&discord_async::voice::control::encode_voice_command(&cmd)).unwrap();
    assert_eq!(v["op"], serde_json::Value::from(0));
    assert_eq!(v["d"]["session_id"], serde_json::Value::from("sess"));
    let cmd = voice_handshake_command(&cred, true);
    let v: serde_json::Value =
        serde_json::from_str(&discord_async::voice::control::encode_voice_command(&cmd)).unwrap();
    assert_eq!(v["op"], serde_json::Value::from(7));

    // A resume expects the resumed frame; anything else is the wrong event.
    assert!(matches!(
        after_voice_handshake(true, decode_voice("{\"op\":9,\"d\":null}")),
        Ok(None)
    ));
    assert!(after_voice_handshake(true, decode_voice("{\"op\":6,\"d\":null}")).is_err());
    // A new session expects the ready frame and hands it back.
    let ready = decode_voice(
        "{\"op\":2,\"d\":{\"ssrc\":3,\"ip\":\"10.0.0.1\",\"port\":4000,\"modes\":[\"xsalsa20_poly1305\"]}}",
    );
    match after_voice_handshake(false, ready) {
        Ok(Some(r)) => assert_eq!(r.ssrc, 3),
        _ => panic!("the ready frame must be handed back"),
    }
    assert!(after_voice_handshake(false, decode_voice("{\"op\":9,\"d\":null}")).is_err());

    // The heartbeat counter increments with each send.
    let mut hb = VoiceHeartbeat::new();
    let first = discord_async::voice::control::encode_voice_command(&hb.next());
    let second = discord_async::voice::control::encode_voice_command(&hb.next());
    assert_eq!(first, "{\"op\":3,\"d\":1}");
    assert_eq!(second, "{\"op\":3,\"d\":2}");
}

#[test]
fn encoder_output_size_check() {
    // At 96000 bits per second a frame is exactly 240 bytes.
    assert!(check_encoded_frame(&vec![0u8; 240], 96_000).is_ok());
    match check_encoded_frame(&vec![0u8; 239], 96_000) {
        Err(discord_async::voice::EncodeError::FrameSize) => {}
        _ => panic!("a frame of the wrong size must be an error"),
    }
}
