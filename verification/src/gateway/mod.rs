//! The gateway plane: outbound commands, the frame codec, and the errors a
//! connection can raise.

use vstd::prelude::*;

pub mod command;

pub use command::{Command, Heartbeat, Identify, Resume};

use crate::json::{parse_json, parsed_json, Jv};
use crate::protocol::event::{decode_payload, payload_of, Payload, PayloadV};
use crate::protocol::{perr_view, PErr, ProtocolError};

verus! {

/// The connection properties sent at identify time.
pub struct Properties {
    pub os: String,
    pub browser: String,
    pub device: String,
}

impl Properties {
    pub fn new(os: String, browser: String, device: String) -> (r: Properties)
        ensures
            r.os == os,
            r.browser == browser,
            r.device == device,
    {
        Properties { os, browser, device }
    }
}

/// The close frame carried by an orderly connection close.
#[derive(Debug)]
pub struct CloseFrame {
    pub code: u16,
    pub reason: String,
}

/// A gateway failure.
#[derive(Debug)]
pub enum Error {
    /// Graceful teardown was requested.
    Shutdown,
    /// The transport itself failed.
    Ws,
    /// A handshake step read an event of the wrong kind.
    UnexpectedEvent,
    /// The connect handshake took too long.
    Timeout,
    /// The peer closed the connection.
    Close(Option<CloseFrame>),
    /// A binary frame arrived where text was expected.
    Decode,
    /// The frame text was not valid JSON.
    Serde,
    /// The frame was valid JSON but not a valid envelope.
    Protocol(ProtocolError),
}

impl Error {
    pub fn is_shutdown(&self) -> (r: bool)
        ensures
            r == (*self is Shutdown),
    {
        match self {
            Error::Shutdown => true,
            _ => false,
        }
    }
}

/// What decoding a frame text must yield: the payload denoted by the text's
/// JSON tree, or the error that pins why there is none.
pub open spec fn decode_text_spec(s: Seq<char>, r: Result<Payload, Error>) -> bool {
    match parsed_json(s) {
        None => r matches Err(e) && e is Serde,
        Some(j) => match payload_of(j) {
            Ok(pv) => r matches Ok(p) && p@ == pv,
            Err(ev) => r matches Err(e) && e matches Error::Protocol(pe) && perr_view(pe) == ev,
        },
    }
}

/// Decodes one text frame: parses the JSON and decodes the envelope.
pub fn decode_text(s: &str) -> (r: Result<Payload, Error>)
    ensures
        decode_text_spec(s@, r),
{
    let v = match parse_json(s) {
        Some(v) => v,
        None => {
            return Err(Error::Serde);
        },
    };
    match decode_payload(&v) {
        Ok(p) => Ok(p),
        Err(e) => Err(Error::Protocol(e)),
    }
}

/// The gateway URL for a host and protocol version.
pub open spec fn spec_gateway_url(host: Seq<char>, version: u64) -> Seq<char> {
    "wss://"@ + host + "/?v="@ + crate::text::spec_digits(version) + "&encoding=json"@
}

/// Builds the gateway URL to dial.
pub fn gateway_url(host: &str, version: u64) -> (r: String)
    ensures
        r@ == spec_gateway_url(host@, version),
{
    let mut out: Vec<char> = Vec::new();
    crate::text::push_str_chars(&mut out, "wss://");
    proof {
        crate::text::seq_cat_empty_left("wss://"@);
    }
    crate::text::push_str_chars(&mut out, host);
    crate::text::push_str_chars(&mut out, "/?v=");
    crate::text::push_digits(&mut out, version);
    crate::text::push_str_chars(&mut out, "&encoding=json");
    crate::text::chars_to_string(&out)
}

/// Encodes one command as the text frame to send.
pub fn encode_text(c: &Command) -> (r: String)
    ensures
        r@ == command::render_command(*c),
{
    command::encode_command(c)
}

} // verus!
