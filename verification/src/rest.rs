//! The REST collaborator surface: error classification, request routes, and
//! the gateway commands issued on behalf of REST callers.

use vstd::prelude::*;

use crate::gateway::command::{Command, RequestGuildMembers, UpdateVoiceState};
use crate::snowflake::Snowflake;
use crate::text::{chars_to_string, jstr, push_digits, push_json_string, push_str_chars,
    seq_cat_assoc, seq_cat_empty_left, seq_cat_empty_right, spec_digits};

verus! {

/// An error body returned by the platform's API: a code and a message.
#[derive(Clone, Debug)]
pub struct ApiError {
    pub code: u32,
    pub message: String,
}

impl ApiError {
    pub fn new(code: u32, message: String) -> (r: ApiError)
        ensures
            r.code == code,
            r.message == message,
    {
        ApiError { code, message }
    }

    pub fn code(&self) -> (r: u32)
        ensures
            r == self.code,
    {
        self.code
    }

    pub fn message(&self) -> (r: &str)
        ensures
            r@ == self.message@,
    {
        self.message.as_str()
    }
}

/// A REST request failure, classified from the HTTP status or the transport.
#[derive(Clone, Debug)]
pub enum Error {
    Builder,
    Redirect,
    TimedOut,
    BadRequest,
    InvalidToken,
    NotPermitted,
    NotFound,
    RateLimited,
    GatewayUnavailable,
    Response(u16),
    Api(ApiError),
    Decode,
}

impl Error {
    pub fn is_not_found(&self) -> (r: bool)
        ensures
            r == (*self is NotFound),
    {
        match self {
            Error::NotFound => true,
            _ => false,
        }
    }
}

/// The error denoted by an HTTP status code.
pub open spec fn spec_classify_status(code: u16) -> Error {
    if code == 400 {
        Error::BadRequest
    } else if code == 401 {
        Error::InvalidToken
    } else if code == 403 {
        Error::NotPermitted
    } else if code == 404 {
        Error::NotFound
    } else if code == 429 {
        Error::RateLimited
    } else if code == 502 {
        Error::GatewayUnavailable
    } else {
        Error::Response(code)
    }
}

/// Classifies an HTTP error status.
pub fn classify_status(code: u16) -> (r: Error)
    ensures
        r == spec_classify_status(code),
{
    if code == 400 {
        Error::BadRequest
    } else if code == 401 {
        Error::InvalidToken
    } else if code == 403 {
        Error::NotPermitted
    } else if code == 404 {
        Error::NotFound
    } else if code == 429 {
        Error::RateLimited
    } else if code == 502 {
        Error::GatewayUnavailable
    } else {
        Error::Response(code)
    }
}

/// Adapts a not-found failure into an absent value: a missing entity is an
/// answer, not an error.
pub fn optional<T>(r: Result<T, Error>) -> (res: Result<Option<T>, Error>)
    ensures
        match r {
            Ok(v) => res matches Ok(o) && o == Some(v),
            Err(e) => if e is NotFound {
                res matches Ok(o) && o is None
            } else {
                res matches Err(e2) && e2 == e
            },
        },
{
    match r {
        Ok(v) => Ok(Some(v)),
        Err(e) => if e.is_not_found() {
            Ok(None)
        } else {
            Err(e)
        },
    }
}

/// An attachment posted with a message.
#[derive(Debug)]
pub struct Attachment {
    pub name: String,
    pub data: Vec<u8>,
}

impl Attachment {
    pub fn new(name: String, data: Vec<u8>) -> (r: Attachment)
        ensures
            r.name == name,
            r.data == data,
    {
        Attachment { name, data }
    }
}

/// A message creation body: text, an attachment, or both.
#[derive(Debug)]
pub struct CreateMessage {
    pub content: Option<String>,
    pub file: Option<Attachment>,
}

impl CreateMessage {
    pub fn from_content(content: String) -> (r: CreateMessage)
        ensures
            r.content == Some(content),
            r.file is None,
    {
        CreateMessage { content: Some(content), file: None }
    }

    pub fn from_file(file: Attachment) -> (r: CreateMessage)
        ensures
            r.content is None,
            r.file == Some(file),
    {
        CreateMessage { content: None, file: Some(file) }
    }

    pub fn from_content_and_file(content: String, file: Attachment) -> (r: CreateMessage)
        ensures
            r.content == Some(content),
            r.file == Some(file),
    {
        CreateMessage { content: Some(content), file: Some(file) }
    }
}

/// The route of one message.
pub open spec fn spec_message_route(channel_id: u64, message_id: u64) -> Seq<char> {
    "channels/"@ + spec_digits(channel_id) + "/messages/"@ + spec_digits(message_id)
}

pub fn message_route(channel_id: Snowflake, message_id: Snowflake) -> (r: String)
    ensures
        r@ == spec_message_route(channel_id.value, message_id.value),
{
    let mut out: Vec<char> = Vec::new();
    push_str_chars(&mut out, "channels/");
    proof {
        seq_cat_empty_left("channels/"@);
    }
    push_digits(&mut out, channel_id.value);
    push_str_chars(&mut out, "/messages/");
    push_digits(&mut out, message_id.value);
    chars_to_string(&out)
}

/// The route for creating a message in a channel.
pub open spec fn spec_channel_messages_route(channel_id: u64) -> Seq<char> {
    "channels/"@ + spec_digits(channel_id) + "/messages"@
}

pub fn channel_messages_route(channel_id: Snowflake) -> (r: String)
    ensures
        r@ == spec_channel_messages_route(channel_id.value),
{
    let mut out: Vec<char> = Vec::new();
    push_str_chars(&mut out, "channels/");
    proof {
        seq_cat_empty_left("channels/"@);
    }
    push_digits(&mut out, channel_id.value);
    push_str_chars(&mut out, "/messages");
    chars_to_string(&out)
}

/// The route of one member.
pub open spec fn spec_member_route(guild_id: u64, user_id: u64) -> Seq<char> {
    "guilds/"@ + spec_digits(guild_id) + "/members/"@ + spec_digits(user_id)
}

pub fn member_route(guild_id: Snowflake, user_id: Snowflake) -> (r: String)
    ensures
        r@ == spec_member_route(guild_id.value, user_id.value),
{
    let mut out: Vec<char> = Vec::new();
    push_str_chars(&mut out, "guilds/");
    proof {
        seq_cat_empty_left("guilds/"@);
    }
    push_digits(&mut out, guild_id.value);
    push_str_chars(&mut out, "/members/");
    push_digits(&mut out, user_id.value);
    chars_to_string(&out)
}

/// The route of one role of one member.
pub open spec fn spec_member_role_route(guild_id: u64, user_id: u64, role_id: u64) -> Seq<char> {
    "guilds/"@ + spec_digits(guild_id) + "/members/"@ + spec_digits(user_id) + "/roles/"@
        + spec_digits(role_id)
}

pub fn member_role_route(guild_id: Snowflake, user_id: Snowflake, role_id: Snowflake) -> (r:
    String)
    ensures
        r@ == spec_member_role_route(guild_id.value, user_id.value, role_id.value),
{
    let mut out: Vec<char> = Vec::new();
    push_str_chars(&mut out, "guilds/");
    proof {
        seq_cat_empty_left("guilds/"@);
    }
    push_digits(&mut out, guild_id.value);
    push_str_chars(&mut out, "/members/");
    push_digits(&mut out, user_id.value);
    push_str_chars(&mut out, "/roles/");
    push_digits(&mut out, role_id.value);
    chars_to_string(&out)
}

/// The route of one guild ban.
pub open spec fn spec_guild_ban_route(guild_id: u64, user_id: u64) -> Seq<char> {
    "guilds/"@ + spec_digits(guild_id) + "/bans/"@ + spec_digits(user_id)
}

pub fn guild_ban_route(guild_id: Snowflake, user_id: Snowflake) -> (r: String)
    ensures
        r@ == spec_guild_ban_route(guild_id.value, user_id.value),
{
    let mut out: Vec<char> = Vec::new();
    push_str_chars(&mut out, "guilds/");
    proof {
        seq_cat_empty_left("guilds/"@);
    }
    push_digits(&mut out, guild_id.value);
    push_str_chars(&mut out, "/bans/");
    push_digits(&mut out, user_id.value);
    chars_to_string(&out)
}

/// The route of a guild's command list for one application.
pub open spec fn spec_guild_commands_route(application_id: u64, guild_id: u64) -> Seq<char> {
    "applications/"@ + spec_digits(application_id) + "/guilds/"@ + spec_digits(guild_id)
        + "/commands"@
}

pub fn guild_commands_route(application_id: Snowflake, guild_id: Snowflake) -> (r: String)
    ensures
        r@ == spec_guild_commands_route(application_id.value, guild_id.value),
{
    let mut out: Vec<char> = Vec::new();
    push_str_chars(&mut out, "applications/");
    proof {
        seq_cat_empty_left("applications/"@);
    }
    push_digits(&mut out, application_id.value);
    push_str_chars(&mut out, "/guilds/");
    push_digits(&mut out, guild_id.value);
    push_str_chars(&mut out, "/commands");
    chars_to_string(&out)
}

/// What the percent-encoder yields for a text; a function of the text alone.
pub uninterp spec fn url_encoded_of(s: Seq<char>) -> Seq<char>;

/// Relies on urlencoding::encode: percent-encodes the text, a pure function
/// of its characters.
#[verifier::external_body]
pub fn url_encode(s: &str) -> (r: String)
    ensures
        r@ == url_encoded_of(s@),
{
    urlencoding::encode(s).into_owned()
}

/// The member-request command a REST caller submits: an empty query with no
/// limit, asking for the guild's whole member list.
pub fn request_guild_members_command(guild_id: Snowflake) -> (r: Command)
    ensures
        r matches Command::RequestGuildMembers(c) && c.guild_id == guild_id && c.query@
            == Seq::<char>::empty() && c.limit == 0 && c.presences is None && c.user_ids@.len()
            == 0 && c.nonce is None,
{
    Command::RequestGuildMembers(
        RequestGuildMembers {
            guild_id,
            query: String::new(),
            limit: 0,
            presences: None,
            user_ids: Vec::new(),
            nonce: None,
        },
    )
}

/// The voice-state command a REST caller submits to join or leave a channel.
pub fn update_voice_state_command(
    guild_id: Snowflake,
    channel_id: Option<Snowflake>,
    self_mute: bool,
    self_deaf: bool,
) -> (r: Command)
    ensures
        r matches Command::UpdateVoiceState(c) && c.guild_id == guild_id && c.channel_id
            == channel_id && c.self_mute == self_mute && c.self_deaf == self_deaf,
{
    Command::UpdateVoiceState(UpdateVoiceState { guild_id, channel_id, self_mute, self_deaf })
}


/// The emoji token of a reaction route: the name, or name and id joined by
/// a colon.
pub open spec fn spec_emoji_token(name: Seq<char>, id: Option<u64>) -> Seq<char> {
    match id {
        Some(n) => name + seq![':'] + spec_digits(n),
        None => name,
    }
}

/// Builds the emoji token for a reaction route.
pub fn emoji_token(name: &str, id: Option<Snowflake>) -> (r: String)
    ensures
        r@ == spec_emoji_token(
            name@,
            match id {
                Some(g) => Some(g.value),
                None => None,
            },
        ),
{
    let mut out: Vec<char> = Vec::new();
    push_str_chars(&mut out, name);
    proof {
        seq_cat_empty_left(name@);
    }
    match id {
        Some(g) => {
            out.push(':');
            proof {
                assert(out@ =~= name@ + seq![':']);
            }
            push_digits(&mut out, g.value);
        },
        None => {},
    }
    chars_to_string(&out)
}

/// The reaction listing limit: at most one hundred, one hundred by default.
pub open spec fn spec_reaction_limit(limit: Option<u8>) -> u8 {
    match limit {
        Some(l) => if l > 100 {
            100
        } else {
            l
        },
        None => 100,
    }
}

/// The route listing the users who reacted with one emoji: the emoji token
/// percent-encoded, the clamped limit, and the paging cursor if any.
pub open spec fn spec_reactions_route(
    channel_id: u64,
    message_id: u64,
    token: Seq<char>,
    limit: u8,
    after: Option<u64>,
) -> Seq<char> {
    "channels/"@ + spec_digits(channel_id) + "/messages/"@ + spec_digits(message_id)
        + "/reactions/"@ + url_encoded_of(token) + "?limit="@ + spec_digits(limit as u64) + (
    match after {
        Some(a) => "&after="@ + spec_digits(a),
        None => Seq::empty(),
    })
}

/// Builds the reaction listing route for one emoji of one message.
pub fn reactions_route(
    channel_id: Snowflake,
    message_id: Snowflake,
    emoji_name: &str,
    emoji_id: Option<Snowflake>,
    limit: Option<u8>,
    after: Option<Snowflake>,
) -> (r: String)
    ensures
        r@ == spec_reactions_route(
            channel_id.value,
            message_id.value,
            spec_emoji_token(
                emoji_name@,
                match emoji_id {
                    Some(g) => Some(g.value),
                    None => None,
                },
            ),
            spec_reaction_limit(limit),
            match after {
                Some(g) => Some(g.value),
                None => None,
            },
        ),
{
    let token = emoji_token(emoji_name, emoji_id);
    let encoded = url_encode(token.as_str());
    let limit = match limit {
        Some(l) => if l > 100 {
            100
        } else {
            l
        },
        None => 100,
    };
    let mut out: Vec<char> = Vec::new();
    push_str_chars(&mut out, "channels/");
    proof {
        seq_cat_empty_left("channels/"@);
    }
    push_digits(&mut out, channel_id.value);
    push_str_chars(&mut out, "/messages/");
    push_digits(&mut out, message_id.value);
    push_str_chars(&mut out, "/reactions/");
    push_str_chars(&mut out, encoded.as_str());
    push_str_chars(&mut out, "?limit=");
    push_digits(&mut out, limit as u64);
    match after {
        Some(a) => {
            push_str_chars(&mut out, "&after=");
            push_digits(&mut out, a.value);
        },
        None => {
            proof {
                crate::text::seq_cat_empty_right(out@);
            }
        },
    }
    chars_to_string(&out)
}


/// A message button. The style codes are the wire's: primary 1, secondary 2,
/// success 3, danger 4, link 5.
pub struct ButtonComponent {
    pub style: u8,
    pub label: Option<String>,
    pub custom_id: Option<String>,
    pub url: Option<String>,
    pub disabled: bool,
}

impl ButtonComponent {
    pub fn primary(custom_id: String) -> (r: ButtonComponent)
        ensures
            r.style == 1,
            r.custom_id == Some(custom_id),
            r.label is None,
            r.url is None,
            !r.disabled,
    {
        ButtonComponent { style: 1, label: None, custom_id: Some(custom_id), url: None, disabled: false }
    }

    pub fn secondary(custom_id: String) -> (r: ButtonComponent)
        ensures
            r.style == 2,
            r.custom_id == Some(custom_id),
            r.label is None,
            r.url is None,
            !r.disabled,
    {
        ButtonComponent { style: 2, label: None, custom_id: Some(custom_id), url: None, disabled: false }
    }

    pub fn success(custom_id: String) -> (r: ButtonComponent)
        ensures
            r.style == 3,
            r.custom_id == Some(custom_id),
            r.label is None,
            r.url is None,
            !r.disabled,
    {
        ButtonComponent { style: 3, label: None, custom_id: Some(custom_id), url: None, disabled: false }
    }

    pub fn danger(custom_id: String) -> (r: ButtonComponent)
        ensures
            r.style == 4,
            r.custom_id == Some(custom_id),
            r.label is None,
            r.url is None,
            !r.disabled,
    {
        ButtonComponent { style: 4, label: None, custom_id: Some(custom_id), url: None, disabled: false }
    }

    pub fn link(url: String) -> (r: ButtonComponent)
        ensures
            r.style == 5,
            r.url == Some(url),
            r.label is None,
            r.custom_id is None,
            !r.disabled,
    {
        ButtonComponent { style: 5, label: None, custom_id: None, url: Some(url), disabled: false }
    }

    pub fn label(self, label: String) -> (r: ButtonComponent)
        ensures
            r.label == Some(label),
            r.style == self.style,
            r.custom_id == self.custom_id,
            r.url == self.url,
            r.disabled == self.disabled,
    {
        ButtonComponent { label: Some(label), ..self }
    }

    pub fn disabled(self) -> (r: ButtonComponent)
        ensures
            r.disabled,
            r.style == self.style,
            r.label == self.label,
            r.custom_id == self.custom_id,
            r.url == self.url,
    {
        ButtonComponent { disabled: true, ..self }
    }
}

/// A row of buttons.
pub struct RowComponent {
    pub buttons: Vec<ButtonComponent>,
}

impl RowComponent {
    pub fn new() -> (r: RowComponent)
        ensures
            r.buttons@.len() == 0,
    {
        RowComponent { buttons: Vec::new() }
    }

    pub fn button(self, button: ButtonComponent) -> (r: RowComponent)
        ensures
            r.buttons@ == self.buttons@.push(button),
    {
        let mut buttons = self.buttons;
        buttons.push(button);
        RowComponent { buttons }
    }
}

pub open spec fn seg_opt_str_field(k: Seq<char>, o: Option<String>) -> Seq<char> {
    match o {
        Some(s) => seq![','] + seq!['"'] + k + seq!['"'] + seq![':'] + jstr(s@),
        None => Seq::empty(),
    }
}

/// The wire text of one button component.
pub open spec fn render_button(b: ButtonComponent) -> Seq<char> {
    "{\"type\":2,\"style\":"@ + spec_digits(b.style as u64) + seg_opt_str_field(
        "label"@,
        b.label,
    ) + seg_opt_str_field("custom_id"@, b.custom_id) + seg_opt_str_field("url"@, b.url) + (
    if b.disabled {
        ",\"disabled\":true"@
    } else {
        Seq::empty()
    }) + "}"@
}

/// The members of a button array, comma separated.
pub open spec fn render_button_items(bs: Seq<ButtonComponent>) -> Seq<char>
    decreases bs.len(),
{
    if bs.len() == 0 {
        Seq::empty()
    } else if bs.len() == 1 {
        render_button(bs.last())
    } else {
        render_button_items(bs.drop_last()) + seq![','] + render_button(bs.last())
    }
}

/// The wire text of one action row.
pub open spec fn render_row(r: RowComponent) -> Seq<char> {
    "{\"type\":1,\"components\":["@ + render_button_items(r.buttons@) + "]}"@
}

/// The members of a row array, comma separated.
pub open spec fn render_row_items(rs: Seq<RowComponent>) -> Seq<char>
    decreases rs.len(),
{
    if rs.len() == 0 {
        Seq::empty()
    } else if rs.len() == 1 {
        render_row(rs.last())
    } else {
        render_row_items(rs.drop_last()) + seq![','] + render_row(rs.last())
    }
}

/// The body of a message creation: the text if any, and the component rows.
pub open spec fn render_create_message_body(content: Option<String>, rows: Seq<RowComponent>) -> Seq<
    char,
> {
    "{"@ + (match content {
        Some(s) => "\"content\":"@ + jstr(s@) + seq![','],
        None => Seq::empty(),
    }) + "\"components\":["@ + render_row_items(rows) + "]}"@
}

/// The body of a guild ban: the day count to prune and the audit reason,
/// null where absent.
pub open spec fn render_guild_ban_body(delete_message_days: Option<u8>, reason: Option<String>) -> Seq<
    char,
> {
    "{\"delete_message_days\":"@ + (match delete_message_days {
        Some(n) => spec_digits(n as u64),
        None => "null"@,
    }) + ",\"reason\":"@ + (match reason {
        Some(s) => jstr(s@),
        None => "null"@,
    }) + "}"@
}

/// The body of an interaction response: the callback kind, then the data
/// object with its text (null where absent), its flags (64 marks an
/// ephemeral reply) and its component rows.
pub open spec fn render_interaction_response_body(
    response_type: u8,
    content: Option<String>,
    ephemeral: bool,
    rows: Seq<RowComponent>,
) -> Seq<char> {
    "{\"type\":"@ + spec_digits(response_type as u64) + ",\"data\":{\"content\":"@ + (
    match content {
        Some(s) => jstr(s@),
        None => "null"@,
    }) + ",\"flags\":"@ + (if ephemeral {
        "64"@
    } else {
        "0"@
    }) + ",\"components\":["@ + render_row_items(rows) + "]}}"@
}

fn push_seg_opt_str_field(out: &mut Vec<char>, k: &str, o: &Option<String>, ghost_key: Ghost<
    Seq<char>,
>)
    requires
        k@ == ghost_key@,
    ensures
        final(out)@ == old(out)@ + seg_opt_str_field(ghost_key@, *o),
{
    match o {
        Some(s) => {
            let ghost base = out@;
            out.push(',');
            out.push('"');
            push_str_chars(out, k);
            proof {
                assert(out@ =~= base + (seq![','] + seq!['"'] + ghost_key@));
            }
            out.push('"');
            out.push(':');
            proof {
                assert(out@ =~= base + (seq![','] + seq!['"'] + ghost_key@ + seq!['"']
                    + seq![':']));
            }
            push_json_string(out, s.as_str());
            proof {
                seq_cat_assoc(
                    base,
                    seq![','] + seq!['"'] + ghost_key@ + seq!['"'] + seq![':'],
                    jstr(s@),
                );
            }
        },
        None => {
            proof {
                seq_cat_empty_right(out@);
            }
        },
    }
}

fn push_button(out: &mut Vec<char>, b: &ButtonComponent)
    ensures
        final(out)@ == old(out)@ + render_button(*b),
{
    let ghost base = out@;
    let ghost mut acc: Seq<char> = "{\"type\":2,\"style\":"@;
    push_str_chars(out, "{\"type\":2,\"style\":");
    push_digits(out, b.style as u64);
    proof {
        seq_cat_assoc(base, acc, spec_digits(b.style as u64));
        acc = acc + spec_digits(b.style as u64);
    }
    push_seg_opt_str_field(out, "label", &b.label, Ghost("label"@));
    proof {
        seq_cat_assoc(base, acc, seg_opt_str_field("label"@, b.label));
        acc = acc + seg_opt_str_field("label"@, b.label);
    }
    push_seg_opt_str_field(out, "custom_id", &b.custom_id, Ghost("custom_id"@));
    proof {
        seq_cat_assoc(base, acc, seg_opt_str_field("custom_id"@, b.custom_id));
        acc = acc + seg_opt_str_field("custom_id"@, b.custom_id);
    }
    push_seg_opt_str_field(out, "url", &b.url, Ghost("url"@));
    proof {
        seq_cat_assoc(base, acc, seg_opt_str_field("url"@, b.url));
        acc = acc + seg_opt_str_field("url"@, b.url);
    }
    if b.disabled {
        push_str_chars(out, ",\"disabled\":true");
        proof {
            seq_cat_assoc(base, acc, ",\"disabled\":true"@);
            acc = acc + ",\"disabled\":true"@;
        }
    } else {
        proof {
            seq_cat_empty_right(base + acc);
            acc = acc + Seq::<char>::empty();
        }
    }
    push_str_chars(out, "}");
    proof {
        seq_cat_assoc(base, acc, "}"@);
        assert(out@ == base + render_button(*b));
    }
}

fn push_button_items(out: &mut Vec<char>, bs: &Vec<ButtonComponent>)
    ensures
        final(out)@ == old(out)@ + render_button_items(bs@),
{
    let mut i: usize = 0;
    proof {
        seq_cat_empty_right(out@);
        assert(render_button_items(bs@.take(0)) =~= Seq::<char>::empty());
    }
    while i < bs.len()
        invariant
            0 <= i <= bs@.len(),
            out@ == old(out)@ + render_button_items(bs@.take(i as int)),
        decreases bs@.len() - i,
    {
        proof {
            assert(bs@.take(i + 1).drop_last() =~= bs@.take(i as int));
            assert(bs@.take(i + 1).last() == bs@[i as int]);
        }
        if i > 0 {
            out.push(',');
            push_button(out, &bs[i]);
            proof {
                assert(out@ =~= old(out)@ + render_button_items(bs@.take(i + 1)));
            }
        } else {
            push_button(out, &bs[i]);
            proof {
                assert(bs@.take(1).len() == 1);
                assert(out@ =~= old(out)@ + render_button_items(bs@.take(i + 1)));
            }
        }
        i = i + 1;
    }
    proof {
        assert(bs@.take(i as int) =~= bs@);
    }
}

fn push_row(out: &mut Vec<char>, r: &RowComponent)
    ensures
        final(out)@ == old(out)@ + render_row(*r),
{
    let ghost base = out@;
    push_str_chars(out, "{\"type\":1,\"components\":[");
    push_button_items(out, &r.buttons);
    proof {
        seq_cat_assoc(base, "{\"type\":1,\"components\":["@, render_button_items(r.buttons@));
    }
    push_str_chars(out, "]}");
    proof {
        seq_cat_assoc(
            base,
            "{\"type\":1,\"components\":["@ + render_button_items(r.buttons@),
            "]}"@,
        );
        assert(out@ == base + render_row(*r));
    }
}

fn push_row_items(out: &mut Vec<char>, rs: &Vec<RowComponent>)
    ensures
        final(out)@ == old(out)@ + render_row_items(rs@),
{
    let mut i: usize = 0;
    proof {
        seq_cat_empty_right(out@);
        assert(render_row_items(rs@.take(0)) =~= Seq::<char>::empty());
    }
    while i < rs.len()
        invariant
            0 <= i <= rs@.len(),
            out@ == old(out)@ + render_row_items(rs@.take(i as int)),
        decreases rs@.len() - i,
    {
        proof {
            assert(rs@.take(i + 1).drop_last() =~= rs@.take(i as int));
            assert(rs@.take(i + 1).last() == rs@[i as int]);
        }
        if i > 0 {
            out.push(',');
            push_row(out, &rs[i]);
            proof {
                assert(out@ =~= old(out)@ + render_row_items(rs@.take(i + 1)));
            }
        } else {
            push_row(out, &rs[i]);
            proof {
                assert(rs@.take(1).len() == 1);
                assert(out@ =~= old(out)@ + render_row_items(rs@.take(i + 1)));
            }
        }
        i = i + 1;
    }
    proof {
        assert(rs@.take(i as int) =~= rs@);
    }
}

/// Renders the message creation body for the text and rows given.
pub fn create_message_body(content: &Option<String>, rows: &Vec<RowComponent>) -> (r: String)
    ensures
        r@ == render_create_message_body(*content, rows@),
{
    let ghost mut acc: Seq<char> = "{"@;
    let mut out: Vec<char> = Vec::new();
    push_str_chars(&mut out, "{");
    proof {
        seq_cat_empty_left("{"@);
    }
    match content {
        Some(s) => {
            let ghost base = out@;
            push_str_chars(&mut out, "\"content\":");
            push_json_string(&mut out, s.as_str());
            out.push(',');
            proof {
                assert(out@ =~= base + ("\"content\":"@ + jstr(s@) + seq![',']));
                acc = acc + ("\"content\":"@ + jstr(s@) + seq![',']);
            }
        },
        None => {
            proof {
                seq_cat_empty_right(out@);
                acc = acc + Seq::<char>::empty();
            }
        },
    }
    push_str_chars(&mut out, "\"components\":[");
    proof {
        acc = acc + "\"components\":["@;
    }
    push_row_items(&mut out, rows);
    proof {
        acc = acc + render_row_items(rows@);
    }
    push_str_chars(&mut out, "]}");
    proof {
        assert(out@ == render_create_message_body(*content, rows@));
    }
    chars_to_string(&out)
}

/// Renders the guild-ban body for the options given.
pub fn guild_ban_body(delete_message_days: Option<u8>, reason: &Option<String>) -> (r: String)
    ensures
        r@ == render_guild_ban_body(delete_message_days, *reason),
{
    let mut out: Vec<char> = Vec::new();
    push_str_chars(&mut out, "{\"delete_message_days\":");
    proof {
        seq_cat_empty_left("{\"delete_message_days\":"@);
    }
    match delete_message_days {
        Some(n) => push_digits(&mut out, n as u64),
        None => push_str_chars(&mut out, "null"),
    }
    push_str_chars(&mut out, ",\"reason\":");
    match reason {
        Some(s) => push_json_string(&mut out, s.as_str()),
        None => push_str_chars(&mut out, "null"),
    }
    push_str_chars(&mut out, "}");
    proof {
        assert(out@ == render_guild_ban_body(delete_message_days, *reason));
    }
    chars_to_string(&out)
}

/// Renders the interaction-response body: kind 4 answers with a message,
/// kind 5 defers, kind 7 updates the interacted message.
pub fn interaction_response_body(
    response_type: u8,
    content: &Option<String>,
    ephemeral: bool,
    rows: &Vec<RowComponent>,
) -> (r: String)
    ensures
        r@ == render_interaction_response_body(response_type, *content, ephemeral, rows@),
{
    let ghost mut acc: Seq<char> = "{\"type\":"@;
    let mut out: Vec<char> = Vec::new();
    push_str_chars(&mut out, "{\"type\":");
    proof {
        seq_cat_empty_left("{\"type\":"@);
    }
    push_digits(&mut out, response_type as u64);
    proof {
        acc = acc + spec_digits(response_type as u64);
    }
    push_str_chars(&mut out, ",\"data\":{\"content\":");
    proof {
        acc = acc + ",\"data\":{\"content\":"@;
    }
    match content {
        Some(s) => {
            push_json_string(&mut out, s.as_str());
            proof {
                acc = acc + jstr(s@);
            }
        },
        None => {
            push_str_chars(&mut out, "null");
            proof {
                acc = acc + "null"@;
            }
        },
    }
    push_str_chars(&mut out, ",\"flags\":");
    proof {
        acc = acc + ",\"flags\":"@;
    }
    if ephemeral {
        push_str_chars(&mut out, "64");
        proof {
            acc = acc + "64"@;
        }
    } else {
        push_str_chars(&mut out, "0");
        proof {
            acc = acc + "0"@;
        }
    }
    push_str_chars(&mut out, ",\"components\":[");
    proof {
        acc = acc + ",\"components\":["@;
    }
    push_row_items(&mut out, rows);
    proof {
        acc = acc + render_row_items(rows@);
    }
    push_str_chars(&mut out, "]}}");
    proof {
        assert(out@ == render_interaction_response_body(
            response_type,
            *content,
            ephemeral,
            rows@,
        ));
    }
    chars_to_string(&out)
}

} // verus!
