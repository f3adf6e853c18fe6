use vstd::prelude::*;

verus! {

/// The health endpoint's answer.
#[derive(Clone, Debug)]
pub struct Health {
    pub status: String,
}

/// What a client may send.
#[derive(Clone, Copy, Debug, PartialEq, Eq, Structural)]
pub enum ClientMessage {
    Ping,
}

/// What the server may send.
#[derive(Clone, Copy, Debug, PartialEq, Eq, Structural)]
pub enum ServerMessage {
    Pong,
}

/// A frame on the socket channel.
#[derive(Clone, Debug)]
pub enum WsMessage {
    Text(String),
    Binary(Vec<u8>),
    Close,
    /// Any control frame other than a close.
    Other,
}

/// What the socket handler does with a frame.
#[derive(Clone, Debug)]
pub enum SocketAction {
    Send(WsMessage),
    Close,
    Ignore,
}

/// serde_json's error type, as its encoder and decoder return it; carried, never inspected.
#[verifier::external_type_specification]
#[verifier::external_body]
pub struct ExJsonError(serde_json::Error);

/// The JSON text that serde_json writes for a string with these characters.
pub uninterp spec fn json_encoding(s: Seq<char>) -> Seq<char>;

/// The string that a JSON text holds, when the text is one JSON string
/// (surrounding whitespace aside).
pub uninterp spec fn json_string_value(text: Seq<char>) -> Option<Seq<char>>;

/// No character is one that JSON escapes: a quote, a backslash, or a control
/// character below U+0020.
pub open spec fn json_plain(s: Seq<char>) -> bool {
    forall|i: int| 0 <= i < s.len() ==> (s[i] as u32) >= 0x20 && s[i] != '"' && s[i] != '\\'
}

/// Relies on serde_json::to_string on a `str`: it writes into a `Vec`, whose
/// writes cannot fail, so it always succeeds; the text is the JSON string
/// literal for those characters, which depends on them alone, and is just the
/// characters between two quotes when none of them needs escaping.
#[verifier::external_body]
fn encode_json_str(s: &str) -> (r: Result<String, serde_json::Error>)
    ensures
        r is Ok,
        r->Ok_0@ == json_encoding(s@),
        json_plain(s@) ==> r->Ok_0@ == seq!['"'] + s@ + seq!['"'],
{
    serde_json::to_string(s)
}

/// Relies on serde_json::from_str::<String>: it succeeds exactly when the text
/// is one JSON string (surrounding whitespace aside), and then returns that
/// string; the outcome depends on the text alone.
#[verifier::external_body]
fn decode_json_str(text: &str) -> (r: Result<String, serde_json::Error>)
    ensures
        r is Ok <==> json_string_value(text@) is Some,
        r is Ok ==> r->Ok_0@ == json_string_value(text@).unwrap(),
{
    serde_json::from_str::<String>(text)
}

/// The health endpoint always reports "ok".
pub fn health() -> (r: Health)
    ensures
        r.status@ == "ok"@,
{
    Health { status: "ok".to_owned() }
}

/// A character with ASCII capitals mapped to small letters.
pub open spec fn fold_ascii(c: char) -> int {
    if 65 <= (c as u32) <= 90 {
        (c as u32) + 32int
    } else {
        c as u32 as int
    }
}

/// Equal up to the case of ASCII letters.
pub open spec fn same_ignoring_ascii_case(a: Seq<char>, b: Seq<char>) -> bool {
    a.len() == b.len() && forall|i: int| 0 <= i < a.len() ==> fold_ascii(a[i]) == fold_ascii(b[i])
}

fn fold_char(c: char) -> (r: u32)
    ensures
        r == fold_ascii(c),
{
    let v = c as u32;
    if 65 <= v && v <= 90 {
        v + 32
    } else {
        v
    }
}

/// Whether `a` and `b` are equal ignoring ASCII case.
pub fn eq_ignore_ascii_case(a: &str, b: &str) -> (r: bool)
    ensures
        r == same_ignoring_ascii_case(a@, b@),
{
    let n = a.unicode_len();
    if n != b.unicode_len() {
        return false;
    }
    let mut i: usize = 0;
    while i < n
        invariant
            n == a@.len() == b@.len(),
            0 <= i <= n,
            forall|j: int| 0 <= j < i ==> fold_ascii(a@[j]) == fold_ascii(b@[j]),
        decreases n - i,
    {
        if fold_char(a.get_char(i)) != fold_char(b.get_char(i)) {
            return false;
        }
        i += 1;
    }
    true
}

/// Whether `a` and `b` hold the same characters.
pub fn same_text(a: &str, b: &str) -> (r: bool)
    ensures
        r == (a@ == b@),
{
    let n = a.unicode_len();
    if n != b.unicode_len() {
        return false;
    }
    let mut i: usize = 0;
    while i < n
        invariant
            n == a@.len() == b@.len(),
            0 <= i <= n,
            forall|j: int| 0 <= j < i ==> a@[j] == b@[j],
        decreases n - i,
    {
        if a.get_char(i) != b.get_char(i) {
            return false;
        }
        i += 1;
    }
    assert(a@ =~= b@);
    true
}

/// The client message named by a tag, as its JSON form spells it.
pub fn client_message_from_tag(tag: &str) -> (r: Option<ClientMessage>)
    ensures
        r == if tag@ == "Ping"@ {
            Some(ClientMessage::Ping)
        } else {
            None
        },
{
    if same_text(tag, "Ping") {
        Some(ClientMessage::Ping)
    } else {
        None
    }
}

pub open spec fn client_message_of(text: Seq<char>) -> Option<ClientMessage> {
    if same_ignoring_ascii_case(text, "ping"@) || json_string_value(text) == Some("Ping"@) {
        Some(ClientMessage::Ping)
    } else {
        None
    }
}

/// A client's text: "ping" in any case, or the JSON form of a ping, the tag
/// as a JSON string (`"Ping"`). The object form of the tag (`{"Ping":null}`)
/// is not taken for a ping: such a frame is echoed like any other text.
pub fn parse_client_message(text: &str) -> (r: Option<ClientMessage>)
    ensures
        r == client_message_of(text@),
{
    if eq_ignore_ascii_case(text, "ping") {
        return Some(ClientMessage::Ping);
    }
    match decode_json_str(text) {
        Ok(tag) => client_message_from_tag(tag.as_str()),
        Err(_) => None,
    }
}

pub open spec fn server_tag_of(message: ServerMessage) -> Seq<char> {
    match message {
        ServerMessage::Pong => "Pong"@,
    }
}

/// The tag a server message is written as.
pub fn server_message_tag(message: &ServerMessage) -> (r: &'static str)
    ensures
        r@ == server_tag_of(*message),
{
    match message {
        ServerMessage::Pong => "Pong",
    }
}

/// A server message's text as JSON: its tag in quotes.
pub open spec fn server_text_of(message: ServerMessage) -> Seq<char> {
    seq!['"'] + server_tag_of(message) + seq!['"']
}

/// The JSON text of a server message: its tag as a JSON string.
pub fn server_message_text(message: &ServerMessage) -> (r: Option<String>)
    ensures
        r is Some,
        r.unwrap()@ == json_encoding(server_tag_of(*message)),
        r.unwrap()@ == server_text_of(*message),
{
    let tag = server_message_tag(message);
    proof {
        reveal_strlit("Pong");
        assert(json_plain(tag@));
    }
    match encode_json_str(tag) {
        Ok(text) => Some(text),
        Err(_) => None,
    }
}

/// A ping is answered with a pong, any other text or binary frame is echoed,
/// a close ends the channel, and other control frames are ignored.
pub fn handle_message(message: WsMessage) -> (r: SocketAction)
    ensures
        match message {
            WsMessage::Text(t) => if client_message_of(t@) == Some(ClientMessage::Ping) {
                r matches SocketAction::Send(WsMessage::Text(p)) && p@ == json_encoding(
                    server_tag_of(ServerMessage::Pong),
                ) && p@ == server_text_of(ServerMessage::Pong)
            } else {
                r == SocketAction::Send(WsMessage::Text(t))
            },
            WsMessage::Binary(b) => r == SocketAction::Send(WsMessage::Binary(b)),
            WsMessage::Close => r is Close,
            WsMessage::Other => r is Ignore,
        },
{
    match message {
        WsMessage::Text(text) => {
            if let Some(client_msg) = parse_client_message(text.as_str()) {
                match client_msg {
                    ClientMessage::Ping => {
                        if let Some(payload) = server_message_text(&ServerMessage::Pong) {
                            return SocketAction::Send(WsMessage::Text(payload));
                        }
                        return SocketAction::Ignore;
                    },
                }
            }
            SocketAction::Send(WsMessage::Text(text))
        },
        WsMessage::Binary(bytes) => SocketAction::Send(WsMessage::Binary(bytes)),
        WsMessage::Close => SocketAction::Close,
        WsMessage::Other => SocketAction::Ignore,
    }
}

} // verus!
