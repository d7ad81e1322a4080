//! The console wire format: JSON text frames tagged by `type`, with the
//! payload under `data`, written compactly and read in either key order
//! with JSON whitespace allowed between tokens. `{"type":"ping"}` goes both ways,
//! `{"type":"log","data":...}` from server to client and
//! `{"type":"command","data":...}` from client to server.

use vstd::prelude::*;
use vstd::string::*;
use crate::text::chars_of;

verus! {

/// The JSON string literal that serde_json prints for `s`.
pub uninterp spec fn json_quoted(s: Seq<char>) -> Seq<char>;

/// The string that serde_json reads from `t` when `t` is one JSON string
/// literal, and `None` otherwise.
pub uninterp spec fn json_string_value(t: Seq<char>) -> Option<Seq<char>>;

/// Relies on serde_json's `Display` for `Value::String`: it prints `s` as a
/// JSON string literal, which depends on `s` alone and which
/// `serde_json::from_str::<String>` reads back as `s`.
#[verifier::external_body]
fn quote(s: &str) -> (r: String)
    ensures
        r@ == json_quoted(s@),
        json_string_value(r@) == Some(s@),
{
    serde_json::Value::String(s.to_string()).to_string()
}

/// Relies on `serde_json::from_str::<String>`: reads the whole input as one
/// JSON string literal.
#[verifier::external_body]
fn unquote(t: &str) -> (r: Option<String>)
    ensures
        match r {
            Some(s) => json_string_value(t@) == Some(s@),
            None => json_string_value(t@) is None,
        },
{
    serde_json::from_str::<String>(t).ok()
}

/// One console frame.
#[derive(Debug)]
pub enum WebsocketMessage {
    /// Keep-alive at the message layer.
    Ping,
    /// One chunk of console output, server to client.
    Log(String),
    /// One console command without its line end, client to server.
    Command(String),
}

/// A console frame as plain values.
pub enum MessageView {
    Ping,
    Log(Seq<char>),
    Command(Seq<char>),
}

impl View for WebsocketMessage {
    type V = MessageView;

    open spec fn view(&self) -> MessageView {
        match self {
            WebsocketMessage::Ping => MessageView::Ping,
            WebsocketMessage::Log(s) => MessageView::Log(s@),
            WebsocketMessage::Command(s) => MessageView::Command(s@),
        }
    }
}

/// What precedes the payload of a log frame as `encode` writes it.
pub open spec fn log_head() -> Seq<char> {
    "{\"type\":\"log\",\"data\":"@
}

/// What precedes the payload of a command frame as `encode` writes it.
pub open spec fn command_head() -> Seq<char> {
    "{\"type\":\"command\",\"data\":"@
}

/// The compact text of a frame.
pub open spec fn encode_spec(m: MessageView) -> Seq<char> {
    match m {
        MessageView::Ping => "{\"type\":\"ping\"}"@,
        MessageView::Log(s) => log_head() + json_quoted(s) + "}"@,
        MessageView::Command(s) => command_head() + json_quoted(s) + "}"@,
    }
}

/// JSON whitespace.
pub open spec fn is_ws(c: char) -> bool {
    c == ' ' || c == '\t' || c == '\n' || c == '\r'
}

/// The first position at or after `i` that holds no whitespace.
pub open spec fn skip_ws(t: Seq<char>, i: int) -> int
    decreases t.len() - i,
{
    if 0 <= i < t.len() && is_ws(t[i]) {
        skip_ws(t, i + 1)
    } else {
        i
    }
}

/// The length of `t[..j]` without its trailing whitespace.
pub open spec fn trim_end(t: Seq<char>, j: int) -> int
    decreases j,
{
    if 0 < j <= t.len() && is_ws(t[j - 1]) {
        trim_end(t, j - 1)
    } else {
        j
    }
}

/// Whether `p` stands in `t` at position `i`.
pub open spec fn lit_at(t: Seq<char>, i: int, p: Seq<char>) -> bool {
    0 <= i && i + p.len() <= t.len() && t.subrange(i, i + p.len()) == p
}

/// Whether position `i` of `t` holds `c`.
pub open spec fn char_at(t: Seq<char>, i: int, c: char) -> bool {
    0 <= i < t.len() && t[i] == c
}

/// Where the tag literal starts, when `t` opens with `{ "type" :`.
pub open spec fn tag_start(t: Seq<char>) -> Option<int> {
    let a = skip_ws(t, 0);
    if char_at(t, a, '{') {
        let b = skip_ws(t, a + 1);
        if lit_at(t, b, "\"type\""@) {
            let c = skip_ws(t, b + "\"type\""@.len());
            if char_at(t, c, ':') {
                Some(skip_ws(t, c + 1))
            } else {
                None
            }
        } else {
            None
        }
    } else {
        None
    }
}

/// Where the payload starts, when `, "data" :` follows position `i`.
pub open spec fn data_start(t: Seq<char>, i: int) -> Option<int> {
    let a = skip_ws(t, i);
    if char_at(t, a, ',') {
        let b = skip_ws(t, a + 1);
        if lit_at(t, b, "\"data\""@) {
            let c = skip_ws(t, b + "\"data\""@.len());
            if char_at(t, c, ':') {
                Some(c + 1)
            } else {
                None
            }
        } else {
            None
        }
    } else {
        None
    }
}

/// The payload string of a frame whose tag literal ends at `i`: what lies
/// between `"data":` and the closing brace, read as one JSON string.
pub open spec fn payload_of(t: Seq<char>, i: int) -> Option<Seq<char>> {
    match data_start(t, i) {
        Some(d) => {
            let e = trim_end(t, t.len() as int) - 1;
            if d <= e && char_at(t, e, '}') {
                json_string_value(t.subrange(d, e))
            } else {
                None
            }
        },
        None => None,
    }
}

/// The position of the quote that closes a JSON string literal whose
/// contents start at `j`, skipping escaped characters.
pub open spec fn literal_close(t: Seq<char>, j: int) -> Option<int>
    decreases t.len() - j,
{
    if j < 0 || j >= t.len() {
        None
    } else if t[j] == '"' {
        Some(j)
    } else if t[j] == '\\' {
        if j + 1 < t.len() {
            literal_close(t, j + 2)
        } else {
            None
        }
    } else {
        literal_close(t, j + 1)
    }
}

/// The frame of a text whose first key is `data`: `{ "data" : <string> ,
/// "type" : "log" }` or the same with `"command"`.
pub open spec fn data_first(t: Seq<char>) -> Option<MessageView> {
    let a = skip_ws(t, 0);
    if char_at(t, a, '{') {
        let b = skip_ws(t, a + 1);
        if lit_at(t, b, "\"data\""@) {
            let c = skip_ws(t, b + "\"data\""@.len());
            if char_at(t, c, ':') {
                let p = skip_ws(t, c + 1);
                if char_at(t, p, '"') {
                    match literal_close(t, p + 1) {
                        Some(q) => match json_string_value(t.subrange(p, q + 1)) {
                            Some(x) => {
                                let d = skip_ws(t, q + 1);
                                if char_at(t, d, ',') {
                                    let e = skip_ws(t, d + 1);
                                    if lit_at(t, e, "\"type\""@) {
                                        let f = skip_ws(t, e + "\"type\""@.len());
                                        if char_at(t, f, ':') {
                                            let g = skip_ws(t, f + 1);
                                            if lit_at(t, g, "\"log\""@) && closes(t, g + "\"log\""@.len()) {
                                                Some(MessageView::Log(x))
                                            } else if lit_at(t, g, "\"command\""@) && closes(
                                                t,
                                                g + "\"command\""@.len(),
                                            ) {
                                                Some(MessageView::Command(x))
                                            } else {
                                                None
                                            }
                                        } else {
                                            None
                                        }
                                    } else {
                                        None
                                    }
                                } else {
                                    None
                                }
                            },
                            None => None,
                        },
                        None => None,
                    }
                } else {
                    None
                }
            } else {
                None
            }
        } else {
            None
        }
    } else {
        None
    }
}

/// Whether, from position `i`, only a closing brace and whitespace remain.
pub open spec fn closes(t: Seq<char>, i: int) -> bool {
    let e = skip_ws(t, i);
    char_at(t, e, '}') && skip_ws(t, e + 1) == t.len()
}

/// The frame that `t` holds, if any: an object with `"type"` set to
/// `"ping"`, or to `"log"` or `"command"` beside a `data` string, in either
/// order, with JSON whitespace allowed between the tokens.
pub open spec fn decode_spec(t: Seq<char>) -> Option<MessageView> {
    match tag_start(t) {
        None => data_first(t),
        Some(s) => if lit_at(t, s, "\"ping\""@) {
            if closes(t, s + "\"ping\""@.len()) {
                Some(MessageView::Ping)
            } else {
                None
            }
        } else if lit_at(t, s, "\"log\""@) {
            match payload_of(t, s + "\"log\""@.len()) {
                Some(p) => Some(MessageView::Log(p)),
                None => None,
            }
        } else if lit_at(t, s, "\"command\""@) {
            match payload_of(t, s + "\"command\""@.len()) {
                Some(p) => Some(MessageView::Command(p)),
                None => None,
            }
        } else {
            None
        },
    }
}

fn ws_char(c: char) -> (r: bool)
    ensures
        r == is_ws(c),
{
    c == ' ' || c == '\t' || c == '\n' || c == '\r'
}

fn skip_ws_from(t: &Vec<char>, i: usize) -> (r: usize)
    requires
        i <= t@.len(),
    ensures
        r == skip_ws(t@, i as int),
        i <= r <= t@.len(),
{
    let mut j = i;
    while j < t.len() && ws_char(t[j])
        invariant
            i <= j <= t@.len(),
            skip_ws(t@, j as int) == skip_ws(t@, i as int),
        decreases t@.len() - j,
    {
        j = j + 1;
    }
    j
}

fn trim_end_len(t: &Vec<char>) -> (r: usize)
    ensures
        r == trim_end(t@, t@.len() as int),
        r <= t@.len(),
{
    let mut j = t.len();
    while j > 0 && ws_char(t[j - 1])
        invariant
            j <= t@.len(),
            trim_end(t@, j as int) == trim_end(t@, t@.len() as int),
        decreases j,
    {
        j = j - 1;
    }
    j
}

fn lit_at_exec(t: &Vec<char>, i: usize, p: &Vec<char>) -> (r: bool)
    ensures
        r == lit_at(t@, i as int, p@),
{
    let n = t.len();
    if i > n || p.len() > n - i {
        return false;
    }
    let mut k: usize = 0;
    while k < p.len()
        invariant
            n == t@.len(),
            i + p@.len() <= n,
            k <= p@.len(),
            forall|j: int| 0 <= j < k ==> t@[i + j] == p@[j],
        decreases p@.len() - k,
    {
        if t[i + k] != p[k] {
            assert(t@.subrange(i as int, i + p@.len())[k as int] != p@[k as int]);
            return false;
        }
        k = k + 1;
    }
    assert(t@.subrange(i as int, i + p@.len()) =~= p@);
    true
}

fn char_at_exec(t: &Vec<char>, i: usize, c: char) -> (r: bool)
    ensures
        r == char_at(t@, i as int, c),
{
    i < t.len() && t[i] == c
}

fn tag_start_exec(t: &Vec<char>) -> (r: Option<usize>)
    ensures
        match r {
            Some(s) => tag_start(t@) == Some(s as int) && s <= t@.len(),
            None => tag_start(t@) is None,
        },
{
    let n = t.len();
    let a = skip_ws_from(t, 0);
    if !char_at_exec(t, a, '{') {
        return None;
    }
    let b = skip_ws_from(t, a + 1);
    let ty = chars_of("\"type\"");
    if !lit_at_exec(t, b, &ty) {
        return None;
    }
    let c = skip_ws_from(t, b + ty.len());
    if !char_at_exec(t, c, ':') {
        return None;
    }
    Some(skip_ws_from(t, c + 1))
}

fn payload_exec(text: &str, t: &Vec<char>, i: usize) -> (r: Option<String>)
    requires
        t@ == text@,
        i <= t@.len(),
    ensures
        match r {
            Some(p) => payload_of(t@, i as int) == Some(p@),
            None => payload_of(t@, i as int) is None,
        },
{
    let n = t.len();
    let a = skip_ws_from(t, i);
    if !char_at_exec(t, a, ',') {
        return None;
    }
    let b = skip_ws_from(t, a + 1);
    let da = chars_of("\"data\"");
    if !lit_at_exec(t, b, &da) {
        return None;
    }
    let c = skip_ws_from(t, b + da.len());
    if !char_at_exec(t, c, ':') {
        return None;
    }
    let d = c + 1;
    let te = trim_end_len(t);
    if te == 0 {
        return None;
    }
    let e = te - 1;
    if d <= e && char_at_exec(t, e, '}') {
        unquote(text.substring_char(d, e))
    } else {
        None
    }
}

fn literal_close_exec(t: &Vec<char>, j: usize) -> (r: Option<usize>)
    ensures
        match r {
            Some(q) => literal_close(t@, j as int) == Some(q as int) && j <= q < t@.len(),
            None => literal_close(t@, j as int) is None,
        },
{
    let n = t.len();
    let mut k = j;
    while k < n
        invariant
            n == t@.len(),
            j <= k,
            literal_close(t@, k as int) == literal_close(t@, j as int),
        decreases n - k,
    {
        if t[k] == '"' {
            return Some(k);
        }
        if t[k] == '\\' {
            if k + 1 >= n {
                return None;
            }
            k = k + 2;
        } else {
            k = k + 1;
        }
    }
    None
}

fn closes_exec(t: &Vec<char>, i: usize) -> (r: bool)
    requires
        i <= t@.len(),
    ensures
        r == closes(t@, i as int),
{
    let n = t.len();
    let e = skip_ws_from(t, i);
    char_at_exec(t, e, '}') && skip_ws_from(t, e + 1) == n
}

fn data_first_exec(text: &str, t: &Vec<char>) -> (r: Option<WebsocketMessage>)
    requires
        t@ == text@,
    ensures
        match r {
            Some(m) => data_first(t@) == Some(m@),
            None => data_first(t@) is None,
        },
{
    let n = t.len();
    let a = skip_ws_from(t, 0);
    if !char_at_exec(t, a, '{') {
        return None;
    }
    let b = skip_ws_from(t, a + 1);
    let da = chars_of("\"data\"");
    if !lit_at_exec(t, b, &da) {
        return None;
    }
    let c = skip_ws_from(t, b + da.len());
    if !char_at_exec(t, c, ':') {
        return None;
    }
    let p = skip_ws_from(t, c + 1);
    if !char_at_exec(t, p, '"') {
        return None;
    }
    let q = match literal_close_exec(t, p + 1) {
        Some(q) => q,
        None => return None,
    };
    let x = match unquote(text.substring_char(p, q + 1)) {
        Some(x) => x,
        None => return None,
    };
    let d = skip_ws_from(t, q + 1);
    if !char_at_exec(t, d, ',') {
        return None;
    }
    let e = skip_ws_from(t, d + 1);
    let ty = chars_of("\"type\"");
    if !lit_at_exec(t, e, &ty) {
        return None;
    }
    let f = skip_ws_from(t, e + ty.len());
    if !char_at_exec(t, f, ':') {
        return None;
    }
    let g = skip_ws_from(t, f + 1);
    let log = chars_of("\"log\"");
    if lit_at_exec(t, g, &log) && closes_exec(t, g + log.len()) {
        return Some(WebsocketMessage::Log(x));
    }
    let command = chars_of("\"command\"");
    if lit_at_exec(t, g, &command) && closes_exec(t, g + command.len()) {
        return Some(WebsocketMessage::Command(x));
    }
    None
}

/// The compact frames are read back by `decode_spec` as what they encode.
proof fn lemma_compact_frames(m: MessageView)
    requires
        match m {
            MessageView::Log(s) => json_string_value(json_quoted(s)) == Some(s),
            MessageView::Command(s) => json_string_value(json_quoted(s)) == Some(s),
            MessageView::Ping => true,
        },
    ensures
        decode_spec(encode_spec(m)) == Some(m),
{
    reveal_strlit("{\"type\":\"ping\"}");
    reveal_strlit("{\"type\":\"log\",\"data\":");
    reveal_strlit("{\"type\":\"command\",\"data\":");
    reveal_strlit("}");
    reveal_strlit("\"type\"");
    reveal_strlit("\"data\"");
    reveal_strlit("\"ping\"");
    reveal_strlit("\"log\"");
    reveal_strlit("\"command\"");
    let t = encode_spec(m);
    assert(skip_ws(t, 0) == 0);
    assert(skip_ws(t, 1) == 1);
    assert(t.subrange(1, 7) =~= "\"type\""@);
    assert(skip_ws(t, 7) == 7);
    assert(skip_ws(t, 8) == 8);
    assert(tag_start(t) == Some(8int));
    match m {
        MessageView::Ping => {
            assert(t.subrange(8, 14) =~= "\"ping\""@);
            assert(skip_ws(t, 14) == 14);
            assert(skip_ws(t, 15) == 15);
        },
        MessageView::Log(x) => {
            let q = json_quoted(x);
            assert(!lit_at(t, 8, "\"ping\""@)) by {
                if lit_at(t, 8, "\"ping\""@) {
                    assert(t.subrange(8, 14)[1] == t[9]);
                }
            }
            assert(t.subrange(8, 13) =~= "\"log\""@);
            assert(skip_ws(t, 13) == 13);
            assert(skip_ws(t, 14) == 14);
            assert(t.subrange(14, 20) =~= "\"data\""@);
            assert(skip_ws(t, 20) == 20);
            assert(data_start(t, 13) == Some(21int));
            assert(trim_end(t, t.len() as int) == t.len());
            assert(t.subrange(21, t.len() - 1) =~= q);
        },
        MessageView::Command(x) => {
            let q = json_quoted(x);
            assert(!lit_at(t, 8, "\"ping\""@)) by {
                if lit_at(t, 8, "\"ping\""@) {
                    assert(t.subrange(8, 14)[1] == t[9]);
                }
            }
            assert(!lit_at(t, 8, "\"log\""@)) by {
                if lit_at(t, 8, "\"log\""@) {
                    assert(t.subrange(8, 13)[1] == t[9]);
                }
            }
            assert(t.subrange(8, 17) =~= "\"command\""@);
            assert(skip_ws(t, 17) == 17);
            assert(skip_ws(t, 18) == 18);
            assert(t.subrange(18, 24) =~= "\"data\""@);
            assert(skip_ws(t, 24) == 24);
            assert(data_start(t, 17) == Some(25int));
            assert(trim_end(t, t.len() as int) == t.len());
            assert(t.subrange(25, t.len() - 1) =~= q);
        },
    }
}

impl WebsocketMessage {
    /// The frame's compact text. Reading the text back gives the same frame.
    pub fn encode(&self) -> (r: String)
        ensures
            r@ == encode_spec(self@),
            decode_spec(r@) == Some(self@),
    {
        match self {
            WebsocketMessage::Ping => {
                let r = String::from_str("{\"type\":\"ping\"}");
                proof {
                    lemma_compact_frames(self@);
                }
                r
            },
            WebsocketMessage::Log(s) => {
                let q = quote(s.as_str());
                let mut r = String::from_str("{\"type\":\"log\",\"data\":");
                r.append(q.as_str());
                r.append("}");
                proof {
                    lemma_compact_frames(self@);
                }
                r
            },
            WebsocketMessage::Command(s) => {
                let q = quote(s.as_str());
                let mut r = String::from_str("{\"type\":\"command\",\"data\":");
                r.append(q.as_str());
                r.append("}");
                proof {
                    lemma_compact_frames(self@);
                }
                r
            },
        }
    }

    /// Reads a frame from its text: `None` for text that is no frame of
    /// this format, an unknown tag included.
    pub fn decode(text: &str) -> (r: Option<WebsocketMessage>)
        ensures
            match r {
                Some(m) => decode_spec(text@) == Some(m@),
                None => decode_spec(text@) is None,
            },
    {
        let t = chars_of(text);
        let n = t.len();
        let s = match tag_start_exec(&t) {
            Some(s) => s,
            None => return data_first_exec(text, &t),
        };
        let ping = chars_of("\"ping\"");
        if lit_at_exec(&t, s, &ping) {
            if closes_exec(&t, s + ping.len()) {
                return Some(WebsocketMessage::Ping);
            }
            return None;
        }
        let log = chars_of("\"log\"");
        if lit_at_exec(&t, s, &log) {
            return match payload_exec(text, &t, s + log.len()) {
                Some(p) => Some(WebsocketMessage::Log(p)),
                None => None,
            };
        }
        let command = chars_of("\"command\"");
        if lit_at_exec(&t, s, &command) {
            return match payload_exec(text, &t, s + command.len()) {
                Some(p) => Some(WebsocketMessage::Command(p)),
                None => None,
            };
        }
        None
    }
}

} // verus!
