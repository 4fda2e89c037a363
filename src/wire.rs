//! The text frames exchanged with the server: outbound requests, written as
//! JSON objects, and the reading of inbound frames.

use vstd::prelude::*;
use vstd::string::*;

use crate::topic::topic_seq;

verus! {

/// The operation that an outbound request asks of the server.
#[derive(Clone, Copy, Debug, PartialEq, Eq, Structural)]
pub enum Method {
    Subscribe,
    Unsubscribe,
    ListSubscriptions,
}

/// The wire name of a method.
pub open spec fn method_name(m: Method) -> Seq<char> {
    match m {
        Method::Subscribe => "SUBSCRIBE"@,
        Method::Unsubscribe => "UNSUBSCRIBE"@,
        Method::ListSubscriptions => "LIST_SUBSCRIPTIONS"@,
    }
}

/// The ASCII digit for a value below ten.
pub open spec fn digit_char(d: nat) -> char {
    seq!['0', '1', '2', '3', '4', '5', '6', '7', '8', '9'][d as int]
}

/// The decimal numeral of a natural number, without leading zeros.
pub open spec fn decimal(n: nat) -> Seq<char>
    decreases n,
{
    if n < 10 {
        seq![digit_char(n)]
    } else {
        decimal(n / 10).push(digit_char(n % 10))
    }
}

/// The lower-case hexadecimal digit for a value below sixteen.
pub open spec fn hex_char(d: nat) -> char {
    seq!['0', '1', '2', '3', '4', '5', '6', '7', '8', '9', 'a', 'b', 'c', 'd', 'e', 'f'][d as int]
}

/// How `serde_json` writes one character inside a string: a quote and a
/// backslash take a backslash; backspace, tab, line feed, form feed and
/// carriage return take their short escapes; any other character below
/// U+0020 becomes `\u00` and two hex digits; every other character stands
/// as it is.
pub open spec fn escape_char(c: char) -> Seq<char> {
    let n = c as u32;
    if c == '"' {
        seq!['\\', '"']
    } else if c == '\\' {
        seq!['\\', '\\']
    } else if n == 8 {
        seq!['\\', 'b']
    } else if n == 9 {
        seq!['\\', 't']
    } else if n == 10 {
        seq!['\\', 'n']
    } else if n == 12 {
        seq!['\\', 'f']
    } else if n == 13 {
        seq!['\\', 'r']
    } else if n < 32 {
        seq!['\\', 'u', '0', '0', hex_char((n / 16) as nat), hex_char((n % 16) as nat)]
    } else {
        seq![c]
    }
}

/// The characters of a string, each escaped.
pub open spec fn escaped(s: Seq<char>) -> Seq<char>
    decreases s.len(),
{
    if s.len() == 0 {
        Seq::empty()
    } else {
        escaped(s.drop_last()) + escape_char(s.last())
    }
}

/// What `serde_json` writes for a string value: the escaped characters in
/// double quotes.
pub open spec fn json_quoted(s: Seq<char>) -> Seq<char> {
    seq!['"'] + escaped(s) + seq!['"']
}

/// The quoted topics of a request, separated by commas.
pub open spec fn joined(topics: Seq<Seq<char>>) -> Seq<char>
    decreases topics.len(),
{
    if topics.len() == 0 {
        Seq::empty()
    } else if topics.len() == 1 {
        json_quoted(topics[0])
    } else {
        joined(topics.drop_last()) + ","@ + json_quoted(topics.last())
    }
}

/// The text of a request: `{"method":..,"params":[..],"id":..}`, where a
/// listing request carries no `params`.
pub open spec fn request_text(m: Method, topics: Seq<Seq<char>>, id: nat) -> Seq<char> {
    let params = if m == Method::ListSubscriptions {
        Seq::empty()
    } else {
        ",\"params\":["@ + joined(topics) + "]"@
    };
    "{\"method\":\""@ + method_name(m) + "\""@ + params + ",\"id\":"@ + decimal(id) + "}"@
}

/// A request the client has issued and that is to be written to the server.
#[derive(Clone, Debug)]
pub struct OutboundRequest {
    pub method: Method,
    pub topics: Vec<String>,
    pub id: u64,
}

impl OutboundRequest {
    /// The text this request has on the wire.
    pub open spec fn text_spec(&self) -> Seq<char> {
        request_text(self.method, topic_seq(self.topics@), self.id as nat)
    }

    /// Writes the request as a JSON text frame.
    pub fn text(&self) -> (r: String)
        ensures
            r@ == self.text_spec(),
    {
        let mut out = String::from_str("{\"method\":\"");
        match self.method {
            Method::Subscribe => out.append("SUBSCRIBE"),
            Method::Unsubscribe => out.append("UNSUBSCRIBE"),
            Method::ListSubscriptions => out.append("LIST_SUBSCRIPTIONS"),
        }
        out.append("\"");
        if self.method != Method::ListSubscriptions {
            out.append(",\"params\":[");
            write_joined(&mut out, &self.topics);
            out.append("]");
        }
        out.append(",\"id\":");
        write_decimal(&mut out, self.id);
        out.append("}");
        out
    }
}

/// Relies on `serde_json::to_string` on a `str`: the characters in double
/// quotes, escaped as `format_escaped_str` does. Serialising a `str` does not
/// fail.
#[verifier::external_body]
fn json_quote(s: &str) -> (r: String)
    ensures
        r@ == json_quoted(s@),
{
    serde_json::to_string(s).unwrap_or_default()
}

fn digit_str(d: u64) -> (r: &'static str)
    requires
        d < 10,
    ensures
        r@ == seq![digit_char(d as nat)],
{
    proof {
        reveal_strlit("0");
        reveal_strlit("1");
        reveal_strlit("2");
        reveal_strlit("3");
        reveal_strlit("4");
        reveal_strlit("5");
        reveal_strlit("6");
        reveal_strlit("7");
        reveal_strlit("8");
        reveal_strlit("9");
    }
    if d == 0 {
        "0"
    } else if d == 1 {
        "1"
    } else if d == 2 {
        "2"
    } else if d == 3 {
        "3"
    } else if d == 4 {
        "4"
    } else if d == 5 {
        "5"
    } else if d == 6 {
        "6"
    } else if d == 7 {
        "7"
    } else if d == 8 {
        "8"
    } else {
        "9"
    }
}

/// Appends the decimal numeral of `n`.
fn write_decimal(out: &mut String, n: u64)
    ensures
        final(out)@ == old(out)@ + decimal(n as nat),
    decreases n,
{
    if n < 10 {
        out.append(digit_str(n));
    } else {
        write_decimal(out, n / 10);
        out.append(digit_str(n % 10));
        assert(final(out)@ == old(out)@ + decimal(n as nat)) by {
            assert(decimal(n as nat) == decimal((n / 10) as nat).push(digit_char((n % 10) as nat)));
        }
    }
}

/// Appends the quoted topics, separated by commas.
fn write_joined(out: &mut String, topics: &Vec<String>)
    ensures
        final(out)@ == old(out)@ + joined(topic_seq(topics@)),
{
    let ghost start = out@;
    let mut i: usize = 0;
    while i < topics.len()
        invariant
            i <= topics@.len(),
            out@ == start + joined(topic_seq(topics@).take(i as int)),
        decreases topics@.len() - i,
    {
        let ghost ts = topic_seq(topics@);
        assert(ts.take(i as int + 1).drop_last() =~= ts.take(i as int));
        if i > 0 {
            out.append(",");
        }
        let q = json_quote(topics[i].as_str());
        out.append(q.as_str());
        assert(ts.take(i as int + 1).last() == ts[i as int]);
        if i == 0 {
            assert(ts.take(0) =~= Seq::<Seq<char>>::empty());
        }
        i = i + 1;
    }
    assert(topic_seq(topics@).take(i as int) =~= topic_seq(topics@));
}

/// Whether `serde_json` reads the text as one JSON value.
pub uninterp spec fn json_parses(s: Seq<char>) -> bool;

/// Whether `serde_json` reads the text as a value with a member under the key.
pub uninterp spec fn json_has_member(text: Seq<char>, key: Seq<char>) -> bool;

/// The member under the key of the value that `serde_json` reads from the
/// text, where it is an integer that fits in an `i64`.
pub uninterp spec fn json_member_i64(text: Seq<char>, key: Seq<char>) -> Option<i64>;

/// Relies on `serde_json::from_str` into a `Value` and `Value::get`: whether
/// the text is a value with a member under the key. The result depends on the
/// text and the key alone.
#[verifier::external_body]
fn has_member(text: &str, key: &str) -> (r: bool)
    ensures
        r == json_has_member(text@, key@),
{
    serde_json::from_str::<serde_json::Value>(text).ok().and_then(|v| v.get(key).cloned()).is_some()
}

/// Relies on `serde_json::from_str` into a `Value`, `Value::get` and
/// `Value::as_i64`: the member under the key, where it is an integer that fits
/// in an `i64`. The result depends on the text and the key alone.
#[verifier::external_body]
fn member_i64(text: &str, key: &str) -> (r: Option<i64>)
    ensures
        r == json_member_i64(text@, key@),
{
    serde_json::from_str::<serde_json::Value>(text).ok().and_then(|v| v.get(key).and_then(|m| m.as_i64()))
}

#[verifier::external_type_specification]
#[verifier::external_body]
pub struct ExValue(serde_json::Value);

/// Relies on `serde_json::from_str` into a `Value`: it succeeds exactly when
/// the text is one JSON value.
#[verifier::external_body]
fn parse_json(text: &str) -> (r: Option<serde_json::Value>)
    ensures
        r.is_some() == json_parses(text@),
{
    serde_json::from_str::<serde_json::Value>(text).ok()
}

/// Relies on `serde_json::Value::get`: the member of an object under a key.
#[verifier::external_body]
fn json_member(v: &serde_json::Value, key: &str) -> (r: Option<serde_json::Value>)
{
    v.get(key).cloned()
}

/// Relies on `serde_json::Value::as_i64`: a number that fits in an `i64`.
#[verifier::external_body]
fn json_as_i64(v: &serde_json::Value) -> (r: Option<i64>)
{
    v.as_i64()
}

/// Relies on `serde_json::Value::as_array`: the elements of an array.
#[verifier::external_body]
fn json_as_array(v: &serde_json::Value) -> (r: Option<Vec<serde_json::Value>>)
{
    v.as_array().cloned()
}

/// Relies on `serde_json::Value::as_str`: the characters of a string.
#[verifier::external_body]
fn json_as_str(v: &serde_json::Value) -> (r: Option<String>)
{
    v.as_str().map(|s| s.to_string())
}

/// What an inbound object that carries an `id` member says about the request
/// it answers.
#[derive(Clone, Debug)]
pub struct ApiResponse {
    /// The id, where it is an integer.
    pub id: Option<i64>,
    /// Whether the object carries an `error` member.
    pub failed: bool,
    /// The strings of a `result` array, in order; empty where there is none.
    pub listed: Vec<String>,
}

/// What an inbound text frame is.
#[derive(Clone, Debug)]
pub enum Inbound {
    /// Not a JSON value.
    Malformed,
    /// A JSON value without an `id` member: a market event or another
    /// message for the event decoder.
    Event,
    /// An answer to a request.
    Response(ApiResponse),
}

/// The strings among the elements of an array, in order.
fn strings_of(items: &Vec<serde_json::Value>) -> (r: Vec<String>)
    ensures
        r@.len() <= items@.len(),
{
    let mut out: Vec<String> = Vec::new();
    let mut i: usize = 0;
    while i < items.len()
        invariant
            i <= items@.len(),
            out@.len() <= i,
        decreases items@.len() - i,
    {
        match json_as_str(&items[i]) {
            Some(s) => out.push(s),
            None => {},
        }
        i = i + 1;
    }
    out
}

/// Whether `r` is what serde_json's reading of the text makes of it: no JSON
/// value is malformed; a value with an `id` member is a response, with that
/// id where it is an integer and failed where an `error` member is there; any
/// other value is an event.
pub open spec fn classified_as(text: Seq<char>, r: Inbound) -> bool {
    if !json_parses(text) {
        r is Malformed
    } else if !json_has_member(text, "id"@) {
        r is Event
    } else {
        &&& r matches Inbound::Response(resp)
        &&& resp.id == json_member_i64(text, "id"@)
        &&& resp.failed == json_has_member(text, "error"@)
    }
}

/// Reads an inbound text frame: a frame that is no JSON value is malformed;
/// one whose value has an `id` member is a response; any other is an event.
/// The listed strings of a response are those of its `result` array.
pub fn classify_text(text: &str) -> (r: Inbound)
    ensures
        classified_as(text@, r),
{
    let value = match parse_json(text) {
        Some(v) => v,
        None => return Inbound::Malformed,
    };
    if !has_member(text, "id") {
        return Inbound::Event;
    }
    let id = member_i64(text, "id");
    let failed = has_member(text, "error");
    let listed = match json_member(&value, "result") {
        Some(result) => match json_as_array(&result) {
            Some(items) => strings_of(&items),
            None => Vec::new(),
        },
        None => Vec::new(),
    };
    Inbound::Response(ApiResponse { id, failed, listed })
}

} // verus!
