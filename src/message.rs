use vstd::prelude::*;
use vstd::string::*;

verus! {

/// The text of one status line: prefix, lyric and suffix, joined as they are.
pub open spec fn message_text(prefix: Seq<char>, lyric: Seq<char>, suffix: Seq<char>) -> Seq<
    char,
> {
    prefix + lyric + suffix
}

/// Formats one status line by plain concatenation.
pub fn format_lyric(prefix: &str, lyric: &str, suffix: &str) -> (r: String)
    ensures
        r@ == message_text(prefix@, lyric@, suffix@),
{
    let r = String::from_str(prefix);
    let r = r.concat(lyric);
    r.concat(suffix)
}

/// The lower-case hexadecimal digit of `d`.
pub open spec fn hex_digit_char(d: nat) -> char {
    if d < 10 {
        digit_char(d)
    } else if d == 10 {
        'a'
    } else if d == 11 {
        'b'
    } else if d == 12 {
        'c'
    } else if d == 13 {
        'd'
    } else if d == 14 {
        'e'
    } else {
        'f'
    }
}

/// How a character stands inside a JSON string: quote and backslash take a
/// backslash, the control characters below U+0020 take their short escape or
/// `\u00XX`, every other character stands for itself.
pub open spec fn escaped_char(c: char) -> Seq<char> {
    let n = c as nat;
    if c == '"' {
        seq!['\\', '"']
    } else if c == '\\' {
        seq!['\\', '\\']
    } else if n == 0x08 {
        seq!['\\', 'b']
    } else if n == 0x09 {
        seq!['\\', 't']
    } else if n == 0x0a {
        seq!['\\', 'n']
    } else if n == 0x0c {
        seq!['\\', 'f']
    } else if n == 0x0d {
        seq!['\\', 'r']
    } else if n < 0x20 {
        seq!['\\', 'u', '0', '0', hex_digit_char(n / 16), hex_digit_char(n % 16)]
    } else {
        seq![c]
    }
}

/// The characters of `s`, each escaped for a JSON string.
pub open spec fn escaped_text(s: Seq<char>) -> Seq<char>
    decreases s.len(),
{
    if s.len() == 0 {
        seq![]
    } else {
        escaped_text(s.drop_last()) + escaped_char(s.last())
    }
}

/// The JSON string literal that encodes `s`: its escaped characters between
/// double quotes.
pub open spec fn json_quoted(s: Seq<char>) -> Seq<char> {
    seq!['"'] + escaped_text(s) + seq!['"']
}

#[verifier::external_type_specification]
#[verifier::external_body]
pub struct ExJsonError(serde_json::Error);

/// Relies on serde_json::to_string applied to a str: it writes the text as a
/// JSON string literal into a `Vec<u8>`, whose writes never fail, escaping
/// by serde_json's fixed table.
#[verifier::external_body]
fn quote_json(s: &str) -> (r: Result<String, serde_json::Error>)
    ensures
        r is Ok,
        r->Ok_0@ == json_quoted(s@),
{
    serde_json::to_string(s)
}

/// The member `"key":value` of a JSON object, `value` being JSON text already.
pub open spec fn member_text(m: (Seq<char>, Seq<char>)) -> Seq<char> {
    seq!['"'] + m.0 + seq!['"', ':'] + m.1
}

/// The members of a JSON object, separated by commas.
pub open spec fn members_text(ms: Seq<(Seq<char>, Seq<char>)>) -> Seq<char>
    decreases ms.len(),
{
    if ms.len() == 0 {
        seq![]
    } else if ms.len() == 1 {
        member_text(ms[0])
    } else {
        members_text(ms.drop_last()) + seq![','] + member_text(ms.last())
    }
}

/// A compact JSON object holding the members `ms` in order.
pub open spec fn object_text(ms: Seq<(Seq<char>, Seq<char>)>) -> Seq<char> {
    seq!['{'] + members_text(ms) + seq!['}']
}

/// The key / value texts of a list of members.
pub open spec fn pairs_view(v: Seq<(String, String)>) -> Seq<(Seq<char>, Seq<char>)> {
    v.map_values(|p: (String, String)| (p.0@, p.1@))
}

/// Writes a compact JSON object from keys and JSON-encoded values, in order.
pub fn json_object(members: &Vec<(String, String)>) -> (r: String)
    ensures
        r@ == object_text(pairs_view(members@)),
{
    let ghost ms = pairs_view(members@);
    proof {
        reveal_strlit("{");
        reveal_strlit("}");
    }
    let mut r = String::from_str("{");
    let mut i: usize = 0;
    while i < members.len()
        invariant
            0 <= i <= members@.len(),
            ms == pairs_view(members@),
            r@ == seq!['{'] + members_text(ms.take(i as int)),
        decreases members@.len() - i,
    {
        proof {
            reveal_strlit(",");
            reveal_strlit("\"");
            reveal_strlit("\":");
        }
        if i > 0 {
            r.append(",");
        }
        let ghost mid = r@;
        r.append("\"");
        r.append(members[i].0.as_str());
        r.append("\":");
        r.append(members[i].1.as_str());
        proof {
            let t = ms.take(i + 1);
            assert(ms[i as int] == (members@[i as int].0@, members@[i as int].1@));
            assert(r@ =~= mid + member_text(ms[i as int]));
            assert(t.drop_last() =~= ms.take(i as int));
            assert(r@ =~= seq!['{'] + members_text(t));
        }
        i = i + 1;
    }
    assert(ms.take(members@.len() as int) =~= ms);
    r.append("}");
    r
}

/// The character of a decimal digit.
pub open spec fn digit_char(d: nat) -> char {
    if d == 0 {
        '0'
    } else if d == 1 {
        '1'
    } else if d == 2 {
        '2'
    } else if d == 3 {
        '3'
    } else if d == 4 {
        '4'
    } else if d == 5 {
        '5'
    } else if d == 6 {
        '6'
    } else if d == 7 {
        '7'
    } else if d == 8 {
        '8'
    } else {
        '9'
    }
}

/// The decimal numeral of `n`, without leading zeros.
pub open spec fn decimal_text(n: nat) -> Seq<char>
    decreases n,
{
    if n < 10 {
        seq![digit_char(n)]
    } else {
        decimal_text(n / 10).push(digit_char(n % 10))
    }
}

fn digit_str(d: u32) -> (r: &'static str)
    requires
        d < 10,
    ensures
        r@ == seq![digit_char(d as nat)],
{
    proof {
        reveal_strlit("0");
        reveal_strlit("1");
        reveal_strlit("2");
        reveal_strlit("3");
        reveal_strlit("4");
        reveal_strlit("5");
        reveal_strlit("6");
        reveal_strlit("7");
        reveal_strlit("8");
        reveal_strlit("9");
    }
    if d == 0 {
        "0"
    } else if d == 1 {
        "1"
    } else if d == 2 {
        "2"
    } else if d == 3 {
        "3"
    } else if d == 4 {
        "4"
    } else if d == 5 {
        "5"
    } else if d == 6 {
        "6"
    } else if d == 7 {
        "7"
    } else if d == 8 {
        "8"
    } else {
        "9"
    }
}

/// Writes `n` as a decimal numeral, as JSON writes an unsigned integer.
pub fn decimal(n: u32) -> (r: String)
    ensures
        r@ == decimal_text(n as nat),
    decreases n,
{
    if n < 10 {
        String::from_str(digit_str(n))
    } else {
        let mut r = decimal(n / 10);
        r.append(digit_str(n % 10));
        r
    }
}

/// An emoji descriptor; reserved, never filled in by the feed.
#[derive(Clone, Debug, PartialEq, Eq)]
pub struct Emoji {
    pub id: String,
    pub name: String,
}

/// A status update command. Only `cmd` and `message` are filled in by the
/// feed; the other fields are reserved slots, left out of the wire form when
/// absent.
#[derive(Clone, Debug, PartialEq, Eq)]
pub struct StatusUpdateMessage {
    pub cmd: String,
    pub show_game: Option<bool>,
    pub status: Option<String>,
    pub emoji: Option<Emoji>,
    pub expires_time: Option<u32>,
    pub message: Option<String>,
}

/// The JSON text of a boolean.
pub open spec fn bool_text(b: bool) -> Seq<char> {
    if b {
        "true"@
    } else {
        "false"@
    }
}

/// The single member `(key, value)` if present, else nothing.
pub open spec fn optional_member(key: Seq<char>, value: Option<Seq<char>>) -> Seq<
    (Seq<char>, Seq<char>),
> {
    match value {
        Some(v) => seq![(key, v)],
        None => seq![],
    }
}

/// The JSON text of an optional boolean.
pub open spec fn bool_value(o: Option<bool>) -> Option<Seq<char>> {
    match o {
        Some(b) => Some(bool_text(b)),
        None => None,
    }
}

/// The JSON text of an optional string.
pub open spec fn quoted_value(o: Option<String>) -> Option<Seq<char>> {
    match o {
        Some(t) => Some(json_quoted(t@)),
        None => None,
    }
}

/// The JSON text of an optional emoji descriptor.
pub open spec fn emoji_value(o: Option<Emoji>) -> Option<Seq<char>> {
    match o {
        Some(e) => Some(emoji_text(e)),
        None => None,
    }
}

/// The JSON text of an optional unsigned integer.
pub open spec fn decimal_value(o: Option<u32>) -> Option<Seq<char>> {
    match o {
        Some(n) => Some(decimal_text(n as nat)),
        None => None,
    }
}

/// The JSON object of an emoji descriptor.
pub open spec fn emoji_text(e: Emoji) -> Seq<char> {
    object_text(seq![("id"@, json_quoted(e.id@)), ("name"@, json_quoted(e.name@))])
}

/// The members of the wire form of `m`: keys in camelCase, in field order,
/// absent fields left out.
pub open spec fn status_members(m: StatusUpdateMessage) -> Seq<(Seq<char>, Seq<char>)> {
    seq![("cmd"@, json_quoted(m.cmd@))] + optional_member(
        "showGame"@,
        bool_value(m.show_game),
    ) + optional_member(
        "status"@,
        quoted_value(m.status),
    ) + optional_member(
        "emoji"@,
        emoji_value(m.emoji),
    ) + optional_member(
        "expiresTime"@,
        decimal_value(m.expires_time),
    ) + optional_member(
        "message"@,
        quoted_value(m.message),
    )
}

/// The compact JSON wire form of `m`.
pub open spec fn status_text(m: StatusUpdateMessage) -> Seq<char> {
    object_text(status_members(m))
}

/// Quotes a text as a JSON string.
pub fn quoted(s: &str) -> (r: String)
    ensures
        r@ == json_quoted(s@),
{
    match quote_json(s) {
        Ok(q) => q,
        Err(_) => {
            proof {
                assert(false);
            }
            String::new()
        },
    }
}

/// Encodes an emoji descriptor as a JSON object.
pub fn encode_emoji(e: &Emoji) -> (r: String)
    ensures
        r@ == emoji_text(*e),
{
    let id = quoted(e.id.as_str());
    let name = quoted(e.name.as_str());
    let mut members: Vec<(String, String)> = Vec::new();
    members.push((String::from_str("id"), id));
    members.push((String::from_str("name"), name));
    let r = json_object(&members);
    assert(pairs_view(members@) =~= seq![("id"@, json_quoted(e.id@)), ("name"@, json_quoted(e.name@))]);
    r
}

/// Encodes a status update as compact JSON, fields in order, absent ones
/// left out.
pub fn encode_status(m: &StatusUpdateMessage) -> (r: String)
    ensures
        r@ == status_text(*m),
{
    let mut members: Vec<(String, String)> = Vec::new();
    let cmd = quoted(m.cmd.as_str());
    members.push((String::from_str("cmd"), cmd));
    let ghost ms = seq![("cmd"@, json_quoted(m.cmd@))];
    assert(pairs_view(members@) =~= ms);
    if let Some(b) = m.show_game {
        let v = if b {
            String::from_str("true")
        } else {
            String::from_str("false")
        };
        members.push((String::from_str("showGame"), v));
    }
    let ghost ms = ms + optional_member(
        "showGame"@,
        bool_value(m.show_game),
    );
    assert(pairs_view(members@) =~= ms);
    if let Some(t) = &m.status {
        let v = quoted(t.as_str());
        members.push((String::from_str("status"), v));
    }
    let ghost ms = ms + optional_member(
        "status"@,
        quoted_value(m.status),
    );
    assert(pairs_view(members@) =~= ms);
    if let Some(e) = &m.emoji {
        let v = encode_emoji(e);
        members.push((String::from_str("emoji"), v));
    }
    let ghost ms = ms + optional_member(
        "emoji"@,
        emoji_value(m.emoji),
    );
    assert(pairs_view(members@) =~= ms);
    if let Some(n) = m.expires_time {
        let v = decimal(n);
        members.push((String::from_str("expiresTime"), v));
    }
    let ghost ms = ms + optional_member(
        "expiresTime"@,
        decimal_value(m.expires_time),
    );
    assert(pairs_view(members@) =~= ms);
    if let Some(t) = &m.message {
        let v = quoted(t.as_str());
        members.push((String::from_str("message"), v));
    }
    let ghost ms = ms + optional_member(
        "message"@,
        quoted_value(m.message),
    );
    assert(pairs_view(members@) =~= ms);
    assert(ms =~= status_members(*m));
    json_object(&members)
}

} // verus!
