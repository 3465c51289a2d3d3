//! The account the agent logs in with, and the file that keeps it: a
//! compact JSON object `{"username":"…","password":"…"}`.

use vstd::prelude::*;

use crate::text::{char_seq, push_chars, push_str};

verus! {

/// The account that the agent logs in with.
#[derive(Debug)]
pub struct Credentials {
    pub username: String,
    pub password: String,
}

impl Credentials {
    pub fn new(username: &str, password: &str) -> (r: Credentials)
        ensures
            r.username@ == username@,
            r.password@ == password@,
    {
        Credentials { username: username.to_string(), password: password.to_string() }
    }

    /// Credentials with an empty username and password.
    pub fn empty() -> (r: Credentials)
        ensures
            r.username@ == Seq::<char>::empty(),
            r.password@ == Seq::<char>::empty(),
    {
        Credentials { username: String::new(), password: String::new() }
    }

    /// A copy holding the same username and password.
    pub fn duplicate(&self) -> (r: Credentials)
        ensures
            r.username@ == self.username@,
            r.password@ == self.password@,
    {
        Credentials { username: self.username.clone(), password: self.password.clone() }
    }

    /// Whether either field is empty (nothing to log in with).
    pub fn is_blank(&self) -> (r: bool)
        ensures
            r == (self.username@.len() == 0 || self.password@.len() == 0),
    {
        self.username.as_str().is_empty() || self.password.as_str().is_empty()
    }
}

/// Why no credentials could be loaded.
#[derive(Debug, Clone, Copy, PartialEq, Eq, Structural)]
pub enum LoadError {
    /// There is no credentials file.
    NotSaved,
    /// The file does not hold a JSON object with a string `username` and a
    /// string `password`.
    Malformed,
}

impl LoadError {
    pub fn message(&self) -> (r: String)
        ensures
            r@ == (match self {
                LoadError::NotSaved => "Credentials not saved"@,
                LoadError::Malformed => "Credentials file is malformed"@,
            }),
    {
        match self {
            LoadError::NotSaved => "Credentials not saved".to_string(),
            LoadError::Malformed => "Credentials file is malformed".to_string(),
        }
    }
}

/// Lower-case hexadecimal digit of `d` (`d < 16`).
pub open spec fn hex_digit(d: nat) -> char {
    if d < 10 {
        ((d + 48) as u8) as char
    } else {
        ((d + 87) as u8) as char
    }
}

/// How one character is written inside a JSON string literal: quote,
/// backslash and control characters escaped, everything else as it is.
pub open spec fn escape_char(c: char) -> Seq<char> {
    if c == '"' {
        seq!['\\', '"']
    } else if c == '\\' {
        seq!['\\', '\\']
    } else if c == '\u{8}' {
        seq!['\\', 'b']
    } else if c == '\t' {
        seq!['\\', 't']
    } else if c == '\n' {
        seq!['\\', 'n']
    } else if c == '\u{c}' {
        seq!['\\', 'f']
    } else if c == '\r' {
        seq!['\\', 'r']
    } else if (c as u32) < 0x20 {
        seq!['\\', 'u', '0', '0', hex_digit((c as u32 / 16) as nat), hex_digit((c as u32 % 16) as nat)]
    } else {
        seq![c]
    }
}

/// The body of a JSON string literal holding `s`.
pub open spec fn escape_json(s: Seq<char>) -> Seq<char>
    decreases s.len(),
{
    if s.len() == 0 {
        Seq::empty()
    } else {
        escape_json(s.drop_last()) + escape_char(s.last())
    }
}

pub open spec fn open_username() -> Seq<char> {
    "{\"username\":\""@
}

pub open spec fn between_fields() -> Seq<char> {
    ",\"password\":\""@
}

pub open spec fn close_object() -> Seq<char> {
    "}"@
}

/// The text of the credentials file: `{"username":"…","password":"…"}`.
pub open spec fn credentials_text(username: Seq<char>, password: Seq<char>) -> Seq<char> {
    open_username() + escape_json(username) + "\""@ + between_fields() + escape_json(password)
        + "\""@ + close_object()
}

/// The string that the member `key` of the JSON object in `text` holds, if
/// `text` is a JSON object with such a member and that member is a string.
pub uninterp spec fn json_string_member(text: Seq<char>, key: Seq<char>) -> Option<Seq<char>>;

/// Relies on `serde_json::from_str` (parses the text as a `serde_json::Value`),
/// `serde_json::Value::get` (the member named `key`, when the value is an
/// object) and `serde_json::Value::as_str` (the string that a value holds).
#[verifier::external_body]
fn string_member(text: &str, key: &str) -> (r: Option<String>)
    ensures
        match r {
            Some(v) => json_string_member(text@, key@) == Some(v@),
            None => json_string_member(text@, key@) is None,
        },
{
    match serde_json::from_str::<serde_json::Value>(text) {
        Ok(v) => v.get(key).and_then(|m| m.as_str()).map(|m| m.to_string()),
        Err(_) => None,
    }
}

/// What loading gives for the file's contents (`None`: no file): the
/// `username` and `password` strings of the JSON object it holds.
pub open spec fn load_result(file: Option<Seq<char>>) -> Result<(Seq<char>, Seq<char>), LoadError> {
    match file {
        None => Err(LoadError::NotSaved),
        Some(t) => match (json_string_member(t, "username"@), json_string_member(t, "password"@)) {
            (Some(u), Some(p)) => Ok((u, p)),
            _ => Err(LoadError::Malformed),
        },
    }
}

fn hex_digit_exec(d: u32) -> (r: char)
    requires
        d < 16,
    ensures
        r == hex_digit(d as nat),
{
    if d < 10 {
        ((d + 48) as u8) as char
    } else {
        ((d + 87) as u8) as char
    }
}

fn push_escaped(out: &mut Vec<char>, c: char)
    ensures
        final(out)@ == old(out)@ + escape_char(c),
{
    let ghost start = out@;
    if c == '"' {
        out.push('\\');
        out.push('"');
    } else if c == '\\' {
        out.push('\\');
        out.push('\\');
    } else if c == '\u{8}' {
        out.push('\\');
        out.push('b');
    } else if c == '\t' {
        out.push('\\');
        out.push('t');
    } else if c == '\n' {
        out.push('\\');
        out.push('n');
    } else if c == '\u{c}' {
        out.push('\\');
        out.push('f');
    } else if c == '\r' {
        out.push('\\');
        out.push('r');
    } else if (c as u32) < 0x20 {
        out.push('\\');
        out.push('u');
        out.push('0');
        out.push('0');
        out.push(hex_digit_exec(c as u32 / 16));
        out.push(hex_digit_exec(c as u32 % 16));
    } else {
        out.push(c);
    }
    assert(out@ =~= start + escape_char(c));
}

/// The escaped characters of `s`, as they stand inside a JSON string literal.
fn escape_str(s: &str) -> (r: Vec<char>)
    ensures
        r@ == escape_json(s@),
{
    let v = char_seq(s);
    let mut out: Vec<char> = Vec::new();
    let mut i: usize = 0;
    while i < v.len()
        invariant
            i <= v@.len(),
            v@ == s@,
            out@ == escape_json(v@.subrange(0, i as int)),
        decreases v@.len() - i,
    {
        proof {
            assert(v@.subrange(0, i + 1).drop_last() =~= v@.subrange(0, i as int));
        }
        push_escaped(&mut out, v[i]);
        i = i + 1;
    }
    assert(v@.subrange(0, v@.len() as int) =~= v@);
    out
}

/// The text to store in the credentials file.
pub fn save_creds(creds: &Credentials) -> (r: String)
    ensures
        r@ == credentials_text(creds.username@, creds.password@),
{
    let mut s = String::new();
    push_str(&mut s, "{\"username\":\"");
    push_chars(&mut s, &escape_str(creds.username.as_str()));
    push_str(&mut s, "\"");
    push_str(&mut s, ",\"password\":\"");
    push_chars(&mut s, &escape_str(creds.password.as_str()));
    push_str(&mut s, "\"");
    push_str(&mut s, "}");
    s
}

/// Credentials from the contents of the credentials file; `None` when there
/// is no file.
pub fn load_creds(file: Option<&str>) -> (r: Result<Credentials, LoadError>)
    ensures
        match (r, load_result(
            match file {
                Some(f) => Some(f@),
                None => None,
            },
        )) {
            (Ok(c), Ok((u, p))) => c.username@ == u && c.password@ == p,
            (Err(e), Err(f)) => e == f,
            _ => false,
        },
{
    let text = match file {
        None => {
            return Err(LoadError::NotSaved);
        },
        Some(f) => f,
    };
    match (string_member(text, "username"), string_member(text, "password")) {
        (Some(username), Some(password)) => Ok(Credentials { username, password }),
        _ => Err(LoadError::Malformed),
    }
}

} // verus!
