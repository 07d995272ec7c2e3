//! A single SQL statement and its wire form.
use vstd::prelude::*;

verus! {

/// The lower-case hexadecimal digits.
pub open spec fn hex_digits() -> Seq<char> {
    seq!['0', '1', '2', '3', '4', '5', '6', '7', '8', '9', 'a', 'b', 'c', 'd', 'e', 'f']
}

/// How a JSON string writes the character `c`: `"` and `\` behind a backslash,
/// backspace, tab, line feed, form feed and carriage return as `\b`, `\t`, `\n`,
/// `\f`, `\r`, any other control character below 0x20 as `\u00` and two hex
/// digits, and every other character as itself.
pub open spec fn escaped_char(c: char) -> Seq<char> {
    if c == '"' {
        seq!['\\', '"']
    } else if c == '\\' {
        seq!['\\', '\\']
    } else if c == '\u{8}' {
        seq!['\\', 'b']
    } else if c == '\t' {
        seq!['\\', 't']
    } else if c == '\n' {
        seq!['\\', 'n']
    } else if c == '\u{c}' {
        seq!['\\', 'f']
    } else if c == '\r' {
        seq!['\\', 'r']
    } else if (c as int) < 0x20 {
        seq!['\\', 'u', '0', '0', hex_digits()[(c as int) / 16], hex_digits()[(c as int) % 16]]
    } else {
        seq![c]
    }
}

/// The characters of `s`, each escaped as a JSON string writes it.
pub open spec fn escaped(s: Seq<char>) -> Seq<char>
    decreases s.len(),
{
    if s.len() == 0 {
        Seq::empty()
    } else {
        escaped(s.drop_last()) + escaped_char(s.last())
    }
}

/// The compact JSON text of a JSON string holding `s`: the escaped characters in quotes.
pub open spec fn json_string_literal(s: Seq<char>) -> Seq<char> {
    seq!['"'] + escaped(s) + seq!['"']
}

/// Relies on serde_json's `Display` for `Value::String`, which writes the string
/// in quotes, escaping each character as `escaped_char` says.
#[verifier::external_body]
fn json_quote(s: &str) -> (r: String)
    ensures
        r@ == json_string_literal(s@),
{
    serde_json::Value::String(s.to_string()).to_string()
}

/// The wire form of a statement whose SQL text is `q`: `{"q": <q as a JSON string>}`.
pub open spec fn encoded_statement(q: Seq<char>) -> Seq<char> {
    "{\"q\": "@ + json_string_literal(q) + "}"@
}

/// One SQL command to send to the database.
pub struct Statement {
    q: String,
}

impl View for Statement {
    type V = Seq<char>;

    /// The SQL text of the statement.
    closed spec fn view(&self) -> Seq<char> {
        self.q@
    }
}

impl Statement {
    /// A statement holding the SQL text `q`.
    pub fn new(q: &str) -> (r: Statement)
        ensures
            r@ == q@,
    {
        Statement { q: q.to_owned() }
    }

    /// The SQL text of the statement.
    pub fn sql(&self) -> (r: &str)
        ensures
            r@ == self@,
    {
        self.q.as_str()
    }

    /// The wire form of the statement, as it stands in a request body.
    pub fn encode(&self) -> (r: String)
        ensures
            r@ == encoded_statement(self@),
    {
        let quoted = json_quote(self.q.as_str());
        let mut r = String::from_str("{\"q\": ");
        r.append(quoted.as_str());
        r.append("}");
        r
    }
}

} // verus!
