//! JSON text of request bodies. Strings are quoted by serde_json; objects,
//! arrays, booleans and numbers are framed here.
use crate::dispatch::pairs_view;
use vstd::prelude::*;

verus! {

/// The lowercase hexadecimal digit of `d`, below 16.
pub open spec fn hex_digit(d: nat) -> char {
    seq!['0', '1', '2', '3', '4', '5', '6', '7', '8', '9', 'a', 'b', 'c', 'd', 'e', 'f'][d as int]
}

/// How serde_json writes one character inside a JSON string: a quote and a
/// backslash after a backslash; backspace, tab, line feed, form feed and
/// carriage return as `\b \t \n \f \r`; any other character below U+0020
/// as `\u00` and two lowercase hexadecimal digits; every other character
/// as it is.
pub open spec fn escaped_char(c: char) -> Seq<char> {
    if c == '"' {
        seq!['\\', '"']
    } else if c == '\\' {
        seq!['\\', '\\']
    } else if c == '\u{8}' {
        seq!['\\', 'b']
    } else if c == '\t' {
        seq!['\\', 't']
    } else if c == '\n' {
        seq!['\\', 'n']
    } else if c == '\u{c}' {
        seq!['\\', 'f']
    } else if c == '\r' {
        seq!['\\', 'r']
    } else if (c as u32) < 0x20 {
        seq!['\\', 'u', '0', '0', hex_digit((c as u32 / 16) as nat), hex_digit((c as u32 % 16) as nat)]
    } else {
        seq![c]
    }
}

/// The characters of `s`, each escaped.
pub open spec fn json_escaped(s: Seq<char>) -> Seq<char>
    decreases s.len(),
{
    if s.len() == 0 {
        seq![]
    } else {
        json_escaped(s.drop_last()) + escaped_char(s.last())
    }
}

/// The JSON string literal for `s`: its escaped characters between quotes.
pub open spec fn json_quoted(s: Seq<char>) -> Seq<char> {
    seq!['"'] + json_escaped(s) + seq!['"']
}

/// Whether `c` is written inside a JSON string as it is.
pub open spec fn plain_char(c: char) -> bool {
    c != '"' && c != '\\' && (c as u32) >= 0x20
}

/// Text without quotes, backslashes and control characters is written
/// between quotes as it is.
pub proof fn plain_text_is_not_escaped(s: Seq<char>)
    requires
        forall|i: int| 0 <= i < s.len() ==> plain_char(#[trigger] s[i]),
    ensures
        json_escaped(s) == s,
        json_quoted(s) == seq!['"'] + s + seq!['"'],
    decreases s.len(),
{
    if s.len() > 0 {
        assert forall|i: int| 0 <= i < s.drop_last().len() implies plain_char(
            #[trigger] s.drop_last()[i],
        ) by {
            assert(s.drop_last()[i] == s[i]);
        }
        plain_text_is_not_escaped(s.drop_last());
        assert(plain_char(s[s.len() - 1]));
        assert(s.drop_last() + seq![s.last()] =~= s);
    }
}

/// Relies on serde_json::to_string on a `str`, which writes the characters
/// through its escape table (`format_escaped_str`) between quotes. It
/// writes into an in-memory buffer, which cannot fail.
#[verifier::external_body]
fn quote(s: &str) -> (r: String)
    ensures
        r@ == json_quoted(s@),
{
    serde_json::to_string(s).unwrap_or_default()
}

/// `parts` separated by commas.
pub open spec fn joined(parts: Seq<Seq<char>>) -> Seq<char>
    decreases parts.len(),
{
    if parts.len() == 0 {
        seq![]
    } else if parts.len() == 1 {
        parts[0]
    } else {
        joined(parts.drop_last()) + ","@ + parts.last()
    }
}

pub open spec fn object_text(members: Seq<Seq<char>>) -> Seq<char> {
    "{"@ + joined(members) + "}"@
}

pub open spec fn array_text(items: Seq<Seq<char>>) -> Seq<char> {
    "["@ + joined(items) + "]"@
}

/// One member of an object: the quoted name, a colon, the value's text.
pub open spec fn member(name: Seq<char>, value: Seq<char>) -> Seq<char> {
    json_quoted(name) + ":"@ + value
}

pub open spec fn bool_text(b: bool) -> Seq<char> {
    if b {
        "true"@
    } else {
        "false"@
    }
}

pub open spec fn digit_text(d: nat) -> Seq<char> {
    if d == 0 {
        "0"@
    } else if d == 1 {
        "1"@
    } else if d == 2 {
        "2"@
    } else if d == 3 {
        "3"@
    } else if d == 4 {
        "4"@
    } else if d == 5 {
        "5"@
    } else if d == 6 {
        "6"@
    } else if d == 7 {
        "7"@
    } else if d == 8 {
        "8"@
    } else {
        "9"@
    }
}

/// The decimal digits of `n`, without leading zeros.
pub open spec fn decimal(n: nat) -> Seq<char>
    decreases n,
{
    if n < 10 {
        digit_text(n)
    } else {
        decimal(n / 10) + digit_text(n % 10)
    }
}

/// Each string quoted as a JSON string.
pub open spec fn quoted_all(items: Seq<String>) -> Seq<Seq<char>> {
    items.map_values(|s: String| json_quoted(s@))
}

/// The texts of `items`.
pub open spec fn texts(items: Seq<String>) -> Seq<Seq<char>> {
    items.map_values(|s: String| s@)
}

/// The members of an object of strings, in the order of `entries`.
pub open spec fn string_members(entries: Seq<(Seq<char>, Seq<char>)>) -> Seq<Seq<char>> {
    entries.map_values(|p: (Seq<char>, Seq<char>)| member(p.0, json_quoted(p.1)))
}

proof fn lemma_joined_push(parts: Seq<Seq<char>>, x: Seq<char>)
    ensures
        joined(parts.push(x)) == if parts.len() == 0 {
            x
        } else {
            joined(parts) + ","@ + x
        },
{
    assert(parts.push(x).drop_last() =~= parts);
}

fn digit_str(d: u64) -> (r: &'static str)
    requires
        d < 10,
    ensures
        r@ == digit_text(d as nat),
{
    match d {
        0 => "0",
        1 => "1",
        2 => "2",
        3 => "3",
        4 => "4",
        5 => "5",
        6 => "6",
        7 => "7",
        8 => "8",
        _ => "9",
    }
}

/// The decimal text of `n`.
pub fn decimal_text(n: u64) -> (r: String)
    ensures
        r@ == decimal(n as nat),
    decreases n,
{
    if n < 10 {
        String::from_str(digit_str(n))
    } else {
        let mut s = decimal_text(n / 10);
        s.append(digit_str(n % 10));
        s
    }
}

/// A JSON object under construction, its members in the order added.
pub struct JsonObject {
    text: String,
    empty: bool,
    members: Ghost<Seq<Seq<char>>>,
}

impl View for JsonObject {
    type V = Seq<Seq<char>>;

    closed spec fn view(&self) -> Seq<Seq<char>> {
        self.members@
    }
}

impl JsonObject {
    pub closed spec fn wf(&self) -> bool {
        &&& self.text@ == "{"@ + joined(self.members@)
        &&& self.empty == (self.members@.len() == 0)
    }

    pub fn new() -> (r: JsonObject)
        ensures
            r.wf(),
            r@ == Seq::<Seq<char>>::empty(),
    {
        JsonObject { text: String::from_str("{"), empty: true, members: Ghost(Seq::empty()) }
    }

    /// Adds a member whose value is the JSON text `value`.
    pub fn raw(&mut self, name: &str, value: &str)
        requires
            old(self).wf(),
        ensures
            final(self).wf(),
            final(self)@ == old(self)@.push(member(name@, value@)),
    {
        proof {
            lemma_joined_push(self.members@, member(name@, value@));
        }
        if !self.empty {
            self.text.append(",");
        }
        let q = quote(name);
        self.text.append(q.as_str());
        self.text.append(":");
        self.text.append(value);
        self.empty = false;
        self.members = Ghost(self.members@.push(member(name@, value@)));
        assert(self.text@ =~= "{"@ + joined(self.members@));
    }

    /// Adds a member whose value is the string `value`.
    pub fn string(&mut self, name: &str, value: &str)
        requires
            old(self).wf(),
        ensures
            final(self).wf(),
            final(self)@ == old(self)@.push(member(name@, json_quoted(value@))),
    {
        let q = quote(value);
        self.raw(name, q.as_str());
    }

    /// Adds a member whose value is `true` or `false`.
    pub fn boolean(&mut self, name: &str, value: bool)
        requires
            old(self).wf(),
        ensures
            final(self).wf(),
            final(self)@ == old(self)@.push(member(name@, bool_text(value))),
    {
        if value {
            self.raw(name, "true");
        } else {
            self.raw(name, "false");
        }
    }

    /// Adds a member whose value is the number `value`.
    pub fn number(&mut self, name: &str, value: u64)
        requires
            old(self).wf(),
        ensures
            final(self).wf(),
            final(self)@ == old(self)@.push(member(name@, decimal(value as nat))),
    {
        let t = decimal_text(value);
        self.raw(name, t.as_str());
    }

    /// The object's text.
    pub fn finish(self) -> (r: String)
        requires
            self.wf(),
        ensures
            r@ == object_text(self@),
    {
        let mut t = self.text;
        t.append("}");
        assert(t@ =~= object_text(self@));
        t
    }
}


/// The texts of `parts` separated by commas.
fn join_texts(parts: &Vec<String>) -> (r: String)
    ensures
        r@ == joined(texts(parts@)),
{
    let mut t = String::new();
    let mut i: usize = 0;
    while i < parts.len()
        invariant
            i <= parts@.len(),
            t@ == joined(texts(parts@).take(i as int)),
        decreases parts@.len() - i,
    {
        proof {
            lemma_joined_push(texts(parts@).take(i as int), parts@[i as int]@);
            assert(texts(parts@).take(i as int + 1) =~= texts(parts@).take(i as int).push(
                parts@[i as int]@,
            ));
        }
        if i > 0 {
            t.append(",");
        }
        t.append(parts[i].as_str());
        i = i + 1;
    }
    assert(texts(parts@).take(parts@.len() as int) =~= texts(parts@));
    t
}

/// A JSON array of the JSON texts `items`.
pub fn raw_array(items: &Vec<String>) -> (r: String)
    ensures
        r@ == array_text(texts(items@)),
{
    let mut t = String::from_str("[");
    let inner = join_texts(items);
    t.append(inner.as_str());
    t.append("]");
    assert(t@ =~= array_text(texts(items@)));
    t
}

/// A JSON array of the strings `items`.
pub fn string_array(items: &Vec<String>) -> (r: String)
    ensures
        r@ == array_text(quoted_all(items@)),
{
    let mut quoted: Vec<String> = Vec::new();
    let mut i: usize = 0;
    while i < items.len()
        invariant
            i <= items@.len(),
            texts(quoted@) =~= quoted_all(items@).take(i as int),
        decreases items@.len() - i,
    {
        let q = quote(items[i].as_str());
        let ghost before = quoted@;
        quoted.push(q);
        assert(texts(quoted@) =~= texts(before).push(json_quoted(items@[i as int]@)));
        i = i + 1;
    }
    assert(quoted_all(items@).take(items@.len() as int) =~= quoted_all(items@));
    raw_array(&quoted)
}

/// A JSON object whose members are the names and string values of
/// `entries`, in their order.
pub fn string_object(entries: &Vec<(String, String)>) -> (r: String)
    ensures
        r@ == object_text(string_members(pairs_view(entries@))),
{
    let mut o = JsonObject::new();
    let mut i: usize = 0;
    while i < entries.len()
        invariant
            i <= entries@.len(),
            o.wf(),
            o@ =~= string_members(pairs_view(entries@)).take(i as int),
        decreases entries@.len() - i,
    {
        o.string(entries[i].0.as_str(), entries[i].1.as_str());
        i = i + 1;
    }
    assert(string_members(pairs_view(entries@)).take(entries@.len() as int) =~= string_members(
        pairs_view(entries@),
    ));
    o.finish()
}

} // verus!
