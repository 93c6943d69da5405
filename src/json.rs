//! Pieces of JSON text: string literals, integers and the fields of a
//! top-level object.
use vstd::prelude::*;

verus! {

/// The JSON string literal for `s`: its characters between double quotes,
/// with quotes, backslashes and control characters escaped.
pub uninterp spec fn json_quoted(s: Seq<char>) -> Seq<char>;

/// Relies on `serde_json::to_string` applied to a `str`: it writes the JSON
/// string literal for the text, and writing into memory cannot fail.
#[verifier::external_body]
pub(crate) fn quote(s: &str) -> (r: String)
    ensures
        r@ == json_quoted(s@),
{
    serde_json::to_string(s).unwrap_or_default()
}

/// The decimal digit for `d < 10`.
pub open spec fn digit_char(d: nat) -> char {
    if d == 0 { '0' }
    else if d == 1 { '1' }
    else if d == 2 { '2' }
    else if d == 3 { '3' }
    else if d == 4 { '4' }
    else if d == 5 { '5' }
    else if d == 6 { '6' }
    else if d == 7 { '7' }
    else if d == 8 { '8' }
    else { '9' }
}

/// The decimal text of `n`, without leading zeros.
pub open spec fn decimal(n: nat) -> Seq<char>
    decreases n,
{
    if n < 10 {
        seq![digit_char(n)]
    } else {
        decimal(n / 10) + seq![digit_char(n % 10)]
    }
}

/// The decimal text of a signed integer, with a minus sign when negative.
pub open spec fn signed_decimal(n: int) -> Seq<char> {
    if n < 0 {
        seq!['-'] + decimal((-n) as nat)
    } else {
        decimal(n as nat)
    }
}

fn digit_text(d: usize) -> (r: &'static str)
    requires
        d < 10,
    ensures
        r@ == seq![digit_char(d as nat)],
{
    proof {
        reveal_strlit("0");
        reveal_strlit("1");
        reveal_strlit("2");
        reveal_strlit("3");
        reveal_strlit("4");
        reveal_strlit("5");
        reveal_strlit("6");
        reveal_strlit("7");
        reveal_strlit("8");
        reveal_strlit("9");
    }
    if d == 0 { "0" }
    else if d == 1 { "1" }
    else if d == 2 { "2" }
    else if d == 3 { "3" }
    else if d == 4 { "4" }
    else if d == 5 { "5" }
    else if d == 6 { "6" }
    else if d == 7 { "7" }
    else if d == 8 { "8" }
    else { "9" }
}

/// Writes `n` in decimal.
pub fn decimal_text(n: usize) -> (r: String)
    ensures
        r@ == decimal(n as nat),
    decreases n,
{
    if n < 10 {
        String::from_str(digit_text(n))
    } else {
        let mut s = decimal_text(n / 10);
        s.append(digit_text(n % 10));
        s
    }
}

/// Writes `n` in decimal, with a minus sign when negative.
pub fn signed_decimal_text(n: i8) -> (r: String)
    ensures
        r@ == signed_decimal(n as int),
{
    if n < 0 {
        let magnitude: usize = (0i16 - n as i16) as usize;
        let mut s = String::from_str("-");
        proof {
            reveal_strlit("-");
        }
        let digits = decimal_text(magnitude);
        s.append(digits.as_str());
        s
    } else {
        decimal_text(n as usize)
    }
}

/// One member of a top-level JSON object: its key, and its value when that
/// value is a string.
pub struct Field {
    pub key: String,
    pub text: Option<String>,
}

/// A member as plain values.
pub open spec fn field_view(f: Field) -> (Seq<char>, Option<Seq<char>>) {
    (f.key@, match f.text {
        Some(t) => Some(t@),
        None => None,
    })
}

pub open spec fn fields_view(fs: Seq<Field>) -> Seq<(Seq<char>, Option<Seq<char>>)> {
    fs.map_values(|f: Field| field_view(f))
}

/// The members of the JSON object that `line` holds, each key once, or
/// `None` when `line` is not a JSON object.
pub uninterp spec fn object_members(line: Seq<char>) -> Option<Seq<(Seq<char>, Option<Seq<char>>)>>;

/// Relies on `serde_json::from_str` into a `serde_json::Map`: it accepts
/// exactly the texts that hold one JSON object, and yields its members, each
/// key once; a member's text is kept when its value is a string.
#[verifier::external_body]
pub(crate) fn parse_object(line: &str) -> (r: Option<Vec<Field>>)
    ensures
        r is None ==> object_members(line@) is None,
        r is Some ==> object_members(line@) == Some(fields_view(r->0@)),
{
    match serde_json::from_str::<serde_json::Map<String, serde_json::Value>>(line) {
        Ok(m) => Some(m.into_iter().map(|(key, v)| Field {
            key,
            text: match v {
                serde_json::Value::String(t) => Some(t),
                _ => None,
            },
        }).collect()),
        Err(_) => None,
    }
}

/// What the first member named `key` holds: `None` when there is none,
/// `Some(None)` when its value is not a string.
pub open spec fn member(fs: Seq<(Seq<char>, Option<Seq<char>>)>, key: Seq<char>) -> Option<Option<Seq<char>>>
    decreases fs.len(),
{
    if fs.len() == 0 {
        None
    } else if fs[0].0 == key {
        Some(fs[0].1)
    } else {
        member(fs.drop_first(), key)
    }
}

/// The string held by the member named `key`, if there is one and it is a
/// string.
pub open spec fn string_member(fs: Seq<(Seq<char>, Option<Seq<char>>)>, key: Seq<char>) -> Option<Seq<char>> {
    match member(fs, key) {
        Some(Some(t)) => Some(t),
        _ => None,
    }
}

/// Finds the string held by the member named `key`.
pub fn find_string(fields: &Vec<Field>, key: &String) -> (r: Option<String>)
    ensures
        match r {
            Some(t) => string_member(fields_view(fields@), key@) == Some(t@),
            None => string_member(fields_view(fields@), key@) is None,
        },
{
    let ghost all = fields_view(fields@);
    assert(all.subrange(0, all.len() as int) =~= all);
    let mut i: usize = 0;
    while i < fields.len()
        invariant
            i <= fields.len(),
            all == fields_view(fields@),
            member(all, key@) == member(all.subrange(i as int, all.len() as int), key@),
        decreases fields.len() - i,
    {
        let ghost rest = all.subrange(i as int, all.len() as int);
        assert(rest[0] == field_view(fields@[i as int]));
        if fields[i].key == *key {
            return match &fields[i].text {
                Some(t) => Some(t.clone()),
                None => None,
            };
        }
        assert(rest.drop_first() =~= all.subrange(i + 1, all.len() as int));
        i = i + 1;
    }
    assert(all.subrange(i as int, all.len() as int).len() == 0);
    None
}

} // verus!
