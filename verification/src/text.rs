//! Text building: joining resolved values and quoting them for display.

use vstd::prelude::*;
use vstd::string::*;

verus! {

/// The first `n` parts joined, with `sep` between neighbours.
pub open spec fn joined_prefix(parts: Seq<Seq<char>>, sep: Seq<char>, n: nat) -> Seq<char>
    decreases n,
{
    if n == 0 {
        Seq::empty()
    } else if n == 1 {
        parts[0]
    } else {
        joined_prefix(parts, sep, (n - 1) as nat) + sep + parts[n - 1]
    }
}

/// All parts joined, with `sep` between neighbours.
pub open spec fn joined(parts: Seq<Seq<char>>, sep: Seq<char>) -> Seq<char> {
    joined_prefix(parts, sep, parts.len())
}

/// The views of the strings of a vector, in order.
pub open spec fn texts(v: Seq<String>) -> Seq<Seq<char>> {
    Seq::new(v.len(), |i: int| v[i]@)
}

/// Joins `parts` with `sep` between neighbours.
pub fn join(parts: &Vec<String>, sep: &str) -> (out: String)
    ensures
        out@ == joined(texts(parts@), sep@),
{
    let mut out = String::new();
    let mut i: usize = 0;
    while i < parts.len()
        invariant
            i <= parts.len(),
            out@ == joined_prefix(texts(parts@), sep@, i as nat),
        decreases parts.len() - i,
    {
        if i > 0 {
            out.append(sep);
        }
        out.append(parts[i].as_str());
        proof {
            assert(texts(parts@)[i as int] == parts@[i as int]@);
            if i == 0 {
                assert(Seq::<char>::empty() + parts@[0]@ =~= parts@[0]@);
            }
        }
        i = i + 1;
    }
    out
}

/// The hex digit of a value below sixteen, in lower case.
pub open spec fn nibble_text(d: nat) -> Seq<char> {
    if d < 10 {
        crate::decimal::digit_text(d)
    } else if d == 10 {
        "a"@
    } else if d == 11 {
        "b"@
    } else if d == 12 {
        "c"@
    } else if d == 13 {
        "d"@
    } else if d == 14 {
        "e"@
    } else {
        "f"@
    }
}

/// The first `n` of `bytes` in hex, two digits each.
pub open spec fn hex_prefix(bytes: Seq<u8>, n: nat) -> Seq<char>
    decreases n,
{
    if n == 0 {
        Seq::empty()
    } else {
        hex_prefix(bytes, (n - 1) as nat) + nibble_text(bytes[n - 1] as nat / 16) + nibble_text(
            bytes[n - 1] as nat % 16,
        )
    }
}

/// `bytes` in hex behind `0x`, two lower-case digits each.
pub open spec fn hex_text(bytes: Seq<u8>) -> Seq<char> {
    "0x"@ + hex_prefix(bytes, bytes.len())
}

fn nibble_str(d: u8) -> (text: &'static str)
    requires
        d < 16,
    ensures
        text@ == nibble_text(d as nat),
{
    if d == 0 {
        "0"
    } else if d == 1 {
        "1"
    } else if d == 2 {
        "2"
    } else if d == 3 {
        "3"
    } else if d == 4 {
        "4"
    } else if d == 5 {
        "5"
    } else if d == 6 {
        "6"
    } else if d == 7 {
        "7"
    } else if d == 8 {
        "8"
    } else if d == 9 {
        "9"
    } else if d == 10 {
        "a"
    } else if d == 11 {
        "b"
    } else if d == 12 {
        "c"
    } else if d == 13 {
        "d"
    } else if d == 14 {
        "e"
    } else {
        "f"
    }
}

/// Writes `bytes` in hex behind `0x`.
pub fn to_hex(bytes: &Vec<u8>) -> (out: String)
    ensures
        out@ == hex_text(bytes@),
{
    let mut out = String::from_str("0x");
    let mut i: usize = 0;
    while i < bytes.len()
        invariant
            i <= bytes.len(),
            out@ == "0x"@ + hex_prefix(bytes@, i as nat),
        decreases bytes.len() - i,
    {
        let ghost before = out@;
        out.append(nibble_str(bytes[i] / 16));
        out.append(nibble_str(bytes[i] % 16));
        proof {
            assert(out@ =~= "0x"@ + hex_prefix(bytes@, (i + 1) as nat));
        }
        i = i + 1;
    }
    out
}

/// `text` as `{:?}` writes it: in double quotes, with what needs it escaped.
pub uninterp spec fn debug_quoted(text: Seq<char>) -> Seq<char>;

/// `format!` with `{:?}` on a `str`, that is the `Debug` impl of `str`. The result
/// depends on the text alone.
#[verifier::external_body]
pub(crate) fn debug_quote(text: &str) -> (out: String)
    ensures
        out@ == debug_quoted(text@),
{
    format!("{:?}", text)
}

/// An optional name as `{:?}` writes it: `None`, or `Some(..)` around the quoted name.
pub open spec fn debug_named(name: Option<Seq<char>>) -> Seq<char> {
    match name {
        Some(n) => "Some("@ + debug_quoted(n) + ")"@,
        None => "None"@,
    }
}

/// Writes an optional name as `{:?}` would.
pub fn debug_name(name: &Option<String>) -> (out: String)
    ensures
        out@ == debug_named(
            match *name {
                Some(n) => Some(n@),
                None => None,
            },
        ),
{
    match name {
        Some(n) => String::from_str("Some(").concat(debug_quote(n.as_str()).as_str()).concat(")"),
        None => String::from_str("None"),
    }
}

} // verus!
