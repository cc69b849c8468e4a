//! Text of property values.

use vstd::prelude::*;
use vstd::string::{StringExecFns, StringSliceAdditionalSpecFns};

verus! {

/// The character of a decimal digit.
pub open spec fn digit_char(d: int) -> char {
    ((48 + d) as u8) as char
}

/// The decimal form of a byte, without leading zeros.
pub open spec fn decimal(n: u8) -> Seq<char> {
    let n = n as int;
    if n >= 100 {
        seq![digit_char(n / 100), digit_char((n / 10) % 10), digit_char(n % 10)]
    } else if n >= 10 {
        seq![digit_char(n / 10), digit_char(n % 10)]
    } else {
        seq![digit_char(n)]
    }
}

/// The one-character text of a decimal digit.
fn digit_text(d: u8) -> (r: &'static str)
    requires
        d < 10,
    ensures
        r@ == seq![digit_char(d as int)],
{
    proof {
        reveal_strlit("0");
        reveal_strlit("1");
        reveal_strlit("2");
        reveal_strlit("3");
        reveal_strlit("4");
        reveal_strlit("5");
        reveal_strlit("6");
        reveal_strlit("7");
        reveal_strlit("8");
        reveal_strlit("9");
    }
    match d {
        0 => "0",
        1 => "1",
        2 => "2",
        3 => "3",
        4 => "4",
        5 => "5",
        6 => "6",
        7 => "7",
        8 => "8",
        _ => "9",
    }
}

/// The decimal text of a byte.
pub fn decimal_text(n: u8) -> (r: String)
    ensures
        r@ == decimal(n),
{
    let mut s = String::new();
    if n >= 100 {
        s.append(digit_text(n / 100));
    }
    if n >= 10 {
        s.append(digit_text((n / 10) % 10));
    }
    s.append(digit_text(n % 10));
    assert(s@ =~= decimal(n));
    s
}

/// Items joined by commas.
pub open spec fn joined(items: Seq<Seq<char>>) -> Seq<char>
    decreases items.len(),
{
    if items.len() == 0 {
        Seq::empty()
    } else if items.len() == 1 {
        items[0]
    } else {
        joined(items.drop_last()) + ","@ + items.last()
    }
}

/// The views of a list of texts.
pub open spec fn views_of(items: Seq<&str>) -> Seq<Seq<char>> {
    items.map_values(|t: &str| t@)
}

/// The items joined by commas.
pub fn join_comma(items: &Vec<&str>) -> (r: String)
    ensures
        r@ == joined(views_of(items@)),
{
    let mut s = String::new();
    let mut i: usize = 0;
    while i < items.len()
        invariant
            i <= items@.len(),
            s@ == joined(views_of(items@.subrange(0, i as int))),
        decreases items@.len() - i,
    {
        if i > 0 {
            s.append(",");
        }
        s.append(items[i]);
        i += 1;
        assert(views_of(items@.subrange(0, i as int)).drop_last() =~= views_of(
            items@.subrange(0, i - 1),
        ));
    }
    assert(items@.subrange(0, i as int) =~= items@);
    s
}

/// The character of a hexadecimal digit, in upper or lower case.
pub open spec fn hex_char(n: int, upper: bool) -> char {
    if n < 10 {
        ((48 + n) as u8) as char
    } else if upper {
        ((55 + n) as u8) as char
    } else {
        ((87 + n) as u8) as char
    }
}

/// Two hexadecimal digits for each byte.
pub open spec fn hex_of(data: Seq<u8>, upper: bool) -> Seq<char>
    decreases data.len(),
{
    if data.len() == 0 {
        Seq::empty()
    } else {
        hex_of(data.drop_last(), upper) + seq![
            hex_char(data.last() as int / 16, upper),
            hex_char(data.last() as int % 16, upper),
        ]
    }
}

/// The one-character text of a hexadecimal digit.
fn hex_digit_text(n: u8, upper: bool) -> (r: &'static str)
    requires
        n < 16,
    ensures
        r@ == seq![hex_char(n as int, upper)],
{
    proof {
        reveal_strlit("0");
        reveal_strlit("1");
        reveal_strlit("2");
        reveal_strlit("3");
        reveal_strlit("4");
        reveal_strlit("5");
        reveal_strlit("6");
        reveal_strlit("7");
        reveal_strlit("8");
        reveal_strlit("9");
        reveal_strlit("a");
        reveal_strlit("b");
        reveal_strlit("c");
        reveal_strlit("d");
        reveal_strlit("e");
        reveal_strlit("f");
        reveal_strlit("A");
        reveal_strlit("B");
        reveal_strlit("C");
        reveal_strlit("D");
        reveal_strlit("E");
        reveal_strlit("F");
    }
    if upper {
        match n {
            0 => "0",
            1 => "1",
            2 => "2",
            3 => "3",
            4 => "4",
            5 => "5",
            6 => "6",
            7 => "7",
            8 => "8",
            9 => "9",
            10 => "A",
            11 => "B",
            12 => "C",
            13 => "D",
            14 => "E",
            _ => "F",
        }
    } else {
        match n {
            0 => "0",
            1 => "1",
            2 => "2",
            3 => "3",
            4 => "4",
            5 => "5",
            6 => "6",
            7 => "7",
            8 => "8",
            9 => "9",
            10 => "a",
            11 => "b",
            12 => "c",
            13 => "d",
            14 => "e",
            _ => "f",
        }
    }
}

/// Appends two hexadecimal digits for each byte.
pub fn append_hex(s: &mut String, data: &[u8], upper: bool)
    ensures
        final(s)@ == old(s)@ + hex_of(data@, upper),
{
    let mut i: usize = 0;
    while i < data.len()
        invariant
            i <= data@.len(),
            s@ == old(s)@ + hex_of(data@.subrange(0, i as int), upper),
        decreases data@.len() - i,
    {
        s.append(hex_digit_text(data[i] / 16, upper));
        s.append(hex_digit_text(data[i] % 16, upper));
        i += 1;
        assert(data@.subrange(0, i as int).drop_last() =~= data@.subrange(0, i - 1));
    }
    assert(data@.subrange(0, i as int) =~= data@);
}

/// Two lower-case hexadecimal digits for each byte.
pub fn encode(data: &[u8]) -> (r: String)
    ensures
        r@ == hex_of(data@, false),
{
    let mut s = String::new();
    append_hex(&mut s, data, false);
    s
}

/// Whether `p` occurs in `s` at byte offset `i`.
pub open spec fn occurs_at(s: Seq<u8>, p: Seq<u8>, i: int) -> bool {
    0 <= i && i + p.len() <= s.len() && s.subrange(i, i + p.len()) == p
}

fn bytes_at(s: &[u8], p: &[u8], i: usize) -> (r: bool)
    requires
        i + p@.len() <= s@.len(),
    ensures
        r == occurs_at(s@, p@, i as int),
{
    let n = s.len();
    let mut j: usize = 0;
    while j < p.len()
        invariant
            n == s@.len(),
            i + p@.len() <= s@.len(),
            j <= p@.len(),
            forall|k: int| 0 <= k < j ==> s@[i + k] == p@[k],
        decreases p@.len() - j,
    {
        if s[i + j] != p[j] {
            assert(s@.subrange(i as int, i + p@.len())[j as int] != p@[j as int]);
            return false;
        }
        j += 1;
    }
    assert(s@.subrange(i as int, i + p@.len()) =~= p@);
    true
}

/// Whether the bytes of `s` begin with those of `p`, as `str::starts_with`.
pub fn starts_with(s: &str, p: &str) -> (r: bool)
    ensures
        r == occurs_at(s.spec_bytes(), p.spec_bytes(), 0),
{
    let sb = s.as_bytes();
    let pb = p.as_bytes();
    if pb.len() > sb.len() {
        return false;
    }
    bytes_at(sb, pb, 0)
}

/// Whether the bytes of `s` end with those of `p`, as `str::ends_with`.
pub fn ends_with(s: &str, p: &str) -> (r: bool)
    ensures
        r == occurs_at(s.spec_bytes(), p.spec_bytes(), s.spec_bytes().len() - p.spec_bytes().len()),
{
    let sb = s.as_bytes();
    let pb = p.as_bytes();
    if pb.len() > sb.len() {
        return false;
    }
    bytes_at(sb, pb, sb.len() - pb.len())
}

/// Whether the bytes of `p` occur in those of `s`, as `str::contains`.
pub fn contains(s: &str, p: &str) -> (r: bool)
    ensures
        r == exists|i: int| occurs_at(s.spec_bytes(), p.spec_bytes(), i),
{
    let sb = s.as_bytes();
    let pb = p.as_bytes();
    if pb.len() > sb.len() {
        return false;
    }
    let last = sb.len() - pb.len();
    let mut i: usize = 0;
    loop
        invariant
            pb@.len() <= sb@.len(),
            last == sb@.len() - pb@.len(),
            sb@ == s.spec_bytes(),
            pb@ == p.spec_bytes(),
            i <= last,
            forall|k: int| 0 <= k < i ==> !occurs_at(sb@, pb@, k),
        decreases last - i,
    {
        if bytes_at(sb, pb, i) {
            return true;
        }
        if i == last {
            return false;
        }
        i += 1;
    }
}

/// The name of a truth value.
pub open spec fn bool_name(b: bool) -> Seq<char> {
    if b {
        "true"@
    } else {
        "false"@
    }
}

/// The text of a truth value.
pub fn bool_text(b: bool) -> (r: String)
    ensures
        r@ == bool_name(b),
{
    if b {
        text("true")
    } else {
        text("false")
    }
}

/// Owned texts joined by commas.
pub fn join_strings(items: &Vec<String>) -> (r: String)
    ensures
        r@ == joined(items@.map_values(|t: String| t@)),
{
    let mut s = String::new();
    let mut i: usize = 0;
    while i < items.len()
        invariant
            i <= items@.len(),
            s@ == joined(items@.subrange(0, i as int).map_values(|t: String| t@)),
        decreases items@.len() - i,
    {
        if i > 0 {
            s.append(",");
        }
        s.append(items[i].as_str());
        i += 1;
        assert(items@.subrange(0, i as int).map_values(|t: String| t@).drop_last() =~= items@.subrange(
            0,
            i - 1,
        ).map_values(|t: String| t@));
    }
    assert(items@.subrange(0, i as int) =~= items@);
    s
}

/// The text of a literal, as an owned string.
pub fn text(s: &str) -> (r: String)
    ensures
        r@ == s@,
{
    s.to_owned()
}

} // verus!
