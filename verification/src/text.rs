use vstd::prelude::*;
use vstd::string::*;

verus! {

/// What `str::trim` returns for a given text: the text without its leading and
/// trailing Unicode whitespace.
pub uninterp spec fn trimmed(text: Seq<char>) -> Seq<char>;

/// What `char::is_alphanumeric` returns for a given character: whether Unicode
/// classes it as alphabetic or numeric.
pub uninterp spec fn alphanumeric(c: char) -> bool;

/// Appends one character to a string.
///
/// Wraps `String::push`, which the standard library documents as appending the
/// given `char` to the end of the string. Nothing else is claimed.
#[verifier::external_body]
pub(crate) fn push_char(text: &mut String, c: char)
    ensures
        final(text)@ == old(text)@.push(c),
{
    text.push(c)
}

/// Strips leading and trailing whitespace.
///
/// Wraps `str::trim`. The Unicode whitespace tables are not restated here: the
/// contract only gives the result its name, [`trimmed`].
#[verifier::external_body]
pub(crate) fn trim(text: &str) -> (out: &str)
    ensures
        out@ == trimmed(text@),
{
    text.trim()
}

/// Whether a character is alphabetic or numeric.
///
/// Wraps `char::is_alphanumeric`. The Unicode tables are not restated here:
/// the contract only gives the result its name, [`alphanumeric`].
#[verifier::external_body]
pub(crate) fn is_alphanumeric(c: char) -> (yes: bool)
    ensures
        yes == alphanumeric(c),
{
    c.is_alphanumeric()
}

/// The characters of `a` followed by those of `b`.
pub fn append(a: &str, b: &str) -> (out: String)
    ensures
        out@ == a@ + b@,
{
    let mut out = String::from_str(a);
    out.append(b);
    out
}

/// A name and a value, side by side.
pub fn pair(name: &str, value: &str) -> (out: (String, String))
    ensures
        out.deep_view() == (name@, value@),
{
    (String::from_str(name), String::from_str(value))
}

/// Whether two texts hold the same characters.
pub fn same_text(a: &str, b: &str) -> (same: bool)
    ensures
        same == (a@ == b@),
{
    a.to_owned() == b.to_owned()
}

/// A copy of each of the texts, in order.
pub fn copy_all(texts: &Vec<String>) -> (out: Vec<String>)
    ensures
        out.deep_view() == texts.deep_view(),
{
    let mut out: Vec<String> = Vec::new();
    let mut i: usize = 0;
    while i < texts.len()
        invariant
            i <= texts.len(),
            out.deep_view() == texts.deep_view().take(i as int),
        decreases texts.len() - i,
    {
        let ghost before = out.deep_view();
        out.push(texts[i].clone());
        assert(out.deep_view() =~= before.push(texts[i as int]@));
        assert(texts.deep_view().take(i + 1) =~= texts.deep_view().take(i as int).push(
            texts[i as int]@,
        ));
        i += 1;
    }
    assert(texts.deep_view().take(texts.len() as int) =~= texts.deep_view());
    out
}

/// The parts laid end to end with `sep` between each two neighbours.
pub open spec fn spec_join(parts: Seq<Seq<char>>, sep: Seq<char>) -> Seq<char>
    decreases parts.len(),
{
    if parts.len() == 0 {
        Seq::empty()
    } else if parts.len() == 1 {
        parts[0]
    } else {
        spec_join(parts.drop_last(), sep) + sep + parts.last()
    }
}

/// Joins `parts` with `sep` between each two neighbours.
pub fn join(parts: &Vec<String>, sep: &str) -> (out: String)
    ensures
        out@ == spec_join(parts.deep_view(), sep@),
{
    let mut out = String::new();
    let mut i: usize = 0;
    while i < parts.len()
        invariant
            i <= parts.len(),
            out@ == spec_join(parts.deep_view().take(i as int), sep@),
        decreases parts.len() - i,
    {
        if i > 0 {
            out.append(sep);
        }
        out.append(parts[i].as_str());
        proof {
            let all = parts.deep_view();
            assert(all.take(i + 1).drop_last() =~= all.take(i as int));
            assert(all.take(i + 1).last() == parts[i as int]@);
        }
        i += 1;
    }
    proof {
        assert(parts.deep_view().take(parts.len() as int) =~= parts.deep_view());
    }
    out
}

/// The character that writes the decimal digit `d`.
pub open spec fn spec_digit(d: int) -> char {
    if d == 0 {
        '0'
    } else if d == 1 {
        '1'
    } else if d == 2 {
        '2'
    } else if d == 3 {
        '3'
    } else if d == 4 {
        '4'
    } else if d == 5 {
        '5'
    } else if d == 6 {
        '6'
    } else if d == 7 {
        '7'
    } else if d == 8 {
        '8'
    } else {
        '9'
    }
}

/// The decimal numeral of `n`, without sign or leading zeros.
pub open spec fn spec_decimal(n: nat) -> Seq<char>
    decreases n,
{
    if n < 10 {
        seq![spec_digit(n as int)]
    } else {
        spec_decimal(n / 10).push(spec_digit((n % 10) as int))
    }
}

fn digit(d: u16) -> (c: char)
    requires
        d < 10,
    ensures
        c == spec_digit(d as int),
{
    if d == 0 {
        '0'
    } else if d == 1 {
        '1'
    } else if d == 2 {
        '2'
    } else if d == 3 {
        '3'
    } else if d == 4 {
        '4'
    } else if d == 5 {
        '5'
    } else if d == 6 {
        '6'
    } else if d == 7 {
        '7'
    } else if d == 8 {
        '8'
    } else {
        '9'
    }
}

/// Writes `n` as a decimal numeral.
pub fn decimal(n: u16) -> (out: String)
    ensures
        out@ == spec_decimal(n as nat),
    decreases n,
{
    let mut out = if n >= 10 {
        decimal(n / 10)
    } else {
        String::new()
    };
    push_char(&mut out, digit(n % 10));
    out
}

} // verus!
