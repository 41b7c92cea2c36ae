//! Text of the wire envelopes: decimal numbers, quoted strings, and the
//! request envelope `{"id":..,"method":..,"params":..}`.
use vstd::prelude::*;

verus! {

/// The decimal digits, in order.
pub open spec fn decimal_digits() -> Seq<char> {
    "0123456789"@
}

/// The decimal text of a natural number, without leading zeros.
pub open spec fn decimal(n: nat) -> Seq<char>
    decreases n,
{
    if n < 10 {
        decimal_digits().subrange(n as int, n + 1 as int)
    } else {
        decimal(n / 10) + decimal_digits().subrange((n % 10) as int, (n % 10) as int + 1)
    }
}

/// The decimal text of an integer, with a leading `-` when negative.
pub open spec fn signed_decimal(n: int) -> Seq<char> {
    if n < 0 {
        "-"@ + decimal((-n) as nat)
    } else {
        decimal(n as nat)
    }
}

/// `s` as a quoted JSON string, escaped as serde_json writes it.
pub uninterp spec fn quoted(s: Seq<char>) -> Seq<char>;

/// Relies on serde_json's `to_string` for a `str`: the quoted and escaped
/// string, which depends on the text alone. Writing a `str` into memory
/// cannot fail, so the error arm is never taken.
#[verifier::external_body]
fn quote_json(s: &str) -> (r: String)
    ensures
        r@ == quoted(s@),
{
    match serde_json::to_string(s) {
        Ok(t) => t,
        Err(_) => String::new(),
    }
}

/// The text of a request envelope; `params` is the text of the parameters
/// object.
pub open spec fn request_text(id: u64, method: Seq<char>, params: Seq<char>) -> Seq<char> {
    "{\"id\":"@ + decimal(id as nat) + ",\"method\":"@ + quoted(method) + ",\"params\":"@ + params
        + "}"@
}

/// Appends the decimal text of `n`.
pub fn push_decimal(out: &mut String, n: u64)
    ensures
        final(out)@ == old(out)@ + decimal(n as nat),
    decreases n,
{
    proof {
        reveal_strlit("0123456789");
    }
    if n >= 10 {
        push_decimal(out, n / 10);
    }
    let d = (n % 10) as usize;
    out.append("0123456789".substring_char(d, d + 1));
    assert(out@ =~= old(out)@ + decimal(n as nat));
}

/// Appends the decimal text of `n`, with a leading `-` when negative.
pub fn push_signed_decimal(out: &mut String, n: i64)
    ensures
        final(out)@ == old(out)@ + signed_decimal(n as int),
{
    if n < 0 {
        out.append("-");
        let m = (0 - (n as i128)) as u64;
        push_decimal(out, m);
        assert(out@ =~= old(out)@ + signed_decimal(n as int));
    } else {
        push_decimal(out, n as u64);
    }
}

/// Appends `s` as a quoted JSON string.
pub fn push_quoted(out: &mut String, s: &str)
    ensures
        final(out)@ == old(out)@ + quoted(s@),
{
    let q = quote_json(s);
    out.append(q.as_str());
}

/// The request envelope with this id, method and parameters text.
pub fn request_frame(id: u64, method: &str, params: &str) -> (r: String)
    ensures
        r@ == request_text(id, method@, params@),
{
    let mut out = String::new();
    out.append("{\"id\":");
    push_decimal(&mut out, id);
    out.append(",\"method\":");
    push_quoted(&mut out, method);
    out.append(",\"params\":");
    out.append(params);
    out.append("}");
    assert(out@ =~= request_text(id, method@, params@));
    out
}

/// True when `a` and `b` hold the same characters.
pub fn str_eq(a: &str, b: &str) -> (r: bool)
    ensures
        r == (a@ == b@),
{
    let n = a.unicode_len();
    if n != b.unicode_len() {
        return false;
    }
    let mut i: usize = 0;
    while i < n
        invariant
            n == a@.len() == b@.len(),
            i <= n,
            a@.subrange(0, i as int) == b@.subrange(0, i as int),
        decreases n - i,
    {
        if a.get_char(i) != b.get_char(i) {
            assert(a@[i as int] != b@[i as int]);
            return false;
        }
        assert(a@.subrange(0, i + 1) =~= a@.subrange(0, i as int).push(a@[i as int]));
        assert(b@.subrange(0, i + 1) =~= b@.subrange(0, i as int).push(b@[i as int]));
        i = i + 1;
    }
    assert(a@ =~= a@.subrange(0, n as int));
    assert(b@ =~= b@.subrange(0, n as int));
    true
}

/// True when `s` ends with `suffix`.
pub fn ends_with(s: &str, suffix: &str) -> (r: bool)
    ensures
        r == (suffix@.len() <= s@.len() && s@.subrange(s@.len() - suffix@.len(), s@.len() as int)
            == suffix@),
{
    let n = s.unicode_len();
    let m = suffix.unicode_len();
    if m > n {
        return false;
    }
    str_eq(s.substring_char(n - m, n), suffix)
}

/// The texts of a sequence of strings, each quoted, separated by commas.
pub open spec fn joined_quoted(ts: Seq<Seq<char>>) -> Seq<char>
    decreases ts.len(),
{
    if ts.len() == 0 {
        Seq::empty()
    } else if ts.len() == 1 {
        quoted(ts[0])
    } else {
        joined_quoted(ts.drop_last()) + ","@ + quoted(ts.last())
    }
}

/// A JSON array of strings.
pub open spec fn array_text(ts: Seq<Seq<char>>) -> Seq<char> {
    "["@ + joined_quoted(ts) + "]"@
}

/// The characters of each string.
pub open spec fn views(v: Seq<String>) -> Seq<Seq<char>> {
    v.map_values(|s: String| s@)
}

/// Appends the strings of `v` as a JSON array.
pub fn push_array(out: &mut String, v: &Vec<String>)
    ensures
        final(out)@ == old(out)@ + array_text(views(v@)),
{
    out.append("[");
    let mut i: usize = 0;
    while i < v.len()
        invariant
            i <= v@.len(),
            out@ == old(out)@ + "["@ + joined_quoted(views(v@.subrange(0, i as int))),
        decreases v@.len() - i,
    {
        if i > 0 {
            out.append(",");
        }
        push_quoted(out, v[i].as_str());
        assert(views(v@.subrange(0, i + 1)).drop_last() =~= views(v@.subrange(0, i as int)));
        assert(views(v@.subrange(0, i + 1)).last() == v@[i as int]@);
        i = i + 1;
    }
    assert(v@.subrange(0, v@.len() as int) =~= v@);
    out.append("]");
    assert(out@ =~= old(out)@ + array_text(views(v@)));
}

} // verus!
