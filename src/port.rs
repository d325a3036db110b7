//! Reading the port that a freshly spawned backend announces in its rendezvous file,
//! and writing the endpoint address that a connection is made to.
use vstd::prelude::*;
use vstd::string::StrSliceExecFns;

verus! {

/// Characters with the Unicode `White_Space` property, as `char::is_whitespace` defines them.
pub open spec fn is_white_space(c: char) -> bool {
    let u = c as u32;
    (0x09 <= u && u <= 0x0d) || u == 0x20 || u == 0x85 || u == 0xa0 || u == 0x1680 || (0x2000
        <= u && u <= 0x200a) || u == 0x2028 || u == 0x2029 || u == 0x202f || u == 0x205f || u
        == 0x3000
}

pub open spec fn is_digit(c: char) -> bool {
    '0' as u32 <= c as u32 && c as u32 <= '9' as u32
}

pub open spec fn digit_value(c: char) -> nat {
    (c as u32 - '0' as u32) as nat
}

/// Index of the first character at or after `i` that is not white space.
pub open spec fn skip_white(s: Seq<char>, i: int) -> int
    decreases s.len() - i,
{
    if 0 <= i < s.len() && is_white_space(s[i]) {
        skip_white(s, i + 1)
    } else {
        i
    }
}

/// End of `s[lo..j]` once white space at its end is dropped.
pub open spec fn skip_white_back(s: Seq<char>, lo: int, j: int) -> int
    decreases j - lo,
{
    if lo < j && is_white_space(s[j - 1]) {
        skip_white_back(s, lo, j - 1)
    } else {
        j
    }
}

/// `s` without leading and trailing white space.
pub open spec fn trimmed(s: Seq<char>) -> Seq<char> {
    let lo = skip_white(s, 0);
    s.subrange(lo, skip_white_back(s, lo, s.len() as int))
}

/// The number that a string of decimal digits writes.
pub open spec fn digits_value(d: Seq<char>) -> nat
    decreases d.len(),
{
    if d.len() == 0 {
        0
    } else {
        digits_value(d.drop_last()) * 10 + digit_value(d.last())
    }
}

pub open spec fn all_digits(d: Seq<char>) -> bool {
    forall|i: int| 0 <= i < d.len() ==> is_digit(#[trigger] d[i])
}

/// `t` without a leading `+`.
pub open spec fn unsigned_digits(t: Seq<char>) -> Seq<char> {
    if t.len() > 0 && t[0] == '+' {
        t.drop_first()
    } else {
        t
    }
}

/// What `u16::from_str` reads: an optional `+`, then one or more decimal digits whose
/// value fits in 16 bits.
pub open spec fn u16_text(t: Seq<char>) -> Option<u16> {
    let d = unsigned_digits(t);
    if d.len() > 0 && all_digits(d) && digits_value(d) <= 0xffff {
        Some(digits_value(d) as u16)
    } else {
        None
    }
}

/// The port that rendezvous text announces: the text with surrounding white space
/// removed, read as a 16-bit decimal number.
pub open spec fn port_of(s: Seq<char>) -> Option<u16> {
    u16_text(trimmed(s))
}

fn skip_white_exec(s: &str, len: usize) -> (lo: usize)
    requires
        len == s@.len(),
    ensures
        lo as int == skip_white(s@, 0),
        lo <= len,
{
    let mut i: usize = 0;
    while i < len && is_white_space_exec(s.get_char(i))
        invariant
            len == s@.len(),
            i <= len,
            skip_white(s@, i as int) == skip_white(s@, 0),
        decreases len - i,
    {
        i = i + 1;
    }
    i
}

fn skip_white_back_exec(s: &str, lo: usize, len: usize) -> (hi: usize)
    requires
        len == s@.len(),
        lo <= len,
    ensures
        hi as int == skip_white_back(s@, lo as int, len as int),
        lo <= hi <= len,
{
    let mut j: usize = len;
    while lo < j && is_white_space_exec(s.get_char(j - 1))
        invariant
            len == s@.len(),
            lo <= j <= len,
            skip_white_back(s@, lo as int, j as int) == skip_white_back(
                s@,
                lo as int,
                len as int,
            ),
        decreases j - lo,
    {
        j = j - 1;
    }
    j
}

fn is_white_space_exec(c: char) -> (r: bool)
    ensures
        r == is_white_space(c),
{
    let u = c as u32;
    (0x09 <= u && u <= 0x0d) || u == 0x20 || u == 0x85 || u == 0xa0 || u == 0x1680 || (0x2000
        <= u && u <= 0x200a) || u == 0x2028 || u == 0x2029 || u == 0x202f || u == 0x205f || u
        == 0x3000
}

/// Reads a port from rendezvous text: surrounding white space is ignored and the rest
/// must be a decimal number of at most 65535, optionally preceded by `+`.
pub fn parse_port(s: &str) -> (r: Option<u16>)
    ensures
        r == port_of(s@),
{
    let len = s.unicode_len();
    let lo = skip_white_exec(s, len);
    let hi = skip_white_back_exec(s, lo, len);
    let ghost t = s@.subrange(lo as int, hi as int);
    assert(trimmed(s@) == t);
    let mut k: usize = lo;
    if k < hi && s.get_char(k) == '+' {
        k = k + 1;
    }
    let start = k;
    let ghost d = s@.subrange(start as int, hi as int);
    assert(d == unsigned_digits(t));
    if start == hi {
        return None;
    }
    // The value read so far, held at 65536 once it is larger than any port.
    let mut acc: u32 = 0;
    while k < hi
        invariant
            s@.len() == len,
            start <= k <= hi <= len,
            d == s@.subrange(start as int, hi as int),
            t == trimmed(s@),
            d == unsigned_digits(t),
            d.len() > 0,
            forall|i: int| start <= i < k ==> is_digit(#[trigger] s@[i]),
            acc as nat == if digits_value(s@.subrange(start as int, k as int)) < 0x10000 {
                digits_value(s@.subrange(start as int, k as int))
            } else {
                0x10000
            },
        decreases hi - k,
    {
        let c = s.get_char(k);
        if !(('0' as u32) <= (c as u32) && (c as u32) <= ('9' as u32)) {
            assert(d[k - start] == c);
            assert(!is_digit(d[k - start]));
            assert(!all_digits(d));
            return None;
        }
        let ghost prev = s@.subrange(start as int, k as int);
        let ghost next = s@.subrange(start as int, k + 1);
        assert(next.drop_last() == prev);
        assert(next.last() == c);
        let v = (c as u32) - ('0' as u32);
        if acc >= 0x10000 || acc * 10 + v >= 0x10000 {
            assert(digits_value(next) >= 0x10000) by (nonlinear_arith)
                requires
                    digits_value(next) == digits_value(prev) * 10 + v,
                    acc >= 0x10000 || acc * 10 + v >= 0x10000,
                    acc == if digits_value(prev) < 0x10000 { digits_value(prev) } else { 0x10000 },
            ;
            acc = 0x10000;
        } else {
            acc = acc * 10 + v;
        }
        k = k + 1;
    }
    assert(s@.subrange(start as int, hi as int) == d);
    assert forall|i: int| 0 <= i < d.len() implies is_digit(#[trigger] d[i]) by {
        assert(d[i] == s@[start + i]);
    }
    assert(all_digits(d));
    if acc < 0x10000 {
        Some(acc as u16)
    } else {
        None
    }
}

/// The character of a decimal digit.
pub open spec fn digit_char(d: nat) -> char {
    ((d + '0' as u32) as u32) as char
}

/// A number written in decimal, without leading zeros.
pub open spec fn decimal(n: nat) -> Seq<char>
    decreases n,
{
    if n < 10 {
        seq![digit_char(n)]
    } else {
        decimal(n / 10).push(digit_char(n % 10))
    }
}

/// The address that the backend listening on `port` is reached at.
pub open spec fn endpoint_text(port: u16) -> Seq<char> {
    "http://localhost:"@ + decimal(port as nat)
}

fn digit_str(d: u16) -> (r: &'static str)
    requires
        d < 10,
    ensures
        r@ == seq![digit_char(d as nat)],
{
    proof {
        reveal_strlit("0");
        reveal_strlit("1");
        reveal_strlit("2");
        reveal_strlit("3");
        reveal_strlit("4");
        reveal_strlit("5");
        reveal_strlit("6");
        reveal_strlit("7");
        reveal_strlit("8");
        reveal_strlit("9");
    }
    let r = match d {
        0 => "0",
        1 => "1",
        2 => "2",
        3 => "3",
        4 => "4",
        5 => "5",
        6 => "6",
        7 => "7",
        8 => "8",
        _ => "9",
    };
    assert(r@ =~= seq![digit_char(d as nat)]);
    r
}

fn push_decimal(out: &mut String, n: u16)
    ensures
        final(out)@ == old(out)@ + decimal(n as nat),
    decreases n,
{
    if n >= 10 {
        push_decimal(out, n / 10);
    }
    out.append(digit_str(n % 10));
    assert(out@ =~= old(out)@ + decimal(n as nat));
}

/// Writes the address of the backend that listens on `port`: `http://localhost:<port>`.
pub fn endpoint_address(port: u16) -> (r: String)
    ensures
        r@ == endpoint_text(port),
{
    let mut out = String::from_str("http://localhost:");
    push_decimal(&mut out, port);
    out
}

} // verus!
