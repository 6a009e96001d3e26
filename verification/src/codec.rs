//! Structured encoding of the JSON request bodies.
//!
//! Bodies are built byte by byte against a spec-level grammar: every string
//! field is escaped per the JSON string grammar (quote, backslash, and
//! control bytes), and numbers are printed in decimal. Hand-formatted
//! interpolation never touches the wire, so an embedded quote or control
//! character in an email, password or description cannot corrupt a body.

use vstd::prelude::*;
use vstd::assert_seqs_equal;

use crate::models::{Expense, LoginBody};

verus! {

use vstd::arithmetic::div_mod::lemma_fundamental_div_mod;
use vstd::utf8::encode_utf8;

/// The lowercase hex digit for a nibble.
pub open spec fn hex_digit(n: u8) -> u8
    recommends
        n < 16,
{
    if n < 10 {
        (0x30 + n) as u8
    } else {
        (0x57 + n) as u8
    }
}

/// Is this byte a lowercase hex digit?
pub open spec fn is_hex_byte(b: u8) -> bool {
    (0x30 <= b <= 0x39) || (0x61 <= b <= 0x66)
}

/// The nibble a lowercase hex digit denotes.
pub open spec fn hex_value(b: u8) -> u8
    recommends
        is_hex_byte(b),
{
    if b <= 0x39 {
        (b - 0x30) as u8
    } else {
        (b - 0x57) as u8
    }
}

/// How one byte appears inside a JSON string literal: a quote or backslash
/// is backslash-escaped, a control byte becomes `\u00XX`, anything else
/// stands for itself.
pub open spec fn escape_byte(b: u8) -> Seq<u8> {
    if b == 0x22 {
        seq![0x5cu8, 0x22u8]
    } else if b == 0x5c {
        seq![0x5cu8, 0x5cu8]
    } else if b < 0x20 {
        seq![0x5cu8, 0x75u8, 0x30u8, 0x30u8, hex_digit(b / 16), hex_digit(b % 16)]
    } else {
        seq![b]
    }
}

/// The JSON string-literal form of a byte sequence.
pub open spec fn escape_bytes(s: Seq<u8>) -> Seq<u8>
    decreases s.len(),
{
    if s.len() == 0 {
        Seq::empty()
    } else {
        escape_byte(s[0]) + escape_bytes(s.drop_first())
    }
}

/// Escaping a sequence extended by one byte appends that byte's escape.
proof fn lemma_escape_snoc(s: Seq<u8>, b: u8)
    ensures
        escape_bytes(s.push(b)) == escape_bytes(s) + escape_byte(b),
    decreases s.len(),
{
    let sp = s.push(b);
    if s.len() == 0 {
        assert(sp[0] == b);
        assert(sp.drop_first() =~= Seq::<u8>::empty());
        assert(escape_bytes(sp) == escape_byte(b) + escape_bytes(Seq::<u8>::empty()));
        assert(escape_bytes(Seq::<u8>::empty()) =~= Seq::<u8>::empty());
        assert(escape_bytes(sp) =~= escape_byte(b));
        assert(escape_bytes(s) + escape_byte(b) =~= escape_byte(b));
    } else {
        assert(sp[0] == s[0]);
        assert(sp.drop_first() =~= s.drop_first().push(b));
        lemma_escape_snoc(s.drop_first(), b);
        assert(escape_bytes(sp) == escape_byte(s[0]) + (escape_bytes(s.drop_first())
            + escape_byte(b)));
        assert(escape_byte(s[0]) + (escape_bytes(s.drop_first()) + escape_byte(b)) =~= (escape_byte(
            s[0],
        ) + escape_bytes(s.drop_first())) + escape_byte(b));
        assert(escape_bytes(s) == escape_byte(s[0]) + escape_bytes(s.drop_first()));
    }
}

/// The exec hex digit.
fn hex_digit_of(n: u8) -> (r: u8)
    requires
        n < 16,
    ensures
        r == hex_digit(n),
{
    if n < 10 {
        0x30 + n
    } else {
        0x57 + n
    }
}

/// Appends the JSON string-literal escape of `s` to `out`.
pub fn escape_into(out: &mut Vec<u8>, s: &[u8])
    ensures
        final(out)@ == old(out)@ + escape_bytes(s@),
{
    let mut i: usize = 0;
    while i < s.len()
        invariant
            i <= s@.len(),
            out@ == old(out)@ + escape_bytes(s@.subrange(0, i as int)),
        decreases s@.len() - i,
    {
        let b = s[i];
        let ghost prefix = s@.subrange(0, i as int);
        let ghost before = out@;
        proof {
            lemma_escape_snoc(prefix, b);
            assert_seqs_equal!(s@.subrange(0, i + 1 as int) == prefix.push(b));
        }
        if b == 0x22 {
            out.push(0x5c);
            out.push(0x22);
        } else if b == 0x5c {
            out.push(0x5c);
            out.push(0x5c);
        } else if b < 0x20 {
            out.push(0x5c);
            out.push(0x75);
            out.push(0x30);
            out.push(0x30);
            out.push(hex_digit_of(b / 16));
            out.push(hex_digit_of(b % 16));
        } else {
            out.push(b);
        }
        proof {
            assert_seqs_equal!(out@ == before + escape_byte(b));
            assert_seqs_equal!(out@ == old(out)@ + escape_bytes(s@.subrange(0, i + 1 as int)));
        }
        i = i + 1;
    }
    proof {
        assert_seqs_equal!(s@.subrange(0, s@.len() as int) == s@);
    }
}

/// A sequence of ASCII characters, one byte each.
pub open spec fn ascii_bytes(s: Seq<char>) -> Seq<u8> {
    Seq::new(s.len(), |i: int| s[i] as u8)
}

/// Appends the bytes of an ASCII string to `out`.
pub fn push_ascii(out: &mut Vec<u8>, s: &str)
    requires
        s.is_ascii(),
    ensures
        final(out)@ == old(out)@ + ascii_bytes(s@),
{
    let n = s.unicode_len();
    let mut i: usize = 0;
    while i < n
        invariant
            s.is_ascii(),
            n == s@.len(),
            i <= n,
            out@ == old(out)@ + ascii_bytes(s@).subrange(0, i as int),
        decreases n - i,
    {
        out.push(s.get_ascii(i));
        proof {
            assert_seqs_equal!(out@ == old(out)@ + ascii_bytes(s@).subrange(0, i + 1 as int));
        }
        i = i + 1;
    }
    proof {
        assert_seqs_equal!(ascii_bytes(s@).subrange(0, s@.len() as int) == ascii_bytes(s@));
    }
}

/// The decimal digits of a natural number, most significant first.
pub open spec fn dec_digits(n: nat) -> Seq<u8>
    decreases n,
{
    if n < 10 {
        seq![(0x30 + n) as u8]
    } else {
        dec_digits(n / 10).push((0x30 + n % 10) as u8)
    }
}

/// The decimal form of an integer: a minus sign for negatives, then digits.
pub open spec fn int_digits(n: int) -> Seq<u8> {
    if n < 0 {
        seq![0x2du8] + dec_digits((-n) as nat)
    } else {
        dec_digits(n as nat)
    }
}

/// Appends the decimal digits of `n` to `out`.
fn push_u64_dec(out: &mut Vec<u8>, n: u64)
    ensures
        final(out)@ == old(out)@ + dec_digits(n as nat),
    decreases n,
{
    if n < 10 {
        out.push(0x30 + (n as u8));
        proof {
            assert_seqs_equal!(out@ == old(out)@ + dec_digits(n as nat));
        }
    } else {
        push_u64_dec(out, n / 10);
        out.push(0x30 + ((n % 10) as u8));
        proof {
            assert_seqs_equal!(out@ == old(out)@ + dec_digits(n as nat));
        }
    }
}

/// Prepends a byte to a successfully decoded tail.
pub open spec fn uncons(b: u8, rest: Option<Seq<u8>>) -> Option<Seq<u8>> {
    match rest {
        Some(t) => Some(seq![b] + t),
        None => None,
    }
}

/// Decodes a JSON string-literal body back to raw bytes: the inverse of
/// `escape_bytes`. `None` on an ill-formed escape or a raw quote or control
/// byte.
pub open spec fn unescape_bytes(s: Seq<u8>) -> Option<Seq<u8>>
    decreases s.len(),
{
    if s.len() == 0 {
        Some(Seq::empty())
    } else if s[0] == 0x5c {
        if s.len() >= 2 && s[1] == 0x22 {
            uncons(0x22, unescape_bytes(s.skip(2)))
        } else if s.len() >= 2 && s[1] == 0x5c {
            uncons(0x5c, unescape_bytes(s.skip(2)))
        } else if s.len() >= 6 && s[1] == 0x75 && s[2] == 0x30 && s[3] == 0x30 && is_hex_byte(s[4])
            && is_hex_byte(s[5]) {
            uncons((16 * hex_value(s[4]) + hex_value(s[5])) as u8, unescape_bytes(s.skip(6)))
        } else {
            None
        }
    } else if s[0] == 0x22 || s[0] < 0x20 {
        None
    } else {
        uncons(s[0], unescape_bytes(s.skip(1)))
    }
}

/// A hex digit printed for a nibble reads back as that nibble.
proof fn lemma_hex_digit_value(n: u8)
    requires
        n < 16,
    ensures
        is_hex_byte(hex_digit(n)),
        hex_value(hex_digit(n)) == n,
{
}

/// Round trip: decoding an escaped byte sequence gives back exactly the
/// bytes that were escaped. A string field written into a request body and
/// read back is therefore preserved byte for byte — in particular a
/// category identifier survives a fetch-then-create cycle unchanged.
pub proof fn lemma_unescape_escape(s: Seq<u8>)
    ensures
        unescape_bytes(escape_bytes(s)) == Some(s),
    decreases s.len(),
{
    if s.len() == 0 {
    } else {
        let b = s[0];
        let tail = escape_bytes(s.drop_first());
        let e = escape_bytes(s);
        assert(e == escape_byte(b) + tail);
        lemma_unescape_escape(s.drop_first());
        if b == 0x22 {
            assert(e.len() >= 2 && e[0] == 0x5c && e[1] == 0x22);
            assert(e.skip(2) =~= tail);
            assert(seq![b] + s.drop_first() =~= s);
        } else if b == 0x5c {
            assert(e.len() >= 2 && e[0] == 0x5c && e[1] == 0x5c);
            assert(e.skip(2) =~= tail);
            assert(seq![b] + s.drop_first() =~= s);
        } else if b < 0x20 {
            lemma_hex_digit_value(b / 16);
            lemma_hex_digit_value(b % 16);
            lemma_fundamental_div_mod(b as int, 16);
            assert(e.len() >= 6 && e[0] == 0x5c && e[1] == 0x75 && e[2] == 0x30 && e[3] == 0x30);
            assert(e[4] == hex_digit(b / 16) && e[5] == hex_digit(b % 16));
            assert((16 * hex_value(e[4]) + hex_value(e[5])) as u8 == b);
            assert(e.skip(6) =~= tail);
            assert(seq![b] + s.drop_first() =~= s);
        } else {
            assert(e[0] == b);
            assert(e.skip(1) =~= tail);
            assert(seq![b] + s.drop_first() =~= s);
        }
    }
}

/// Appends the decimal form of `n`, sign included, to `out`.
pub fn push_i32_dec(out: &mut Vec<u8>, n: i32)
    ensures
        final(out)@ == old(out)@ + int_digits(n as int),
{
    if n < 0 {
        out.push(0x2d);
        let m: u64 = (-(n as i64)) as u64;
        push_u64_dec(out, m);
        proof {
            assert_seqs_equal!(out@ == old(out)@ + int_digits(n as int));
        }
    } else {
        push_u64_dec(out, n as u64);
    }
}

/// The exec test for a lowercase hex digit.
fn is_hex_byte_of(b: u8) -> (r: bool)
    ensures
        r == is_hex_byte(b),
{
    (0x30 <= b && b <= 0x39) || (0x61 <= b && b <= 0x66)
}

/// The exec nibble of a lowercase hex digit.
fn hex_value_of(b: u8) -> (r: u8)
    requires
        is_hex_byte(b),
    ensures
        r == hex_value(b),
        r < 16,
{
    if b <= 0x39 {
        b - 0x30
    } else {
        b - 0x57
    }
}

/// Decodes a JSON string-literal body back to the raw bytes it denotes: the
/// executable inverse of `escape_into`. `None` exactly on input that is no
/// valid string-literal body.
pub fn unescape(s: &[u8]) -> (r: Option<Vec<u8>>)
    ensures
        r matches Some(v) ==> unescape_bytes(s@) == Some(v@),
        r is None ==> unescape_bytes(s@) is None,
{
    let mut out: Vec<u8> = Vec::new();
    let n = s.len();
    let mut i: usize = 0;
    proof {
        assert(s@.skip(0) =~= s@);
        let whole = unescape_bytes(s@);
        if whole is Some {
            assert(Seq::<u8>::empty() + whole->Some_0 =~= whole->Some_0);
        }
    }
    while i < n
        invariant
            n == s@.len(),
            i <= n,
            unescape_bytes(s@) == (match unescape_bytes(s@.skip(i as int)) {
                Some(t) => Some(out@ + t),
                None => None::<Seq<u8>>,
            }),
        decreases n - i,
    {
        let ghost rest = s@.skip(i as int);
        let ghost acc = out@;
        let b = s[i];
        proof {
            assert(rest[0] == b);
        }
        if b == 0x5c {
            if i + 1 == n {
                proof {
                    assert(rest.len() == 1);
                    assert(unescape_bytes(rest) is None);
                }
                return None;
            }
            let c = s[i + 1];
            proof {
                assert(rest[1] == c);
            }
            if c == 0x22 || c == 0x5c {
                out.push(c);
                proof {
                    assert(rest.skip(2) =~= s@.skip(i + 2 as int));
                    assert(unescape_bytes(rest) == uncons(c, unescape_bytes(rest.skip(2))));
                    let ghost tail_res = unescape_bytes(rest.skip(2));
                    if tail_res is Some {
                        assert(acc + (seq![c] + tail_res->Some_0) =~= out@ + tail_res->Some_0);
                    }
                }
                i = i + 2;
            } else if c == 0x75 {
                if n - i < 6 {
                    proof {
                        assert(rest.len() < 6);
                        assert(unescape_bytes(rest) is None);
                    }
                    return None;
                }
                let d2 = s[i + 2];
                let d3 = s[i + 3];
                let d4 = s[i + 4];
                let d5 = s[i + 5];
                proof {
                    assert(rest[2] == d2 && rest[3] == d3 && rest[4] == d4 && rest[5] == d5);
                }
                if d2 != 0x30 || d3 != 0x30 || !is_hex_byte_of(d4) || !is_hex_byte_of(d5) {
                    proof {
                        assert(unescape_bytes(rest) is None);
                    }
                    return None;
                }
                let decoded = 16 * hex_value_of(d4) + hex_value_of(d5);
                out.push(decoded);
                proof {
                    assert(rest.skip(6) =~= s@.skip(i + 6 as int));
                    assert(unescape_bytes(rest) == uncons(decoded, unescape_bytes(rest.skip(6))));
                    let ghost tail_res = unescape_bytes(rest.skip(6));
                    if tail_res is Some {
                        assert(acc + (seq![decoded] + tail_res->Some_0) =~= out@ + tail_res->Some_0);
                    }
                }
                i = i + 6;
            } else {
                proof {
                    assert(unescape_bytes(rest) is None);
                }
                return None;
            }
        } else if b == 0x22 || b < 0x20 {
            proof {
                assert(unescape_bytes(rest) is None);
            }
            return None;
        } else {
            out.push(b);
            proof {
                assert(rest.skip(1) =~= s@.skip(i + 1 as int));
                assert(unescape_bytes(rest) == uncons(b, unescape_bytes(rest.skip(1))));
                let ghost tail_res = unescape_bytes(rest.skip(1));
                if tail_res is Some {
                    assert(acc + (seq![b] + tail_res->Some_0) =~= out@ + tail_res->Some_0);
                }
            }
            i = i + 1;
        }
    }
    proof {
        assert(s@.skip(n as int) =~= Seq::<u8>::empty());
        assert(unescape_bytes(Seq::<u8>::empty()) == Some(Seq::<u8>::empty()));
        assert(out@ + Seq::<u8>::empty() =~= out@);
    }
    Some(out)
}

/// The characters of an optional string; absent means empty.
pub open spec fn opt_view(o: Option<String>) -> Seq<char> {
    match o {
        Some(s) => s@,
        None => Seq::empty(),
    }
}

/// The wire form of a login body: a JSON object with the email and password
/// as escaped string fields.
pub open spec fn login_body_spec(email: Seq<u8>, password: Seq<u8>) -> Seq<u8> {
    ascii_bytes("{\"email\":\""@) + escape_bytes(email) + ascii_bytes("\",\"password\":\""@)
        + escape_bytes(password) + ascii_bytes("\"}"@)
}

/// Builds the login request body. Email and password travel as escaped JSON
/// strings, so embedded quotes or control characters cannot break the body.
pub fn login_body(credentials: &LoginBody) -> (r: Vec<u8>)
    ensures
        r@ == login_body_spec(
            encode_utf8(credentials.email@),
            encode_utf8(credentials.password@),
        ),
{
    proof {
        reveal_strlit("{\"email\":\"");
        reveal_strlit("\",\"password\":\"");
        reveal_strlit("\"}");
    }
    let mut out: Vec<u8> = Vec::new();
    push_ascii(&mut out, "{\"email\":\"");
    escape_into(&mut out, credentials.email.as_str().as_bytes());
    push_ascii(&mut out, "\",\"password\":\"");
    escape_into(&mut out, credentials.password.as_str().as_bytes());
    push_ascii(&mut out, "\"}");
    proof {
        assert(out@ =~= login_body_spec(
            encode_utf8(credentials.email@),
            encode_utf8(credentials.password@),
        ));
    }
    out
}

/// The wire form of an expense-creation body: category id, date and
/// description as escaped JSON strings, the amount in decimal.
pub open spec fn expense_body_spec(
    category_id: Seq<u8>,
    date: Seq<u8>,
    amount: int,
    description: Seq<u8>,
) -> Seq<u8> {
    ascii_bytes("{\"category_id\":\""@) + escape_bytes(category_id) + ascii_bytes(
        "\",\"date\":\""@,
    ) + escape_bytes(date) + ascii_bytes("\",\"amount\":"@) + int_digits(amount) + ascii_bytes(
        ",\"description\":\""@,
    ) + escape_bytes(description) + ascii_bytes("\"}"@)
}

/// Appends the escaped bytes of an optional string; absent contributes
/// nothing, exactly like an empty string.
fn escape_opt_into(out: &mut Vec<u8>, field: &Option<String>)
    ensures
        final(out)@ == old(out)@ + escape_bytes(encode_utf8(opt_view(*field))),
{
    match field {
        Some(s) => {
            escape_into(out, s.as_str().as_bytes());
        },
        None => {
            proof {
                assert(encode_utf8(opt_view(*field)) =~= Seq::<u8>::empty());
                assert(escape_bytes(Seq::<u8>::empty()) =~= Seq::<u8>::empty());
                assert(out@ =~= out@ + escape_bytes(encode_utf8(opt_view(*field))));
            }
        },
    }
}

/// Builds the expense-creation request body. An absent date or description
/// is written as the empty string, as the submission endpoint expects.
pub fn expense_body(expense: &Expense) -> (r: Vec<u8>)
    ensures
        r@ == expense_body_spec(
            encode_utf8(expense.category_id@),
            encode_utf8(opt_view(expense.date)),
            expense.amount as int,
            encode_utf8(opt_view(expense.description)),
        ),
{
    proof {
        reveal_strlit("{\"category_id\":\"");
        reveal_strlit("\",\"date\":\"");
        reveal_strlit("\",\"amount\":");
        reveal_strlit(",\"description\":\"");
        reveal_strlit("\"}");
    }
    let mut out: Vec<u8> = Vec::new();
    push_ascii(&mut out, "{\"category_id\":\"");
    escape_into(&mut out, expense.category_id.as_str().as_bytes());
    push_ascii(&mut out, "\",\"date\":\"");
    escape_opt_into(&mut out, &expense.date);
    push_ascii(&mut out, "\",\"amount\":");
    push_i32_dec(&mut out, expense.amount);
    push_ascii(&mut out, ",\"description\":\"");
    escape_opt_into(&mut out, &expense.description);
    push_ascii(&mut out, "\"}");
    proof {
        assert(out@ =~= expense_body_spec(
            encode_utf8(expense.category_id@),
            encode_utf8(opt_view(expense.date)),
            expense.amount as int,
            encode_utf8(opt_view(expense.description)),
        ));
    }
    out
}

} // verus!
