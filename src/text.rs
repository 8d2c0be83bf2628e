//! Character-level building blocks of the project-file dialect: digits,
//! quoting and escaping.
use vstd::prelude::*;

verus! {

/// Relies on `String::push`: appends one character at the end.
#[verifier::external_body]
pub(crate) fn push_char(s: &mut String, c: char)
    ensures
        final(s)@ == old(s)@.push(c),
{
    s.push(c);
}

/// The upper-case hexadecimal digit for `d < 16`.
pub open spec fn hex_digit(d: nat) -> char {
    if d < 10 {
        ((d + 48) as u8) as char
    } else {
        ((d + 55) as u8) as char
    }
}

/// Upper-case hexadecimal digits of `v`, padded with zeros on the left to at
/// least `width` digits (the value zero with width zero has no digits).
pub open spec fn hex_padded(v: nat, width: nat) -> Seq<char>
    decreases v + width,
{
    if v == 0 && width == 0 {
        Seq::empty()
    } else {
        hex_padded(v / 16, if width > 0 { (width - 1) as nat } else { 0 }).push(hex_digit(v % 16))
    }
}

/// `16` raised to `n`.
pub open spec fn pow16(n: nat) -> nat
    decreases n,
{
    if n == 0 {
        1
    } else {
        16 * pow16((n - 1) as nat)
    }
}

/// The padded form has at least `width` digits, and exactly `width` when the
/// value fits in them.
pub proof fn lemma_hex_padded_len(v: nat, width: nat)
    ensures
        hex_padded(v, width).len() >= width,
        v < pow16(width) ==> hex_padded(v, width).len() == width,
    decreases v + width,
{
    if v == 0 && width == 0 {
    } else {
        let w = if width > 0 { (width - 1) as nat } else { 0 };
        lemma_hex_padded_len(v / 16, w);
        if v < pow16(width) && width > 0 {
            assert(v / 16 < pow16(w)) by (nonlinear_arith)
                requires
                    v < 16 * pow16(w),
            ;
        }
    }
}

proof fn lemma_hex_digit_injective(a: nat, b: nat)
    requires
        a < 16,
        b < 16,
        hex_digit(a) == hex_digit(b),
    ensures
        a == b,
{
    let x: u8 = if a < 10 { (a + 48) as u8 } else { (a + 55) as u8 };
    let y: u8 = if b < 10 { (b + 48) as u8 } else { (b + 55) as u8 };
    assert(x as char == y as char);
    assert(x as u32 == (x as char) as u32);
    assert(y as u32 == (y as char) as u32);
}

/// Values that fit in `width` digits have the same padded digits only when
/// they are equal.
pub proof fn lemma_hex_padded_injective(a: nat, b: nat, width: nat)
    requires
        a < pow16(width),
        b < pow16(width),
        hex_padded(a, width) == hex_padded(b, width),
    ensures
        a == b,
    decreases width,
{
    if width > 0 {
        let w = (width - 1) as nat;
        let pa = hex_padded(a / 16, w);
        let pb = hex_padded(b / 16, w);
        assert(hex_padded(a, width) == pa.push(hex_digit(a % 16)));
        assert(hex_padded(b, width) == pb.push(hex_digit(b % 16)));
        assert(pa =~= hex_padded(a, width).drop_last());
        assert(pb =~= hex_padded(b, width).drop_last());
        assert(hex_padded(a, width).last() == hex_digit(a % 16));
        assert(hex_padded(b, width).last() == hex_digit(b % 16));
        lemma_hex_digit_injective(a % 16, b % 16);
        assert(a / 16 < pow16(w) && b / 16 < pow16(w)) by (nonlinear_arith)
            requires
                a < 16 * pow16(w),
                b < 16 * pow16(w),
        ;
        lemma_hex_padded_injective(a / 16, b / 16, w);
        assert(a == 16 * (a / 16) + a % 16) by (nonlinear_arith);
        assert(b == 16 * (b / 16) + b % 16) by (nonlinear_arith);
    }
}

fn hex_digit_char(d: u64) -> (c: char)
    requires
        d < 16,
    ensures
        c == hex_digit(d as nat),
{
    if d < 10 {
        ((d as u8) + 48) as char
    } else {
        ((d as u8) + 55) as char
    }
}

/// Renders `v` as `hex_padded(v, width)`.
pub fn hex_string(v: u64, width: usize) -> (r: String)
    ensures
        r@ == hex_padded(v as nat, width as nat),
    decreases v as nat + width as nat,
{
    if v == 0 && width == 0 {
        String::new()
    } else {
        let w: usize = if width > 0 { width - 1 } else { 0 };
        let mut s = hex_string(v / 16, w);
        push_char(&mut s, hex_digit_char(v % 16));
        s
    }
}

/// Decimal digits of `n`, without leading zeros.
pub open spec fn decimal(n: nat) -> Seq<char>
    decreases n,
{
    if n < 10 {
        seq![hex_digit(n)]
    } else {
        decimal(n / 10).push(hex_digit(n % 10))
    }
}

/// Renders `n` in decimal.
pub fn decimal_string(n: u64) -> (r: String)
    ensures
        r@ == decimal(n as nat),
    decreases n,
{
    if n < 10 {
        let mut s = String::new();
        push_char(&mut s, hex_digit_char(n));
        proof {
            assert(s@ =~= seq![hex_digit(n as nat)]);
        }
        s
    } else {
        let mut s = decimal_string(n / 10);
        push_char(&mut s, hex_digit_char(n % 10));
        s
    }
}

/// How one character stands inside a quoted string: quotes, backslashes and
/// line feeds take a backslash escape, everything else stands as it is.
pub open spec fn escaped_char(c: char) -> Seq<char> {
    if c == '"' {
        seq!['\\', '"']
    } else if c == '\\' {
        seq!['\\', '\\']
    } else if c == '\n' {
        seq!['\\', 'n']
    } else {
        seq![c]
    }
}

/// Every character of `s` escaped, in order.
pub open spec fn escaped(s: Seq<char>) -> Seq<char>
    decreases s.len(),
{
    if s.len() == 0 {
        Seq::empty()
    } else {
        escaped(s.drop_last()) + escaped_char(s.last())
    }
}

/// `s` as a quoted string of the property-list dialect.
pub open spec fn quoted(s: Seq<char>) -> Seq<char> {
    seq!['"'] + escaped(s) + seq!['"']
}

fn push_escaped_char(out: &mut String, c: char)
    ensures
        final(out)@ == old(out)@ + escaped_char(c),
{
    if c == '"' {
        push_char(out, '\\');
        push_char(out, '"');
    } else if c == '\\' {
        push_char(out, '\\');
        push_char(out, '\\');
    } else if c == '\n' {
        push_char(out, '\\');
        push_char(out, 'n');
    } else {
        push_char(out, c);
    }
    proof {
        assert(final(out)@ =~= old(out)@ + escaped_char(c));
    }
}

/// Renders `s` as `quoted(s@)`.
pub fn quote(s: &str) -> (r: String)
    ensures
        r@ == quoted(s@),
{
    let n = s.unicode_len();
    let mut body = String::new();
    let mut i: usize = 0;
    while i < n
        invariant
            n == s@.len(),
            i <= n,
            body@ == escaped(s@.take(i as int)),
        decreases n - i,
    {
        let c = s.get_char(i);
        push_escaped_char(&mut body, c);
        proof {
            assert(s@.take(i + 1).drop_last() =~= s@.take(i as int));
        }
        i = i + 1;
    }
    proof {
        assert(s@.take(n as int) =~= s@);
    }
    let mut r = String::new();
    push_char(&mut r, '"');
    r.append(body.as_str());
    push_char(&mut r, '"');
    proof {
        assert(r@ =~= quoted(s@));
    }
    r
}


/// Whether two strings hold the same characters.
pub fn same_text(a: &str, b: &str) -> (r: bool)
    ensures
        r == (a@ == b@),
{
    let n = a.unicode_len();
    let m = b.unicode_len();
    if n != m {
        return false;
    }
    let mut i: usize = 0;
    while i < n
        invariant
            n == a@.len(),
            m == b@.len(),
            n == m,
            i <= n,
            a@.take(i as int) == b@.take(i as int),
        decreases n - i,
    {
        if a.get_char(i) != b.get_char(i) {
            assert(a@[i as int] != b@[i as int]);
            return false;
        }
        assert(a@.take(i + 1) =~= a@.take(i as int).push(a@[i as int]));
        assert(b@.take(i + 1) =~= b@.take(i as int).push(b@[i as int]));
        i = i + 1;
    }
    assert(a@.take(n as int) =~= a@);
    assert(b@.take(n as int) =~= b@);
    true
}

/// `s` with every hyphen replaced by an underscore.
pub open spec fn underscored(s: Seq<char>) -> Seq<char> {
    s.map_values(|c: char| if c == '-' { '_' } else { c })
}

/// Renders `underscored(s@)`.
pub fn underscore(s: &str) -> (r: String)
    ensures
        r@ == underscored(s@),
{
    let n = s.unicode_len();
    let mut r = String::new();
    let mut i: usize = 0;
    while i < n
        invariant
            n == s@.len(),
            i <= n,
            r@ == underscored(s@.take(i as int)),
        decreases n - i,
    {
        let c = s.get_char(i);
        push_char(&mut r, if c == '-' { '_' } else { c });
        assert(underscored(s@.take(i + 1)) =~= underscored(s@.take(i as int)).push(
            if c == '-' { '_' } else { c },
        ));
        i = i + 1;
    }
    assert(s@.take(n as int) =~= s@);
    r
}

/// The parts joined with commas between them.
pub open spec fn comma_joined(parts: Seq<Seq<char>>) -> Seq<char>
    decreases parts.len(),
{
    if parts.len() == 0 {
        Seq::empty()
    } else if parts.len() == 1 {
        parts[0]
    } else {
        comma_joined(parts.drop_last()) + seq![','] + parts.last()
    }
}

/// The views of a list of strings.
pub open spec fn texts(v: Seq<String>) -> Seq<Seq<char>> {
    v.map_values(|s: String| s@)
}

/// Renders `comma_joined` of the parts.
pub fn join_commas(parts: &Vec<String>) -> (r: String)
    ensures
        r@ == comma_joined(texts(parts@)),
{
    let mut r = String::new();
    let mut i: usize = 0;
    while i < parts.len()
        invariant
            i <= parts@.len(),
            r@ == comma_joined(texts(parts@.take(i as int))),
        decreases parts@.len() - i,
    {
        let ghost before = r@;
        if i > 0 {
            push_char(&mut r, ',');
        }
        r.append(parts[i].as_str());
        proof {
            let t = texts(parts@.take(i + 1));
            assert(t.drop_last() =~= texts(parts@.take(i as int)));
            assert(t.last() == parts@[i as int]@);
            if i == 0 {
                assert(r@ =~= t[0]);
            } else {
                assert(r@ =~= before + seq![','] + parts@[i as int]@);
            }
        }
        i = i + 1;
    }
    assert(parts@.take(parts@.len() as int) =~= parts@);
    r
}

} // verus!
