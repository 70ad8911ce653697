//! Decimal text for integers: rendering them, as `to_string` does, and
//! reading them back, as `str::parse` does.

use vstd::prelude::*;

verus! {

/// The character of the decimal digit `d`.
pub open spec fn digit_char(d: nat) -> char {
    (d + 48) as char
}

/// Whether `c` is one of the ASCII digits `0` to `9`.
pub open spec fn is_digit(c: char) -> bool {
    '0' <= c && c <= '9'
}

/// The value of the ASCII digit `c`.
pub open spec fn digit_value(c: char) -> nat {
    (c as int - 48) as nat
}

/// The shortest decimal text of `n`: no sign, no leading zeros.
pub open spec fn decimal(n: nat) -> Seq<char>
    decreases n,
{
    if n < 10 {
        seq![digit_char(n)]
    } else {
        decimal(n / 10).push(digit_char(n % 10))
    }
}

/// The text of a signed integer: a minus sign before the magnitude when negative.
pub open spec fn signed_decimal(i: int) -> Seq<char> {
    if i < 0 {
        seq!['-'] + decimal((-i) as nat)
    } else {
        decimal(i as nat)
    }
}

/// Whether every character of `s` is an ASCII digit.
pub open spec fn all_digits(s: Seq<char>) -> bool {
    forall|i: int| 0 <= i < s.len() ==> #[trigger] is_digit(s[i])
}

/// The number that the digits `s` spell, most significant first.
pub open spec fn digits_value(s: Seq<char>) -> nat
    decreases s.len(),
{
    if s.len() == 0 {
        0
    } else {
        digits_value(s.drop_last()) * 10 + digit_value(s.last())
    }
}

/// The text after an optional leading `+`.
pub open spec fn unsigned_digits(s: Seq<char>) -> Seq<char> {
    if s.len() > 0 && s[0] == '+' {
        s.drop_first()
    } else {
        s
    }
}

/// What `str::parse::<u64>` gives: an optional `+` and then one or more
/// ASCII digits whose value fits in a `u64`; anything else is refused.
pub open spec fn parsed_u64(s: Seq<char>) -> Option<u64> {
    let d = unsigned_digits(s);
    if d.len() > 0 && all_digits(d) && digits_value(d) <= u64::MAX {
        Some(digits_value(d) as u64)
    } else {
        None
    }
}

/// What parsing a Discord snowflake id gives: a `u64` as above that is not zero.
pub open spec fn parsed_id(s: Seq<char>) -> Option<u64> {
    match parsed_u64(s) {
        Some(n) => if n != 0 { Some(n) } else { None },
        None => None,
    }
}

fn digit_text(d: u64) -> (s: &'static str)
    requires
        d < 10,
    ensures
        s@ == seq![digit_char(d as nat)],
{
    if d == 0 {
        proof { reveal_strlit("0"); }
        "0"
    } else if d == 1 {
        proof { reveal_strlit("1"); }
        "1"
    } else if d == 2 {
        proof { reveal_strlit("2"); }
        "2"
    } else if d == 3 {
        proof { reveal_strlit("3"); }
        "3"
    } else if d == 4 {
        proof { reveal_strlit("4"); }
        "4"
    } else if d == 5 {
        proof { reveal_strlit("5"); }
        "5"
    } else if d == 6 {
        proof { reveal_strlit("6"); }
        "6"
    } else if d == 7 {
        proof { reveal_strlit("7"); }
        "7"
    } else if d == 8 {
        proof { reveal_strlit("8"); }
        "8"
    } else {
        proof { reveal_strlit("9"); }
        "9"
    }
}

/// Renders `n` in decimal, as `n.to_string()` does.
pub fn u64_to_string(n: u64) -> (s: String)
    ensures
        s@ == decimal(n as nat),
    decreases n,
{
    if n < 10 {
        let mut s = String::new();
        s.append(digit_text(n));
        s
    } else {
        let mut s = u64_to_string(n / 10);
        s.append(digit_text(n % 10));
        s
    }
}

/// Renders `i` in decimal, as `i.to_string()` does.
pub fn i64_to_string(i: i64) -> (s: String)
    ensures
        s@ == signed_decimal(i as int),
{
    if i < 0 {
        let magnitude: u64 = (0i128 - (i as i128)) as u64;
        let mut s = String::new();
        proof { reveal_strlit("-"); }
        s.append("-");
        let digits = u64_to_string(magnitude);
        s.append(digits.as_str());
        s
    } else {
        u64_to_string(i as u64)
    }
}

/// Renders `i` in decimal, as `i.to_string()` does.
pub fn i32_to_string(i: i32) -> (s: String)
    ensures
        s@ == signed_decimal(i as int),
{
    i64_to_string(i as i64)
}

/// Why a text is not a number, as `std::num::IntErrorKind` tells it.
#[derive(Debug, PartialEq, Eq)]
pub enum IntError {
    /// The text is empty.
    Empty,
    /// A character is not a digit (a lone `+` counts as one).
    InvalidDigit,
    /// The number does not fit.
    PosOverflow,
    /// The number is zero where zero is not allowed.
    Zero,
}

impl IntError {
    /// The text that `ParseIntError` displays for the error.
    pub open spec fn text(&self) -> Seq<char> {
        match self {
            IntError::Empty => "cannot parse integer from empty string"@,
            IntError::InvalidDigit => "invalid digit found in string"@,
            IntError::PosOverflow => "number too large to fit in target type"@,
            IntError::Zero => "number would be zero for non-zero type"@,
        }
    }

    /// The text that `ParseIntError` displays for the error.
    pub fn message(&self) -> (m: String)
        ensures
            m@ == self.text(),
    {
        let mut m = String::new();
        match self {
            IntError::Empty => m.append("cannot parse integer from empty string"),
            IntError::InvalidDigit => m.append("invalid digit found in string"),
            IntError::PosOverflow => m.append("number too large to fit in target type"),
            IntError::Zero => m.append("number would be zero for non-zero type"),
        }
        m
    }
}

/// Reads the digits `d` from the left onto `acc`, stopping at the first
/// character that is not a digit or at the first digit that makes the
/// number too large for a `u64`, whichever comes first.
pub open spec fn read_digits(d: Seq<char>, acc: nat) -> Result<nat, IntError>
    decreases d.len(),
{
    if d.len() == 0 {
        Ok(acc)
    } else if !is_digit(d[0]) {
        Err(IntError::InvalidDigit)
    } else if acc * 10 + digit_value(d[0]) > u64::MAX {
        Err(IntError::PosOverflow)
    } else {
        read_digits(d.drop_first(), acc * 10 + digit_value(d[0]))
    }
}

/// The outcome of `str::parse::<u64>`, error kind included.
pub open spec fn u64_from_text(s: Seq<char>) -> Result<u64, IntError> {
    if s.len() == 0 {
        Err(IntError::Empty)
    } else if unsigned_digits(s).len() == 0 {
        Err(IntError::InvalidDigit)
    } else {
        match read_digits(unsigned_digits(s), 0) {
            Ok(n) => Ok(n as u64),
            Err(e) => Err(e),
        }
    }
}

/// The outcome of parsing a Discord snowflake id (`NonZeroU64::from_str`).
pub open spec fn id_from_text(s: Seq<char>) -> Result<u64, IntError> {
    match u64_from_text(s) {
        Ok(n) => if n == 0 { Err(IntError::Zero) } else { Ok(n) },
        Err(e) => Err(e),
    }
}

proof fn lemma_prefix_value_le(d: Seq<char>, k: int)
    requires
        0 <= k <= d.len(),
    ensures
        digits_value(d.take(k)) <= digits_value(d),
    decreases d.len(),
{
    if k < d.len() {
        lemma_prefix_value_le(d.drop_last(), k);
        assert(d.drop_last().take(k) =~= d.take(k));
    } else {
        assert(d.take(k) =~= d);
    }
}

/// Reads a `u64` as `str::parse::<u64>` does: an optional `+`, then one or
/// more digits whose value fits; on failure, the kind of the first fault met
/// from the left.
pub fn parse_u64(s: &str) -> (r: Result<u64, IntError>)
    ensures
        r == u64_from_text(s@),
        r is Ok <==> parsed_u64(s@) is Some,
        r matches Ok(n) ==> parsed_u64(s@) == Some(n),
{
    let len: usize = s.unicode_len();
    if len == 0 {
        return Err(IntError::Empty);
    }
    let mut start: usize = 0;
    if s.get_char(0) == '+' {
        if len == 1 {
            assert(unsigned_digits(s@).len() == 0);
            return Err(IntError::InvalidDigit);
        }
        start = 1;
    }
    let ghost d = unsigned_digits(s@);
    assert(d =~= s@.subrange(start as int, len as int));
    let mut i: usize = start;
    let mut acc: u64 = 0;
    assert(s@.subrange(start as int, i as int) =~= Seq::<char>::empty());
    assert(d.skip(0) =~= d);
    while i < len
        invariant
            start <= i <= len,
            start < len,
            len == s@.len(),
            d == s@.subrange(start as int, len as int),
            d == unsigned_digits(s@),
            all_digits(s@.subrange(start as int, i as int)),
            acc == digits_value(s@.subrange(start as int, i as int)),
            read_digits(d, 0) == read_digits(d.skip(i - start), acc as nat),
        decreases len - i,
    {
        let c = s.get_char(i);
        let ghost pre = s@.subrange(start as int, i as int);
        let ghost next = s@.subrange(start as int, i + 1);
        let ghost rest = d.skip(i - start);
        assert(rest[0] == c);
        assert(rest.drop_first() =~= d.skip(i + 1 - start));
        assert(next.drop_last() =~= pre);
        assert(next.last() == c);
        if !('0' <= c && c <= '9') {
            assert(d[i - start] == c);
            assert(!is_digit(d[i - start]));
            return Err(IntError::InvalidDigit);
        }
        let dv: u64 = ((c as u32) - 48) as u64;
        assert(dv == digit_value(c));
        if acc > (u64::MAX - dv) / 10 {
            assert(acc * 10 + dv > u64::MAX) by (nonlinear_arith)
                requires
                    acc > (u64::MAX - dv) / 10,
                    dv < 10,
            ;
            assert(digits_value(next) == acc * 10 + dv);
            proof {
                if all_digits(d) {
                    lemma_prefix_value_le(d, (i + 1 - start) as int);
                    assert(d.take((i + 1 - start) as int) =~= next);
                }
            }
            return Err(IntError::PosOverflow);
        }
        assert(acc * 10 + dv <= u64::MAX) by (nonlinear_arith)
            requires
                acc <= (u64::MAX - dv) / 10,
                dv < 10,
        ;
        acc = acc * 10 + dv;
        i = i + 1;
        assert(all_digits(next)) by {
            assert forall|j: int| 0 <= j < next.len() implies #[trigger] is_digit(next[j]) by {
                if j < pre.len() {
                    assert(next[j] == pre[j]);
                }
            }
        }
    }
    assert(s@.subrange(start as int, i as int) =~= d);
    assert(d.skip(i - start).len() == 0);
    Ok(acc)
}

/// Reads a Discord snowflake id (a guild, channel or user id) as the id
/// types' `FromStr` does: a `u64` read as `parse_u64` reads it, refused when
/// it is zero.
pub fn parse_id(s: &str) -> (r: Result<u64, IntError>)
    ensures
        r == id_from_text(s@),
        r matches Ok(n) ==> parsed_id(s@) == Some(n),
        r is Err ==> parsed_id(s@) is None,
{
    match parse_u64(s) {
        Ok(n) => if n != 0 { Ok(n) } else { Err(IntError::Zero) },
        Err(e) => Err(e),
    }
}

} // verus!

verus! {

proof fn lemma_decimal_digits(n: nat)
    ensures
        decimal(n).len() > 0,
        all_digits(decimal(n)),
        digits_value(decimal(n)) == n,
        is_digit(decimal(n)[0]),
    decreases n,
{
    if n >= 10 {
        lemma_decimal_digits(n / 10);
        let s = decimal(n);
        let p = decimal(n / 10);
        assert(s.drop_last() =~= p);
        assert forall|i: int| 0 <= i < s.len() implies #[trigger] is_digit(s[i]) by {
            if i < p.len() {
                assert(s[i] == p[i]);
            }
        }
        assert(s[0] == p[0]);
        assert(s.last() == digit_char(n % 10));
        assert(digit_value(digit_char(n % 10)) == n % 10);
        assert((n / 10) * 10 + n % 10 == n);
        assert(digits_value(s) == digits_value(p) * 10 + digit_value(s.last()));
        assert(digits_value(p) * 10 == (n / 10) * 10);
        assert(digits_value(s) == n);
    } else {
        let s = decimal(n);
        assert(s.drop_last() =~= Seq::<char>::empty());
        assert(digit_value(digit_char(n)) == n);
        assert(s.last() == digit_char(n));
        assert(digits_value(s) == digits_value(s.drop_last()) * 10 + digit_value(s.last()));
        assert(digits_value(s) == n);
    }
}

/// Reading back the decimal text of any `u64` gives that number again:
/// `parse_u64(&u64_to_string(n)) == Some(n)`.
pub proof fn lemma_parse_renders_back(n: u64)
    ensures
        parsed_u64(decimal(n as nat)) == Some(n),
{
    lemma_decimal_digits(n as nat);
    assert(unsigned_digits(decimal(n as nat)) == decimal(n as nat));
}

/// Rendering a number read from its shortest text (digits only, no leading
/// zero) gives that text again.
pub proof fn lemma_render_parses_back(s: Seq<char>)
    requires
        s.len() > 0,
        all_digits(s),
        s[0] != '0' || s.len() == 1,
        parsed_u64(s) is Some,
    ensures
        decimal(parsed_u64(s)->0 as nat) == s,
    decreases s.len(),
{
    assert(is_digit(s[0]));
    assert(unsigned_digits(s) == s);
    lemma_canonical_decimal(s);
}

proof fn lemma_canonical_decimal(s: Seq<char>)
    requires
        s.len() > 0,
        all_digits(s),
        s[0] != '0' || s.len() == 1,
    ensures
        decimal(digits_value(s)) == s,
    decreases s.len(),
{
    if s.len() == 1 {
        assert(s.drop_last() =~= Seq::<char>::empty());
        assert(is_digit(s[0]));
        let v = digits_value(s);
        assert(s.last() == s[0]);
        assert(digits_value(s.drop_last()) == 0);
        assert(v == digits_value(s.drop_last()) * 10 + digit_value(s.last()));
        assert(v == digit_value(s[0]));
        assert(v < 10);
        assert(digit_char(v) == s[0]);
        assert(decimal(v) =~= s);
    } else {
        let p = s.drop_last();
        assert forall|i: int| 0 <= i < p.len() implies #[trigger] is_digit(p[i]) by {
            assert(p[i] == s[i]);
        }
        assert(p[0] == s[0]);
        lemma_canonical_decimal(p);
        lemma_leading_digit_positive(p);
        assert(is_digit(s[s.len() - 1]));
        let v = digits_value(s);
        assert(v == digits_value(p) * 10 + digit_value(s.last()));
        assert(v / 10 == digits_value(p));
        assert(v % 10 == digit_value(s.last()));
        assert(decimal(v) =~= s);
    }
}

proof fn lemma_leading_digit_positive(s: Seq<char>)
    requires
        s.len() > 0,
        all_digits(s),
        s[0] != '0',
    ensures
        digits_value(s) > 0,
    decreases s.len(),
{
    if s.len() > 1 {
        let p = s.drop_last();
        assert forall|i: int| 0 <= i < p.len() implies #[trigger] is_digit(p[i]) by {
            assert(p[i] == s[i]);
        }
        assert(p[0] == s[0]);
        lemma_leading_digit_positive(p);
    } else {
        assert(is_digit(s[0]));
        assert(s.drop_last() =~= Seq::<char>::empty());
    }
}

} // verus!
