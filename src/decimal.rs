//! Decimal text for unsigned 64-bit counters: parsing and formatting.
use vstd::prelude::*;

verus! {

pub open spec fn is_digit(c: char) -> bool {
    '0' <= c && c <= '9'
}

pub open spec fn digit_value(c: char) -> nat {
    (c as int - '0' as int) as nat
}

pub open spec fn digit_char(d: nat) -> char {
    ((d + '0' as int) as u32) as char
}

/// The number that a string of decimal digits denotes, most significant first.
pub open spec fn digits_value(s: Seq<char>) -> nat
    decreases s.len(),
{
    if s.len() == 0 {
        0
    } else {
        digits_value(s.drop_last()) * 10 + digit_value(s.last())
    }
}

pub open spec fn all_digits(s: Seq<char>) -> bool {
    forall|i: int| 0 <= i < s.len() ==> is_digit(#[trigger] s[i])
}

/// The digits of a counter, without the optional leading `+`.
pub open spec fn unsigned_part(s: Seq<char>) -> Seq<char> {
    if s.len() > 0 && s[0] == '+' {
        s.drop_first()
    } else {
        s
    }
}

/// The value of a decimal counter: an optional `+`, then at least one digit,
/// and a value that fits in 64 bits.
pub open spec fn decimal_value(s: Seq<char>) -> Option<nat> {
    let d = unsigned_part(s);
    if d.len() > 0 && all_digits(d) && digits_value(d) <= u64::MAX {
        Some(digits_value(d))
    } else {
        None
    }
}

/// The shortest decimal form of `n`.
pub open spec fn decimal_digits(n: nat) -> Seq<char>
    decreases n,
{
    if n < 10 {
        seq![digit_char(n)]
    } else {
        decimal_digits(n / 10).push(digit_char(n % 10))
    }
}

proof fn lemma_digits_prefix_monotone(s: Seq<char>, j: int, k: int)
    requires
        0 <= j <= k <= s.len(),
        all_digits(s),
    ensures
        digits_value(s.subrange(0, j)) <= digits_value(s.subrange(0, k)),
    decreases k - j,
{
    if j < k {
        lemma_digits_prefix_monotone(s, j, k - 1);
        assert(s.subrange(0, k).drop_last() =~= s.subrange(0, k - 1));
    }
}

/// Reads a counter in the form that `u64`'s `FromStr` accepts: an optional
/// `+` followed by one or more ASCII digits, whose value fits in 64 bits.
pub fn parse_u64(s: &str) -> (r: Option<u64>)
    ensures
        r is Some <==> decimal_value(s@) is Some,
        r is Some ==> r->0 as nat == decimal_value(s@)->0,
{
    let n = s.unicode_len();
    let mut start: usize = 0;
    if n > 0 && s.get_char(0) == '+' {
        start = 1;
    }
    let ghost d = unsigned_part(s@);
    assert(d =~= s@.subrange(start as int, n as int));
    if start == n {
        return None;
    }
    let mut acc: u64 = 0;
    let mut i: usize = start;
    while i < n
        invariant
            start <= i <= n,
            n == s@.len(),
            d == s@.subrange(start as int, n as int),
            d == unsigned_part(s@),
            all_digits(d.subrange(0, i - start)),
            acc as nat == digits_value(d.subrange(0, i - start)),
        decreases n - i,
    {
        let c = s.get_char(i);
        assert(d[i - start] == c);
        if !('0' <= c && c <= '9') {
            assert(!is_digit(d[i - start]));

            return None;
        }
        let v: u64 = (c as u32 - '0' as u32) as u64;
        let ghost k = i - start;
        assert(d.subrange(0, k + 1).drop_last() =~= d.subrange(0, k));
        assert(d.subrange(0, k + 1).last() == c);
        if acc > (u64::MAX - v) / 10 {
            assert(digits_value(d.subrange(0, k + 1)) > u64::MAX) by (nonlinear_arith)
                requires
                    acc > (u64::MAX - v) / 10,
                    digits_value(d.subrange(0, k + 1)) == acc * 10 + v,
            ;
            proof {
                if all_digits(d) {
                    lemma_digits_prefix_monotone(d, k + 1, d.len() as int);
                    assert(d.subrange(0, d.len() as int) =~= d);
                }
            }
            return None;
        }
        assert(acc * 10 + v <= u64::MAX) by (nonlinear_arith)
            requires
                acc <= (u64::MAX - v) / 10,
                v <= 9,
        ;
        acc = acc * 10 + v;
        assert(all_digits(d.subrange(0, k + 1)));
        i = i + 1;
    }
    assert(d.subrange(0, d.len() as int) =~= d);
    Some(acc)
}

fn digit_str(d: u64) -> (r: &'static str)
    requires
        d < 10,
    ensures
        r@ == seq![digit_char(d as nat)],
{
    proof {
        reveal_strlit("0");
        reveal_strlit("1");
        reveal_strlit("2");
        reveal_strlit("3");
        reveal_strlit("4");
        reveal_strlit("5");
        reveal_strlit("6");
        reveal_strlit("7");
        reveal_strlit("8");
        reveal_strlit("9");
    }
    match d {
        0 => "0",
        1 => "1",
        2 => "2",
        3 => "3",
        4 => "4",
        5 => "5",
        6 => "6",
        7 => "7",
        8 => "8",
        _ => "9",
    }
}

/// Writes `n` in decimal, with no sign and no leading zeros.
pub fn decimal_text(n: u64) -> (r: String)
    ensures
        r@ == decimal_digits(n as nat),
    decreases n,
{
    if n < 10 {
        String::from_str(digit_str(n))
    } else {
        let mut s = decimal_text(n / 10);
        s.append(digit_str(n % 10));
        s
    }
}

} // verus!
