//! Decimal text of unsigned integers.
use vstd::prelude::*;

verus! {

/// The character of a decimal digit.
pub open spec fn digit_char(d: nat) -> char {
    if d == 0 { '0' }
    else if d == 1 { '1' }
    else if d == 2 { '2' }
    else if d == 3 { '3' }
    else if d == 4 { '4' }
    else if d == 5 { '5' }
    else if d == 6 { '6' }
    else if d == 7 { '7' }
    else if d == 8 { '8' }
    else { '9' }
}

pub open spec fn is_digit(c: char) -> bool {
    '0' <= c && c <= '9'
}

pub open spec fn digit_value(c: char) -> nat {
    (c as u32 - '0' as u32) as nat
}

/// The shortest decimal text of `n`.
pub open spec fn decimal(n: nat) -> Seq<char>
    decreases n,
{
    if n < 10 {
        seq![digit_char(n)]
    } else {
        decimal(n / 10).push(digit_char(n % 10))
    }
}

pub open spec fn all_digits(s: Seq<char>) -> bool {
    forall|i: int| 0 <= i < s.len() ==> is_digit(#[trigger] s[i])
}

/// The number that a run of digits denotes.
pub open spec fn digits_value(s: Seq<char>) -> nat
    decreases s.len(),
{
    if s.len() == 0 {
        0
    } else {
        digits_value(s.drop_last()) * 10 + digit_value(s.last())
    }
}

pub proof fn lemma_digit_char(d: nat)
    requires
        d < 10,
    ensures
        is_digit(digit_char(d)),
        digit_value(digit_char(d)) == d,
{
}

/// The decimal text of `n` is a nonempty run of digits that denotes `n`.
pub proof fn lemma_decimal(n: nat)
    ensures
        decimal(n).len() >= 1,
        all_digits(decimal(n)),
        digits_value(decimal(n)) == n,
    decreases n,
{
    if n < 10 {
        lemma_digit_char(n);
        assert(decimal(n).drop_last() =~= Seq::<char>::empty());
        assert(digits_value(Seq::<char>::empty()) == 0);
        assert(digits_value(decimal(n)) == digits_value(decimal(n).drop_last()) * 10
            + digit_value(decimal(n).last()));
    } else {
        lemma_decimal(n / 10);
        lemma_digit_char(n % 10);
        assert(decimal(n).drop_last() =~= decimal(n / 10));
        assert(decimal(n).last() == digit_char(n % 10));
        assert((n / 10) * 10 + n % 10 == n);
        assert(digits_value(decimal(n)) == digits_value(decimal(n).drop_last()) * 10
            + digit_value(decimal(n).last()));
        assert forall|i: int| 0 <= i < decimal(n).len() implies is_digit(#[trigger] decimal(n)[i]) by {
            if i < decimal(n).len() - 1 {
                assert(decimal(n)[i] == decimal(n / 10)[i]);
            }
        }
    }
}

/// A run of digits never denotes less than any of its prefixes.
pub proof fn lemma_digits_value_prefix(s: Seq<char>, i: int)
    requires
        0 <= i <= s.len(),
        all_digits(s),
    ensures
        digits_value(s.take(i)) <= digits_value(s),
    decreases s.len(),
{
    if i < s.len() {
        assert(s.drop_last().take(i) =~= s.take(i));
        lemma_digits_value_prefix(s.drop_last(), i);
    } else {
        assert(s.take(i) =~= s);
    }
}

fn digit_text(d: u64) -> (r: String)
    requires
        d < 10,
    ensures
        r@ == seq![digit_char(d as nat)],
{
    let t: &str = if d == 0 {
        proof { reveal_strlit("0"); }
        "0"
    } else if d == 1 {
        proof { reveal_strlit("1"); }
        "1"
    } else if d == 2 {
        proof { reveal_strlit("2"); }
        "2"
    } else if d == 3 {
        proof { reveal_strlit("3"); }
        "3"
    } else if d == 4 {
        proof { reveal_strlit("4"); }
        "4"
    } else if d == 5 {
        proof { reveal_strlit("5"); }
        "5"
    } else if d == 6 {
        proof { reveal_strlit("6"); }
        "6"
    } else if d == 7 {
        proof { reveal_strlit("7"); }
        "7"
    } else if d == 8 {
        proof { reveal_strlit("8"); }
        "8"
    } else {
        proof { reveal_strlit("9"); }
        "9"
    };
    let r = t.to_owned();
    assert(r@ =~= seq![digit_char(d as nat)]);
    r
}

/// Renders `n` in decimal.
pub fn decimal_text(n: u64) -> (r: String)
    ensures
        r@ == decimal(n as nat),
    decreases n,
{
    if n < 10 {
        digit_text(n)
    } else {
        let mut s = decimal_text(n / 10);
        let d = digit_text(n % 10);
        s.append(d.as_str());
        assert(s@ =~= decimal(n as nat));
        s
    }
}

/// Reads a whole string as a run of decimal digits.
pub fn parse_decimal(s: &str) -> (r: Option<u64>)
    ensures
        r is Some <==> (s@.len() > 0 && all_digits(s@) && digits_value(s@) <= u64::MAX),
        r matches Some(v) ==> v as nat == digits_value(s@),
{
    let n = s.unicode_len();
    if n == 0 {
        return None;
    }
    let mut acc: u64 = 0;
    let mut i: usize = 0;
    while i < n
        invariant
            n == s@.len(),
            i <= n,
            forall|j: int| 0 <= j < i ==> is_digit(#[trigger] s@[j]),
            acc as nat == digits_value(s@.take(i as int)),
        decreases n - i,
    {
        let c = s.get_char(i);
        if !('0' <= c && c <= '9') {
            return None;
        }
        let d = (c as u32 - '0' as u32) as u64;
        assert(s@.take(i + 1).drop_last() =~= s@.take(i as int));
        if acc > (u64::MAX - d) / 10 {
            proof {
                if all_digits(s@) {
                    lemma_digits_value_prefix(s@, i + 1);
                }
            }
            return None;
        }
        acc = acc * 10 + d;
        i = i + 1;
    }
    assert(s@.take(n as int) =~= s@);
    Some(acc)
}

/// Decimal text read back gives the number it was made from.
pub proof fn lemma_decimal_round_trip(n: u64)
    ensures
        decimal(n as nat).len() > 0,
        all_digits(decimal(n as nat)),
        digits_value(decimal(n as nat)) == n as nat,
{
    lemma_decimal(n as nat);
}

} // verus!

verus! {

/// Compares two strings character by character.
pub fn text_eq(a: &str, b: &str) -> (r: bool)
    ensures
        r == (a@ == b@),
{
    let n = a.unicode_len();
    let m = b.unicode_len();
    if n != m {
        return false;
    }
    let mut i: usize = 0;
    while i < n
        invariant
            n == a@.len(),
            m == b@.len(),
            n == m,
            i <= n,
            a@.take(i as int) == b@.take(i as int),
        decreases n - i,
    {
        if a.get_char(i) != b.get_char(i) {
            return false;
        }
        assert(a@.take(i + 1) =~= a@.take(i as int).push(a@[i as int]));
        assert(b@.take(i + 1) =~= b@.take(i as int).push(b@[i as int]));
        i = i + 1;
    }
    assert(a@.take(n as int) =~= a@);
    assert(b@.take(n as int) =~= b@);
    true
}

} // verus!

verus! {

/// `s` holds at `pos` the decimal text of `k`, ended by a character that is
/// not a digit.
pub open spec fn number_follows(s: Seq<char>, pos: int, k: nat) -> bool {
    &&& k <= u64::MAX
    &&& pos + decimal(k).len() < s.len()
    &&& s.subrange(pos, pos + decimal(k).len()) == decimal(k)
    &&& !is_digit(s[pos + decimal(k).len()])
}

/// Whether `lit` stands in `s` at `pos`.
pub open spec fn holds_at(s: Seq<char>, pos: int, lit: Seq<char>) -> bool {
    pos + lit.len() <= s.len() && s.subrange(pos, pos + lit.len()) == lit
}

/// Tells whether `lit` stands in `s` at `pos`.
pub fn expect_at(s: &str, pos: usize, lit: &str) -> (r: bool)
    requires
        pos <= s@.len(),
    ensures
        r == holds_at(s@, pos as int, lit@),
{
    let n = s.unicode_len();
    let m = lit.unicode_len();
    if m > n - pos {
        return false;
    }
    let part = s.substring_char(pos, pos + m);
    text_eq(part, lit)
}

/// Reads the longest run of digits at `pos`: its value and where it ends.
pub fn number_at(s: &str, pos: usize) -> (r: Option<(u64, usize)>)
    requires
        pos <= s@.len(),
    ensures
        r matches Some((v, end)) ==> pos < end <= s@.len() && all_digits(
            s@.subrange(pos as int, end as int),
        ) && v as nat == digits_value(s@.subrange(pos as int, end as int)),
        forall|k: nat| #[trigger] number_follows(s@, pos as int, k) ==> r == Some(
            (k as u64, (pos + decimal(k).len()) as usize),
        ),
{
    let n = s.unicode_len();
    let mut i: usize = pos;
    let mut acc: u64 = 0;
    loop
        invariant
            n == s@.len(),
            pos <= i <= n,
            all_digits(s@.subrange(pos as int, i as int)),
            acc as nat == digits_value(s@.subrange(pos as int, i as int)),
            forall|k: nat| #[trigger] number_follows(s@, pos as int, k) ==> i <= pos + decimal(k).len(),
        ensures
            pos <= i <= n,
            all_digits(s@.subrange(pos as int, i as int)),
            acc as nat == digits_value(s@.subrange(pos as int, i as int)),
            forall|k: nat| #[trigger] number_follows(s@, pos as int, k) ==> i <= pos + decimal(k).len(),
            i == n || !is_digit(s@[i as int]),
        decreases n - i,
    {
        if i >= n {
            break;
        }
        let c = s.get_char(i);
        if !('0' <= c && c <= '9') {
            break;
        }
        let d = (c as u32 - '0' as u32) as u64;
        let ghost next = s@.subrange(pos as int, i + 1);
        assert(next.drop_last() =~= s@.subrange(pos as int, i as int));
        assert(next.last() == c);
        if acc > (u64::MAX - d) / 10 {
            proof {
                assert forall|k: nat| #[trigger] number_follows(s@, pos as int, k) implies false by {
                    let len = decimal(k).len();
                    lemma_decimal(k);
                    assert(i < pos + len);
                    assert(decimal(k).take(i + 1 - pos) =~= next);
                    lemma_digits_value_prefix(decimal(k), i + 1 - pos);
                }
            }
            return None;
        }
        acc = acc * 10 + d;
        proof {
            assert forall|j: int| 0 <= j < next.len() implies is_digit(#[trigger] next[j]) by {
                if j < next.len() - 1 {
                    assert(next[j] == s@.subrange(pos as int, i as int)[j]);
                }
            }
            assert forall|k: nat| #[trigger] number_follows(s@, pos as int, k) implies i + 1 <= pos
                + decimal(k).len() by {
                assert(i != pos + decimal(k).len());
            }
        }
        i = i + 1;
    }
    proof {
        assert forall|k: nat| #[trigger] number_follows(s@, pos as int, k) implies i == pos
            + decimal(k).len() by {
            let len = decimal(k).len();
            lemma_decimal(k);
            if i < pos + len {
                assert(s@[i as int] == decimal(k)[i - pos]);
            }
        }
    }
    if i == pos {
        proof {
            assert forall|k: nat| #[trigger] number_follows(s@, pos as int, k) implies false by {
                lemma_decimal(k);
            }
        }
        return None;
    }
    proof {
        assert forall|k: nat| #[trigger] number_follows(s@, pos as int, k) implies acc == k by {
            lemma_decimal(k);
        }
    }
    Some((acc, i))
}

} // verus!

verus! {

/// Whether `lit` stands somewhere in `s`.
pub open spec fn occurs(s: Seq<char>, lit: Seq<char>) -> bool {
    exists|i: int| 0 <= i <= s.len() && #[trigger] holds_at(s, i, lit)
}

/// Tells whether `lit` stands somewhere in `s`.
pub fn occurs_in(s: &str, lit: &str) -> (r: bool)
    ensures
        r == occurs(s@, lit@),
{
    let n = s.unicode_len();
    let mut i: usize = 0;
    while i < n
        invariant
            n == s@.len(),
            i <= n,
            forall|j: int| 0 <= j < i ==> !#[trigger] holds_at(s@, j, lit@),
        decreases n - i,
    {
        if expect_at(s, i, lit) {
            return true;
        }
        i = i + 1;
    }
    if expect_at(s, n, lit) {
        return true;
    }
    proof {
        assert forall|j: int| 0 <= j <= s@.len() implies !#[trigger] holds_at(s@, j, lit@) by {
            if j == n {
            }
        }
    }
    false
}

} // verus!
