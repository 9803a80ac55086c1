//! Character-level text utilities: string/char-vector conversion, decimal
//! numbers, and the comma split/join used by the line protocol.

use vstd::prelude::*;
use vstd::string::*;

verus! {

/// Copies the characters of `s` into a vector.
pub fn str_chars(s: &str) -> (r: Vec<char>)
    ensures
        r@ == s@,
{
    let n = s.unicode_len();
    let mut r: Vec<char> = Vec::new();
    let mut i: usize = 0;
    while i < n
        invariant
            i <= n,
            n == s@.len(),
            r@ == s@.take(i as int),
        decreases n - i,
    {
        r.push(s.get_char(i));
        proof {
            assert(r@ =~= s@.take(i as int + 1));
        }
        i += 1;
    }
    proof {
        assert(r@ =~= s@);
    }
    r
}

/// Appends the characters of `s` to `out`.
pub fn push_str_chars(out: &mut Vec<char>, s: &str)
    ensures
        final(out)@ == old(out)@ + s@,
{
    let n = s.unicode_len();
    let mut i: usize = 0;
    while i < n
        invariant
            i <= n,
            n == s@.len(),
            out@ == old(out)@ + s@.take(i as int),
        decreases n - i,
    {
        out.push(s.get_char(i));
        proof {
            assert(out@ =~= old(out)@ + s@.take(i as int + 1));
        }
        i += 1;
    }
    proof {
        assert(out@ =~= old(out)@ + s@);
    }
}

/// Builds a `String` from a vector of characters.
///
/// Relies on `String`'s `FromIterator` implementation in std: the resulting
/// string holds exactly the characters of the iterator, in order.
#[verifier::external_body]
pub fn chars_to_string(v: &Vec<char>) -> (r: String)
    ensures
        r@ == v@,
{
    String::from_iter(v.iter().copied())
}

/// True when two string slices hold the same characters.
pub fn str_eq(a: &str, b: &str) -> (r: bool)
    ensures
        r == (a@ == b@),
{
    let na = a.unicode_len();
    let nb = b.unicode_len();
    if na != nb {
        proof {
            assert(a@ != b@);
        }
        return false;
    }
    let mut i: usize = 0;
    while i < na
        invariant
            i <= na,
            na == a@.len(),
            na == b@.len(),
            forall|j: int| 0 <= j < i ==> a@[j] == b@[j],
        decreases na - i,
    {
        if a.get_char(i) != b.get_char(i) {
            return false;
        }
        i += 1;
    }
    proof {
        assert(a@ =~= b@);
    }
    true
}

/// The decimal digit character for `n < 10`.
pub open spec fn dec_digit(n: u64) -> char {
    if n == 0 {
        '0'
    } else if n == 1 {
        '1'
    } else if n == 2 {
        '2'
    } else if n == 3 {
        '3'
    } else if n == 4 {
        '4'
    } else if n == 5 {
        '5'
    } else if n == 6 {
        '6'
    } else if n == 7 {
        '7'
    } else if n == 8 {
        '8'
    } else {
        '9'
    }
}

/// The decimal rendering of `n`, without sign or leading zeros
/// (`0` renders as "0").
pub open spec fn u64_dec(n: u64) -> Seq<char>
    decreases n,
{
    if n < 10 {
        seq![dec_digit(n)]
    } else {
        u64_dec(n / 10).push(dec_digit(n % 10))
    }
}

fn dec_digit_char(n: u64) -> (c: char)
    requires
        n < 10,
    ensures
        c == dec_digit(n),
{
    match n {
        0 => '0',
        1 => '1',
        2 => '2',
        3 => '3',
        4 => '4',
        5 => '5',
        6 => '6',
        7 => '7',
        8 => '8',
        _ => '9',
    }
}

/// Appends the decimal rendering of `n` to `out`.
pub fn push_u64_dec(out: &mut Vec<char>, n: u64)
    ensures
        final(out)@ == old(out)@ + u64_dec(n),
    decreases n,
{
    if n < 10 {
        out.push(dec_digit_char(n));
    } else {
        push_u64_dec(out, n / 10);
        out.push(dec_digit_char(n % 10));
    }
}

/// The decimal rendering of `n` as a `String`.
pub fn u64_to_string(n: u64) -> (r: String)
    ensures
        r@ == u64_dec(n),
{
    let mut v: Vec<char> = Vec::new();
    push_u64_dec(&mut v, n);
    chars_to_string(&v)
}

/// True when `c` is an ASCII decimal digit.
pub open spec fn is_dec_digit(c: char) -> bool {
    '0' <= c && c <= '9'
}

/// The numeric value of a digit character.
pub open spec fn dec_digit_val(c: char) -> int {
    c as int - '0' as int
}

/// The integer value of a sequence of decimal digits, most significant first.
pub open spec fn dec_val(s: Seq<char>) -> int
    decreases s.len(),
{
    if s.len() == 0 {
        0
    } else {
        dec_val(s.drop_last()) * 10 + dec_digit_val(s.last())
    }
}

/// True when `s` is one or more decimal digits.
pub open spec fn all_dec_digits(s: Seq<char>) -> bool {
    s.len() > 0 && forall|i: int| 0 <= i < s.len() ==> is_dec_digit(s[i])
}

/// The value `u64::from_str` gives to `s`: an optional leading `+`, then one
/// or more decimal digits whose value fits in 64 bits; anything else is
/// rejected.
pub open spec fn parse_u64(s: Seq<char>) -> Option<u64> {
    let digits = if s.len() > 0 && s[0] == '+' {
        s.drop_first()
    } else {
        s
    };
    if all_dec_digits(digits) && 0 <= dec_val(digits) <= u64::MAX {
        Some(dec_val(digits) as u64)
    } else {
        None
    }
}

proof fn lemma_dec_val_nonneg(s: Seq<char>)
    requires
        forall|i: int| 0 <= i < s.len() ==> is_dec_digit(s[i]),
    ensures
        dec_val(s) >= 0,
    decreases s.len(),
{
    if s.len() > 0 {
        lemma_dec_val_nonneg(s.drop_last());
    }
}

fn parse_u64_digits(v: &Vec<char>, start: usize) -> (r: Option<u64>)
    requires
        start <= v@.len(),
    ensures
        r == (if all_dec_digits(v@.skip(start as int)) && 0 <= dec_val(v@.skip(start as int))
            <= u64::MAX {
            Some(dec_val(v@.skip(start as int)) as u64)
        } else {
            None::<u64>
        }),
{
    let ghost digits = v@.skip(start as int);
    if start >= v.len() {
        return None;
    }
    let mut acc: u64 = 0;
    let mut i: usize = start;
    while i < v.len()
        invariant
            start <= i <= v@.len(),
            digits == v@.skip(start as int),
            forall|j: int| start <= j < i ==> is_dec_digit(v@[j]),
            acc == dec_val(v@.subrange(start as int, i as int)),
        decreases v@.len() - i,
    {
        let c = v[i];
        if !('0' <= c && c <= '9') {
            proof {
                assert(digits =~= v@.subrange(start as int, v@.len() as int));
                assert(digits.len() == v@.len() - start);
                assert(digits[i as int - start as int] == v@[i as int]);
                assert(!all_dec_digits(digits));
            }
            return None;
        }
        let d: u64 = (c as u32 as u64) - ('0' as u32 as u64);
        let ghost pre = v@.subrange(start as int, i as int);
        let ghost cur = v@.subrange(start as int, i as int + 1);
        proof {
            assert(cur.drop_last() =~= pre);
            assert(cur.last() == c);
        }
        acc = match acc.checked_mul(10) {
            Some(m) => match m.checked_add(d) {
                Some(a) => a,
                None => {
                    proof {
                        lemma_dec_val_overflow(v@, start as int, i as int);
                    }
                    return None;
                },
            },
            None => {
                proof {
                    lemma_dec_val_overflow(v@, start as int, i as int);
                }
                return None;
            },
        };
        i += 1;
    }
    proof {
        assert(v@.subrange(start as int, v@.len() as int) =~= digits);
        assert(all_dec_digits(digits));
    }
    Some(acc)
}

/// If the digit prefix up to `i` already exceeds what one more digit can keep
/// within `u64`, the whole digit run's value exceeds `u64::MAX`.
proof fn lemma_dec_val_overflow(s: Seq<char>, start: int, i: int)
    requires
        0 <= start <= i < s.len(),
        forall|j: int| start <= j <= i ==> is_dec_digit(s[j]),
        dec_val(s.subrange(start, i)) * 10 + dec_digit_val(s[i]) > u64::MAX,
    ensures
        dec_val(s.skip(start)) > u64::MAX || !all_dec_digits(s.skip(start)),
{
    if all_dec_digits(s.skip(start)) {
        assert forall|j: int| start <= j < s.len() implies is_dec_digit(s[j]) by {
            assert(s.skip(start)[j - start] == s[j]);
        }
        assert(s.subrange(start, i + 1).drop_last() =~= s.subrange(start, i));
        assert(dec_val(s.subrange(start, i + 1)) > u64::MAX);
        lemma_dec_val_monotone(s, start, i + 1);
    }
}

/// Appending digits never lowers a digit run's value.
proof fn lemma_dec_val_monotone(s: Seq<char>, start: int, i: int)
    requires
        0 <= start <= i <= s.len(),
        forall|j: int| start <= j < s.len() ==> is_dec_digit(s[j]),
    ensures
        dec_val(s.skip(start)) >= dec_val(s.subrange(start, i)),
    decreases s.len() - i,
{
    if i < s.len() {
        assert(s.subrange(start, i + 1).drop_last() =~= s.subrange(start, i));
        lemma_dec_val_nonneg(s.subrange(start, i));
        assert(dec_val(s.subrange(start, i + 1)) >= dec_val(s.subrange(start, i)));
        lemma_dec_val_monotone(s, start, i + 1);
    } else {
        assert(s.subrange(start, i) =~= s.skip(start));
    }
}

/// Parses `v` as `u64::from_str` does.
pub fn parse_u64_chars(v: &Vec<char>) -> (r: Option<u64>)
    ensures
        r == parse_u64(v@),
{
    if v.len() > 0 && v[0] == '+' {
        proof {
            assert(v@.skip(1) =~= v@.drop_first());
        }
        parse_u64_digits(v, 1)
    } else {
        proof {
            assert(v@.skip(0) =~= v@);
        }
        parse_u64_digits(v, 0)
    }
}

/// The fields of `s` split at every comma; one field more than there are
/// commas, so the empty text yields one empty field.
pub open spec fn split_commas_from(s: Seq<char>, i: int, cur: Seq<char>, acc: Seq<Seq<char>>) -> Seq<
    Seq<char>,
>
    decreases s.len() - i,
{
    if !(0 <= i < s.len()) {
        acc.push(cur)
    } else if s[i] == ',' {
        split_commas_from(s, i + 1, Seq::empty(), acc.push(cur))
    } else {
        split_commas_from(s, i + 1, cur.push(s[i]), acc)
    }
}

/// `s` split at every comma.
pub open spec fn split_commas(s: Seq<char>) -> Seq<Seq<char>> {
    split_commas_from(s, 0, Seq::empty(), Seq::empty())
}

/// Splits `v` at every comma.
pub fn split_commas_exec(v: &Vec<char>) -> (r: Vec<Vec<char>>)
    ensures
        r.deep_view() == split_commas(v@),
{
    let mut acc: Vec<Vec<char>> = Vec::new();
    let mut cur: Vec<char> = Vec::new();
    let mut i: usize = 0;
    proof {
        assert(acc.deep_view() =~~= Seq::<Seq<char>>::empty());
    }
    while i < v.len()
        invariant
            i <= v@.len(),
            split_commas_from(v@, i as int, cur@, acc.deep_view()) == split_commas(v@),
        decreases v@.len() - i,
    {
        if v[i] == ',' {
            let ghost prev = acc.deep_view();
            let ghost curv = cur@;
            acc.push(cur);
            cur = Vec::new();
            proof {
                assert(acc.deep_view() =~~= prev.push(curv));
            }
        } else {
            cur.push(v[i]);
        }
        i += 1;
    }
    let ghost prev = acc.deep_view();
    let ghost curv = cur@;
    acc.push(cur);
    proof {
        assert(acc.deep_view() =~~= prev.push(curv));
    }
    acc
}

/// `parts` joined with a single comma between fields.
pub open spec fn join_commas(parts: Seq<Seq<char>>) -> Seq<char>
    decreases parts.len(),
{
    if parts.len() == 0 {
        Seq::empty()
    } else if parts.len() == 1 {
        parts[0]
    } else {
        join_commas(parts.drop_last()) + seq![','] + parts.last()
    }
}

/// Appends the comma-joined `parts` to `out`.
pub fn push_joined_commas(out: &mut Vec<char>, parts: &Vec<String>)
    ensures
        final(out)@ == old(out)@ + join_commas(parts.deep_view()),
{
    let mut i: usize = 0;
    while i < parts.len()
        invariant
            i <= parts@.len(),
            out@ == old(out)@ + join_commas(parts.deep_view().take(i as int)),
        decreases parts@.len() - i,
    {
        if i > 0 {
            out.push(',');
        }
        push_str_chars(out, parts[i].as_str());
        proof {
            let pv = parts.deep_view();
            assert(pv.take(i as int + 1).drop_last() =~= pv.take(i as int));
            assert(pv.take(i as int + 1).last() == pv[i as int]);
            if i == 0 {
                assert(pv.take(1)[0] == pv[0]);
            }
        }
        i += 1;
    }
    proof {
        assert(parts.deep_view().take(parts@.len() as int) =~= parts.deep_view());
    }
}

} // verus!
