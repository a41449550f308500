//! Plain-text helpers shared by the log, prompt and rendering code:
//! decimal rendering of integers, substring search, and digit parsing.

use vstd::prelude::*;

verus! {

/// The character that renders a single decimal digit.
pub open spec fn digit_char(d: nat) -> char
    recommends
        d < 10,
{
    if d == 0 {
        '0'
    } else if d == 1 {
        '1'
    } else if d == 2 {
        '2'
    } else if d == 3 {
        '3'
    } else if d == 4 {
        '4'
    } else if d == 5 {
        '5'
    } else if d == 6 {
        '6'
    } else if d == 7 {
        '7'
    } else if d == 8 {
        '8'
    } else {
        '9'
    }
}

/// The decimal rendering of `n`, without sign or padding.
pub open spec fn decimal_spec(n: nat) -> Seq<char>
    decreases n,
{
    if n < 10 {
        seq![digit_char(n)]
    } else {
        decimal_spec(n / 10).push(digit_char(n % 10))
    }
}

fn digit_str(d: u64) -> (r: &'static str)
    requires
        d < 10,
    ensures
        r@ == seq![digit_char(d as nat)],
{
    match d {
        0 => {
            proof {
                reveal_strlit("0");
                assert("0"@ =~= seq![digit_char(0)]);
            }
            "0"
        },
        1 => {
            proof {
                reveal_strlit("1");
                assert("1"@ =~= seq![digit_char(1)]);
            }
            "1"
        },
        2 => {
            proof {
                reveal_strlit("2");
                assert("2"@ =~= seq![digit_char(2)]);
            }
            "2"
        },
        3 => {
            proof {
                reveal_strlit("3");
                assert("3"@ =~= seq![digit_char(3)]);
            }
            "3"
        },
        4 => {
            proof {
                reveal_strlit("4");
                assert("4"@ =~= seq![digit_char(4)]);
            }
            "4"
        },
        5 => {
            proof {
                reveal_strlit("5");
                assert("5"@ =~= seq![digit_char(5)]);
            }
            "5"
        },
        6 => {
            proof {
                reveal_strlit("6");
                assert("6"@ =~= seq![digit_char(6)]);
            }
            "6"
        },
        7 => {
            proof {
                reveal_strlit("7");
                assert("7"@ =~= seq![digit_char(7)]);
            }
            "7"
        },
        8 => {
            proof {
                reveal_strlit("8");
                assert("8"@ =~= seq![digit_char(8)]);
            }
            "8"
        },
        _ => {
            proof {
                reveal_strlit("9");
                assert("9"@ =~= seq![digit_char(9)]);
            }
            "9"
        },
    }
}

/// Renders `n` in decimal.
pub fn decimal_string(n: u64) -> (r: String)
    ensures
        r@ == decimal_spec(n as nat),
    decreases n,
{
    if n < 10 {
        digit_str(n).to_owned()
    } else {
        let mut s = decimal_string(n / 10);
        s.append(digit_str(n % 10));
        proof {
            assert(s@ =~= decimal_spec(n as nat));
        }
        s
    }
}

/// The decimal rendering of `n`, padded on the left with one zero when it
/// would otherwise be a single digit.
pub open spec fn two_digit_spec(n: nat) -> Seq<char> {
    if n < 10 {
        seq!['0'] + decimal_spec(n)
    } else {
        decimal_spec(n)
    }
}

/// Renders `n` in decimal with at least two digits.
pub fn two_digit_string(n: u64) -> (r: String)
    ensures
        r@ == two_digit_spec(n as nat),
{
    if n < 10 {
        proof {
            reveal_strlit("0");
            assert("0"@ =~= seq!['0']);
        }
        let mut s = "0".to_owned();
        let rest = decimal_string(n);
        s.append(rest.as_str());
        s
    } else {
        decimal_string(n)
    }
}

/// `part` written out `n` times in a row.
pub open spec fn repeat_spec(part: Seq<char>, n: nat) -> Seq<char>
    decreases n,
{
    if n == 0 {
        Seq::empty()
    } else {
        repeat_spec(part, (n - 1) as nat) + part
    }
}

/// A repetition is as long as its copies put together.
pub proof fn lemma_repeat_len(part: Seq<char>, n: nat)
    ensures
        repeat_spec(part, n).len() == n * part.len(),
    decreases n,
{
    if n > 0 {
        lemma_repeat_len(part, (n - 1) as nat);
        let l = part.len();
        assert(repeat_spec(part, n).len() == ((n - 1) as nat) * l + l);
        assert(((n - 1) as nat) * l + l == n * l) by (nonlinear_arith)
            requires
                n >= 1,
        ;
        assert(repeat_spec(part, n).len() == n * part.len());
    } else {
        assert(repeat_spec(part, n).len() == 0);
        assert(n * part.len() == 0);
    }
}

/// Concatenates `n` copies of `part`.
pub fn repeat_fragment(part: &str, n: usize) -> (r: String)
    ensures
        r@ == repeat_spec(part@, n as nat),
{
    let mut s = String::new();
    proof {
        assert(s@ =~= repeat_spec(part@, 0));
    }
    let mut i: usize = 0;
    while i < n
        invariant
            i <= n,
            s@ == repeat_spec(part@, i as nat),
        decreases n - i,
    {
        s.append(part);
        i = i + 1;
    }
    s
}

/// Whether `needle` occurs in `hay` starting at position `i`.
pub open spec fn matches_at(hay: Seq<char>, needle: Seq<char>, i: int) -> bool {
    &&& 0 <= i
    &&& i + needle.len() <= hay.len()
    &&& hay.subrange(i, i + needle.len() as int) == needle
}

/// Whether `needle` occurs anywhere in `hay`.
pub open spec fn spec_contains(hay: Seq<char>, needle: Seq<char>) -> bool {
    exists|i: int| matches_at(hay, needle, i)
}

/// Substring search by character positions.
pub fn contains_substring(hay: &str, needle: &str) -> (r: bool)
    ensures
        r == spec_contains(hay@, needle@),
{
    let hay_len = hay.unicode_len();
    let needle_len = needle.unicode_len();
    if needle_len > hay_len {
        proof {
            assert(forall|i: int| !matches_at(hay@, needle@, i));
        }
        return false;
    }
    let mut i: usize = 0;
    while i <= hay_len - needle_len
        invariant
            needle_len <= hay_len,
            hay_len == hay@.len(),
            needle_len == needle@.len(),
            i <= hay_len - needle_len + 1,
            forall|j: int| 0 <= j < i ==> !matches_at(hay@, needle@, j),
        decreases hay_len - needle_len - i + 1,
    {
        let mut k: usize = 0;
        let mut ok = true;
        while k < needle_len && ok
            invariant
                needle_len <= hay_len,
                hay_len == hay@.len(),
                needle_len == needle@.len(),
                i <= hay_len - needle_len,
                k <= needle_len,
                ok ==> forall|j: int| 0 <= j < k ==> hay@[i + j] == needle@[j],
                !ok ==> !matches_at(hay@, needle@, i as int),
            decreases needle_len - k + (if ok { 1int } else { 0int }),
        {
            if hay.get_char(i + k) != needle.get_char(k) {
                proof {
                    assert(hay@.subrange(i as int, i + needle@.len()) != needle@) by {
                        if hay@.subrange(i as int, i + needle@.len()) == needle@ {
                            assert(hay@.subrange(i as int, i + needle@.len())[k as int]
                                == hay@[i + k]);
                        }
                    }
                }
                ok = false;
            } else {
                k = k + 1;
            }
        }
        if ok {
            proof {
                assert(hay@.subrange(i as int, i + needle@.len()) =~= needle@);
                assert(matches_at(hay@, needle@, i as int));
            }
            return true;
        }
        if i == hay_len - needle_len {
            proof {
                assert forall|j: int| !matches_at(hay@, needle@, j) by {
                    if matches_at(hay@, needle@, j) {
                        assert(0 <= j < i || j == i);
                    }
                }
            }
            return false;
        }
        i = i + 1;
    }
    proof {
        assert forall|j: int| !matches_at(hay@, needle@, j) by {
            if matches_at(hay@, needle@, j) {
                assert(0 <= j < i);
            }
        }
    }
    false
}

/// Whether `c` is a decimal digit.
pub open spec fn is_digit(c: char) -> bool {
    c == '0' || c == '1' || c == '2' || c == '3' || c == '4' || c == '5' || c == '6' || c == '7'
        || c == '8' || c == '9'
}

/// The value of the digit `c`.
pub open spec fn digit_val(c: char) -> nat
    recommends
        is_digit(c),
{
    if c == '0' {
        0
    } else if c == '1' {
        1
    } else if c == '2' {
        2
    } else if c == '3' {
        3
    } else if c == '4' {
        4
    } else if c == '5' {
        5
    } else if c == '6' {
        6
    } else if c == '7' {
        7
    } else if c == '8' {
        8
    } else {
        9
    }
}

/// The number denoted by a sequence of decimal digits, most significant first.
pub open spec fn nat_of_digits(s: Seq<char>) -> nat
    decreases s.len(),
{
    if s.len() == 0 {
        0
    } else {
        nat_of_digits(s.drop_last()) * 10 + digit_val(s.last())
    }
}

/// Whether `s` is a non-empty run of decimal digits whose value fits in a `u64`.
pub open spec fn is_u64_digits(s: Seq<char>) -> bool {
    &&& s.len() > 0
    &&& forall|i: int| 0 <= i < s.len() ==> is_digit(#[trigger] s[i])
    &&& nat_of_digits(s) <= u64::MAX
}

proof fn lemma_nat_of_digits_prefix_mono(s: Seq<char>, i: int)
    requires
        0 <= i <= s.len(),
    ensures
        nat_of_digits(s.take(i)) <= nat_of_digits(s),
    decreases s.len() - i,
{
    if i == s.len() {
        assert(s.take(i) =~= s);
    } else {
        lemma_nat_of_digits_prefix_mono(s, i + 1);
        assert(s.take(i + 1).drop_last() =~= s.take(i));
    }
}

fn exec_digit_val(c: char) -> (r: Option<u64>)
    ensures
        r is Some <==> is_digit(c),
        r is Some ==> r->0 == digit_val(c),
{
    match c {
        '0' => Some(0),
        '1' => Some(1),
        '2' => Some(2),
        '3' => Some(3),
        '4' => Some(4),
        '5' => Some(5),
        '6' => Some(6),
        '7' => Some(7),
        '8' => Some(8),
        '9' => Some(9),
        _ => None,
    }
}

/// Reads `s` as an unsigned decimal number; where `s` is empty, holds a
/// non-digit, or denotes a value too large for a `u64`, hands back `default`.
pub fn parse_u64_or(s: &str, default: u64) -> (r: u64)
    ensures
        r == if is_u64_digits(s@) {
            nat_of_digits(s@) as u64
        } else {
            default
        },
{
    let len = s.unicode_len();
    if len == 0 {
        return default;
    }
    let mut acc: u64 = 0;
    let mut i: usize = 0;
    while i < len
        invariant
            len == s@.len(),
            0 < len,
            i <= len,
            forall|j: int| 0 <= j < i ==> is_digit(#[trigger] s@[j]),
            acc == nat_of_digits(s@.take(i as int)),
        decreases len - i,
    {
        let c = s.get_char(i);
        let d = match exec_digit_val(c) {
            Some(d) => d,
            None => {
                return default;
            },
        };
        if acc > (u64::MAX - d) / 10 {
            proof {
                assert(s@.take(i + 1).drop_last() =~= s@.take(i as int));
                assert(nat_of_digits(s@.take(i + 1)) > u64::MAX);
                lemma_nat_of_digits_prefix_mono(s@, i + 1);
            }
            return default;
        }
        proof {
            assert(s@.take(i + 1).drop_last() =~= s@.take(i as int));
        }
        acc = acc * 10 + d;
        i = i + 1;
    }
    proof {
        assert(s@.take(len as int) =~= s@);
    }
    acc
}

} // verus!
