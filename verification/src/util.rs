//! String helpers: decimal formatting and parsing with exact contracts,
//! and title-casing built on the standard library's case folding.

use vstd::prelude::*;
use vstd::string::StrSliceExecFns;
use vstd::string::StringExecFns;

verus! {

/// The character for one decimal digit.
pub open spec fn digit_char(d: nat) -> char {
    if d == 0 {
        '0'
    } else if d == 1 {
        '1'
    } else if d == 2 {
        '2'
    } else if d == 3 {
        '3'
    } else if d == 4 {
        '4'
    } else if d == 5 {
        '5'
    } else if d == 6 {
        '6'
    } else if d == 7 {
        '7'
    } else if d == 8 {
        '8'
    } else {
        '9'
    }
}

/// The usual decimal rendering of `n`, most significant digit first, no
/// leading zeros (except for `n == 0` itself).
pub open spec fn dec_digits(n: nat) -> Seq<char>
    decreases n,
{
    if n < 10 {
        seq![digit_char(n)]
    } else {
        dec_digits(n / 10) + seq![digit_char(n % 10)]
    }
}

/// The decimal rendering of a signed value: a minus sign, if negative,
/// then the digits of the magnitude.
pub open spec fn dec_digits_signed(n: int) -> Seq<char> {
    if n < 0 {
        seq!['-'] + dec_digits((-n) as nat)
    } else {
        dec_digits(n as nat)
    }
}

/// A decimal digit character.
pub open spec fn is_dec_digit(c: char) -> bool {
    48 <= c as int <= 57
}

/// Every character of `s` is a decimal digit.
pub open spec fn all_dec_digits(s: Seq<char>) -> bool {
    forall|i: int| 0 <= i < s.len() ==> is_dec_digit(s[i])
}

/// The numeric value of one digit character (0 for a non-digit, so that
/// `dec_value` is monotone over prefixes whatever the sequence holds).
pub open spec fn char_digit_val(c: char) -> nat {
    if is_dec_digit(c) {
        (c as int - 48) as nat
    } else {
        0
    }
}

/// The value of a digit string read in base 10.
pub open spec fn dec_value(s: Seq<char>) -> nat
    decreases s.len(),
{
    if s.len() == 0 {
        0
    } else {
        dec_value(s.drop_last()) * 10 + char_digit_val(s.last())
    }
}

/// Reading more digits can only increase the value.
pub proof fn lemma_dec_value_prefix(s: Seq<char>, j: int)
    requires
        0 <= j <= s.len(),
    ensures
        dec_value(s.take(j)) <= dec_value(s),
    decreases s.len() - j,
{
    if j < s.len() {
        assert(s.take(j + 1).drop_last() =~= s.take(j));
        assert(dec_value(s.take(j + 1)) == dec_value(s.take(j)) * 10 + char_digit_val(
            s.take(j + 1).last(),
        ));
        lemma_dec_value_prefix(s, j + 1);
    } else {
        assert(s.take(j) =~= s);
    }
}

/// The one-character string for a decimal digit.
fn digit_str(d: u64) -> (r: &'static str)
    requires
        d < 10,
    ensures
        r@ == seq![digit_char(d as nat)],
{
    let r: &'static str = match d {
        0 => "0",
        1 => "1",
        2 => "2",
        3 => "3",
        4 => "4",
        5 => "5",
        6 => "6",
        7 => "7",
        8 => "8",
        _ => "9",
    };
    proof {
        reveal_strlit("0");
        reveal_strlit("1");
        reveal_strlit("2");
        reveal_strlit("3");
        reveal_strlit("4");
        reveal_strlit("5");
        reveal_strlit("6");
        reveal_strlit("7");
        reveal_strlit("8");
        reveal_strlit("9");
        assert(r@ =~= seq![digit_char(d as nat)]);
    }
    r
}

/// Render `n` in decimal.
pub fn u64_to_string(n: u64) -> (r: String)
    ensures
        r@ == dec_digits(n as nat),
    decreases n,
{
    if n < 10 {
        let r = digit_str(n).to_owned();
        proof {
            assert(r@ =~= dec_digits(n as nat));
        }
        r
    } else {
        let head = u64_to_string(n / 10);
        let tail = digit_str(n % 10);
        let r = head.concat(tail);
        proof {
            assert(r@ =~= dec_digits(n as nat));
        }
        r
    }
}

/// Render `n` in decimal, with a minus sign if it is negative.
pub fn i64_to_string(n: i64) -> (r: String)
    ensures
        r@ == dec_digits_signed(n as int),
{
    if n >= 0 {
        u64_to_string(n as u64)
    } else {
        let magnitude: u64 = if n == i64::MIN {
            9223372036854775808u64
        } else {
            (-n) as u64
        };
        let r = "-".to_owned().concat(u64_to_string(magnitude).as_str());
        proof {
            reveal_strlit("-");
            assert(r@ =~= dec_digits_signed(n as int));
        }
        r
    }
}

/// Parse a string of decimal digits into a `u64`.
///
/// Returns the value exactly when the string is non-empty, holds only
/// decimal digits, and the value fits; no sign, no surrounding space.
pub fn parse_u64(s: &str) -> (r: Option<u64>)
    ensures
        r is Some <==> (s@.len() > 0 && all_dec_digits(s@) && dec_value(s@) <= u64::MAX),
        r matches Some(v) ==> v == dec_value(s@),
{
    let n = s.unicode_len();
    if n == 0 {
        return None;
    }
    let mut val: u64 = 0;
    let mut i: usize = 0;
    while i < n
        invariant
            n == s@.len(),
            0 <= i <= n,
            forall|k: int| 0 <= k < i ==> is_dec_digit(s@[k]),
            val == dec_value(s@.take(i as int)),
        decreases n - i,
    {
        let c = s.get_char(i);
        let cv = c as u32;
        if cv < 48 || cv > 57 {
            return None;
        }
        let d = (cv - 48) as u64;
        proof {
            assert(s@.take(i + 1).drop_last() =~= s@.take(i as int));
            assert(s@.take(i + 1).last() == s@[i as int]);
        }
        if val > (u64::MAX - d) / 10 {
            proof {
                assert(dec_value(s@.take(i + 1)) > u64::MAX);
                lemma_dec_value_prefix(s@, i + 1);
            }
            return None;
        }
        proof {
            assert(val * 10 <= (u64::MAX - d) / 10 * 10 <= u64::MAX - d);
        }
        val = val * 10 + d;
        i = i + 1;
    }
    proof {
        assert(s@.take(n as int) =~= s@);
    }
    Some(val)
}

/// What `str::to_lowercase` returns for a given character sequence; the
/// result depends on the characters alone.
pub uninterp spec fn lower_of(s: Seq<char>) -> Seq<char>;

/// What `str::to_uppercase` returns for a given character sequence; the
/// result depends on the characters alone.
pub uninterp spec fn upper_of(s: Seq<char>) -> Seq<char>;

/// Relies on str::to_lowercase: lower-cases every character of the
/// string; an empty string stays empty.
#[verifier::external_body]
fn lowercase(s: &str) -> (r: String)
    ensures
        r@ == lower_of(s@),
        s@.len() == 0 ==> r@.len() == 0,
{
    s.to_lowercase()
}

/// Relies on str::to_uppercase: upper-cases every character of the
/// string; an empty string stays empty.
#[verifier::external_body]
fn uppercase(s: &str) -> (r: String)
    ensures
        r@ == upper_of(s@),
        s@.len() == 0 ==> r@.len() == 0,
{
    s.to_uppercase()
}

/// The title-cased form of `s`: its first character upper-cased, the
/// rest lower-cased.
pub open spec fn title_case_spec(s: Seq<char>) -> Seq<char> {
    upper_of(s.take(1)) + lower_of(s.skip(1))
}

/// The notification key of one game for one summoner, used to notify
/// each detected game only once.
pub fn game_key(name: &str, game_id: u64) -> (r: String)
    ensures
        r@ == name@ + "-"@ + dec_digits(game_id as nat),
{
    name.to_owned().concat("-").concat(u64_to_string(game_id).as_str())
}

/// Extra string operations the rendering layer uses.
pub trait StringExt: View<V = Seq<char>> + Sized {
    /// Upper-case the first character and lower-case the rest, turning a
    /// rank tier such as an all-caps league name into a display form.
    fn title_case(self) -> (r: String)
        requires
            self@.len() >= 1,
        ensures
            r@ == title_case_spec(self@),
    ;
}

impl StringExt for String {
    fn title_case(self) -> (r: String) {
        let n = self.as_str().unicode_len();
        let head = self.as_str().substring_char(0, 1);
        let up = uppercase(head);
        let tail = self.as_str().substring_char(1, n);
        let low = lowercase(tail);
        let r = up.concat(low.as_str());
        proof {
            assert(self@.subrange(0, 1) =~= self@.take(1));
            assert(self@.subrange(1, self@.len() as int) =~= self@.skip(1));
        }
        r
    }
}

} // verus!
