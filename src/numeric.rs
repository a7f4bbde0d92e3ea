//! Numeric wire fields, kept as canonical decimal text.
//!
//! Exchanges send prices and sizes as decimal strings or as numbers; both are
//! handled as text. A field is accepted when it is a run of digits, optionally
//! followed by a dot and a second non-empty run of digits. The canonical form
//! drops the trailing zeros of the fraction, and the dot with it when nothing
//! is left, so `"43244.39000000"` becomes `"43244.39"` and `"100.0"` becomes
//! `"100"`.

use vstd::prelude::*;
use vstd::string::*;

verus! {

pub open spec fn is_digit(c: char) -> bool {
    '0' <= c && c <= '9'
}

pub open spec fn all_digits(s: Seq<char>) -> bool {
    forall|i: int| 0 <= i < s.len() ==> is_digit(#[trigger] s[i])
}

/// `s` is a non-empty run of digits, a dot at `k`, and a non-empty run of digits.
pub open spec fn dotted_at(s: Seq<char>, k: int) -> bool {
    &&& 0 < k < s.len() - 1
    &&& s[k] == '.'
    &&& all_digits(s.subrange(0, k))
    &&& all_digits(s.subrange(k + 1, s.len() as int))
}

/// The texts accepted as numeric fields.
pub open spec fn is_numeric_text(s: Seq<char>) -> bool {
    (s.len() > 0 && all_digits(s)) || exists|k: int| dotted_at(s, k)
}

pub open spec fn trim_trailing_zeros(f: Seq<char>) -> Seq<char>
    decreases f.len(),
{
    if f.len() > 0 && f.last() == '0' {
        trim_trailing_zeros(f.drop_last())
    } else {
        f
    }
}

/// The canonical form of an accepted numeric text.
pub open spec fn canonical_numeric(s: Seq<char>) -> Seq<char> {
    if all_digits(s) {
        s
    } else {
        let k = choose|k: int| dotted_at(s, k);
        let frac = trim_trailing_zeros(s.subrange(k + 1, s.len() as int));
        if frac.len() == 0 {
            s.subrange(0, k)
        } else {
            s.subrange(0, k + 1) + frac
        }
    }
}

/// Why a numeric field was refused.
#[derive(Clone, Copy, Debug, PartialEq, Eq, Structural)]
pub enum NumericError {
    /// The field is empty.
    Empty,
    /// The field is not a decimal number.
    Malformed,
}

/// A non-negative decimal number held as its canonical text.
#[derive(Clone, Debug)]
pub struct Decimal {
    text: String,
}

impl View for Decimal {
    type V = Seq<char>;

    closed spec fn view(&self) -> Seq<char> {
        self.text@
    }
}

proof fn lemma_trim_stops(f: Seq<char>, e: int)
    requires
        0 <= e <= f.len(),
        forall|j: int| e <= j < f.len() ==> f[j] == '0',
        e == 0 || f[e - 1] != '0',
    ensures
        trim_trailing_zeros(f) == f.subrange(0, e),
    decreases f.len(),
{
    if f.len() > e {
        assert(f.drop_last() =~= f.subrange(0, f.len() - 1));
        lemma_trim_stops(f.drop_last(), e);
        assert(f.drop_last().subrange(0, e) =~= f.subrange(0, e));
    } else {
        assert(f.subrange(0, e) =~= f);
    }
}

impl Decimal {
    /// The number zero.
    pub fn zero() -> (r: Decimal)
        ensures
            r@ == seq!['0'],
    {
        let text = "0".to_string();
        proof {
            reveal_strlit("0");
        }
        Decimal { text }
    }

    /// The same number, as a value of its own.
    pub fn duplicate(&self) -> (r: Decimal)
        ensures
            r@ == self@,
    {
        Decimal { text: self.text.clone() }
    }

    /// The canonical text of the number.
    pub fn as_str(&self) -> (r: &str)
        ensures
            r@ == self@,
    {
        self.text.as_str()
    }
}

/// Parses a numeric wire field into its canonical decimal form.
pub fn parse_numeric(s: &str) -> (r: Result<Decimal, NumericError>)
    ensures
        r == Err::<Decimal, NumericError>(NumericError::Empty) <==> s@.len() == 0,
        r == Err::<Decimal, NumericError>(NumericError::Malformed) <==> (s@.len() > 0
            && !is_numeric_text(s@)),
        r is Ok <==> is_numeric_text(s@),
        r matches Ok(d) ==> d@ == canonical_numeric(s@),
{
    let n = s.unicode_len();
    if n == 0 {
        return Err(NumericError::Empty);
    }
    let mut k: usize = 0;
    while k < n && '0' <= s.get_char(k) && s.get_char(k) <= '9'
        invariant
            k <= n,
            n == s@.len(),
            forall|j: int| 0 <= j < k ==> is_digit(#[trigger] s@[j]),
        decreases n - k,
    {
        k += 1;
    }
    if k == n {
        return Ok(Decimal { text: s.to_string() });
    }
    assert(!all_digits(s@));
    if k == 0 || s.get_char(k) != '.' || k + 1 == n {
        proof {
            assert forall|m: int| !dotted_at(s@, m) by {
                if dotted_at(s@, m) && m > k {
                    assert(s@.subrange(0, m)[k as int] == s@[k as int]);
                }
            }
        }
        return Err(NumericError::Malformed);
    }
    let mut j: usize = k + 1;
    while j < n && '0' <= s.get_char(j) && s.get_char(j) <= '9'
        invariant
            k + 1 <= j <= n,
            n == s@.len(),
            forall|i: int| k + 1 <= i < j ==> is_digit(#[trigger] s@[i]),
        decreases n - j,
    {
        j += 1;
    }
    if j < n {
        proof {
            assert forall|m: int| !dotted_at(s@, m) by {
                if dotted_at(s@, m) {
                    if m < k {
                        assert(!is_digit(s@.subrange(0, m + 1)[m]));
                    } else if m > k {
                        assert(is_digit(s@.subrange(0, m)[k as int]));
                    } else {
                        assert(is_digit(s@.subrange(k + 1, s@.len() as int)[j - k - 1]));
                    }
                }
            }
        }
        return Err(NumericError::Malformed);
    }
    assert(dotted_at(s@, k as int)) by {
        assert forall|i: int| 0 <= i < k implies is_digit(#[trigger] s@.subrange(0, k as int)[i]) by {
            assert(s@.subrange(0, k as int)[i] == s@[i]);
        }
        assert forall|i: int| 0 <= i < n - k - 1 implies is_digit(
            #[trigger] s@.subrange(k + 1, n as int)[i],
        ) by {
            assert(s@.subrange(k + 1, n as int)[i] == s@[k + 1 + i]);
        }
    }
    let mut e: usize = n;
    while e > k + 1 && s.get_char(e - 1) == '0'
        invariant
            k + 1 <= e <= n,
            n == s@.len(),
            forall|i: int| e <= i < n ==> s@[i] == '0',
        decreases e,
    {
        e -= 1;
    }
    let ghost frac = s@.subrange(k + 1, n as int);
    proof {
        assert forall|m: int| dotted_at(s@, m) implies m == k by {
            if m < k {
                assert(!is_digit(s@.subrange(0, m + 1)[m]));
                assert(is_digit(s@[m]));
            } else if m > k {
                assert(is_digit(s@.subrange(0, m)[k as int]));
            }
        }
        lemma_trim_stops(frac, e - k - 1);
        assert(frac.subrange(0, e - k - 1) =~= s@.subrange(k + 1, e as int));
    }
    let end = if e == k + 1 { k } else { e };
    let text = s.substring_char(0, end).to_string();
    proof {
        if e > k + 1 {
            assert(s@.subrange(0, e as int) =~= s@.subrange(0, k + 1) + s@.subrange(
                k + 1,
                e as int,
            ));
        }
    }
    Ok(Decimal { text })
}

} // verus!
