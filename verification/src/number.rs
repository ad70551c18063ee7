//! Decimal numerals: the form in which the library holds a number that is
//! not an integer.

use crate::deep::DeepClone;
use crate::text::{chars_of, push_signed_decimal, signed_decimal};
use vstd::prelude::*;

verus! {

pub open spec fn is_digit(c: char) -> bool {
    0x30 <= c as u32 <= 0x39
}

/// One digit or more, and nothing else.
pub open spec fn all_digits(s: Seq<char>) -> bool {
    s.len() > 0 && forall|i: int| 0 <= i < s.len() ==> is_digit(#[trigger] s[i])
}

/// Digits, or digits on both sides of one point.
pub open spec fn is_unsigned_numeral(s: Seq<char>) -> bool {
    all_digits(s) || exists|k: int|
        0 < k < s.len() - 1 && #[trigger] s[k] == '.' && all_digits(s.take(k)) && all_digits(
            s.skip(k + 1),
        )
}

/// The texts that stand for a number: `NaN`, `inf`, `-inf`, and a decimal
/// numeral with an optional `-` in front and an optional fraction.
pub open spec fn is_numeral(s: Seq<char>) -> bool {
    ||| s == seq!['N', 'a', 'N']
    ||| s == seq!['i', 'n', 'f']
    ||| s == seq!['-', 'i', 'n', 'f']
    ||| is_unsigned_numeral(s)
    ||| (s.len() > 0 && s[0] == '-' && is_unsigned_numeral(s.drop_first()))
}

/// A floating-point number, held as its decimal numeral.
#[derive(Debug, PartialEq, Eq)]
pub struct Float {
    text: String,
}

impl View for Float {
    type V = Seq<char>;

    closed spec fn view(&self) -> Seq<char> {
        self.text@
    }
}

impl DeepView for Float {
    type V = Seq<char>;

    open spec fn deep_view(&self) -> Seq<char> {
        self@
    }
}

impl DeepClone for Float {
    fn deep_clone(&self) -> (copy: Self) {
        self.clone()
    }
}

impl Clone for Float {
    fn clone(&self) -> (c: Self)
        ensures
            c@ == self@,
    {
        proof {
            use_type_invariant(self);
        }
        Float { text: self.text.clone() }
    }
}

fn digit(c: char) -> (b: bool)
    ensures
        b == is_digit(c),
{
    let n: u32 = c as u32;
    0x30 <= n && n <= 0x39
}

/// Whether `cs[from..]` is digits, or digits on both sides of one point.
fn unsigned_numeral(cs: &Vec<char>, from: usize) -> (b: bool)
    requires
        from <= cs.len(),
    ensures
        b == is_unsigned_numeral(cs@.skip(from as int)),
{
    let ghost s = cs@.skip(from as int);
    let mut i: usize = from;
    let mut point: Option<usize> = None;
    while i < cs.len()
        invariant
            from <= i <= cs.len(),
            s == cs@.skip(from as int),
            match point {
                Some(k) => from <= k < i && cs@[k as int] == '.',
                None => true,
            },
            forall|j: int| from <= j < i && Some(j as usize) != point ==> is_digit(cs@[j]),
        decreases cs.len() - i,
    {
        let c = cs[i];
        if c == '.' {
            if point.is_some() {
                proof {
                    let first = point->0 as int - from;
                    let second = i as int - from;
                    assert(s[first] == '.' && s[second] == '.');
                    assert(!is_digit('.'));
                    assert(!all_digits(s));
                    assert forall|k: int| 0 < k < s.len() - 1 && #[trigger] s[k] == '.' implies !(
                    all_digits(s.take(k)) && all_digits(s.skip(k + 1))) by {
                        if k <= first {
                            assert(s.skip(k + 1)[second - k - 1] == '.');
                        } else {
                            assert(s.take(k)[first] == '.');
                        }
                    }
                }
                return false;
            }
            point = Some(i);
        } else if !digit(c) {
            proof {
                let bad = i as int - from;
                assert(s[bad] == c);
                assert(!all_digits(s));
                assert forall|k: int| 0 < k < s.len() - 1 && #[trigger] s[k] == '.' implies !(
                all_digits(s.take(k)) && all_digits(s.skip(k + 1))) by {
                    if bad < k {
                        assert(s.take(k)[bad] == c);
                    } else {
                        assert(s.skip(k + 1)[bad - k - 1] == c);
                    }
                }
            }
            return false;
        }
        i = i + 1;
    }
    proof {
        assert forall|j: int| 0 <= j < s.len() && Some((j + from) as usize) != point implies is_digit(
            s[j],
        ) by {
            assert(s[j] == cs@[j + from]);
        }
        assert(!is_digit('.'));
    }
    match point {
        None => {
            proof {
                if s.len() > 0 {
                    assert(all_digits(s));
                } else {
                    assert(!is_unsigned_numeral(s));
                }
            }
            cs.len() > from
        },
        Some(k) => {
            let ok = k > from && k + 1 < cs.len();
            proof {
                let at = k as int - from;
                assert(s[at] == '.');
                assert(!all_digits(s));
                if ok {
                    assert forall|j: int| 0 <= j < s.take(at).len() implies is_digit(
                        #[trigger] s.take(at)[j],
                    ) by {
                        assert(s.take(at)[j] == s[j]);
                    }
                    assert forall|j: int| 0 <= j < s.skip(at + 1).len() implies is_digit(
                        #[trigger] s.skip(at + 1)[j],
                    ) by {
                        assert(s.skip(at + 1)[j] == s[j + at + 1]);
                    }
                    assert(all_digits(s.take(at)) && all_digits(s.skip(at + 1)));
                } else {
                    assert forall|m: int| 0 < m < s.len() - 1 && #[trigger] s[m] == '.' implies !(
                    all_digits(s.take(m)) && all_digits(s.skip(m + 1))) by {
                        assert(m == at) by {
                            if m != at {
                                assert(is_digit(s[m]));
                            }
                        }
                    }
                }
            }
            ok
        },
    }
}

impl Float {
    #[verifier::type_invariant]
    closed spec fn numeral(&self) -> bool {
        is_numeral(self.text@)
    }

    /// Takes `text` as a number where it is a numeral, and gives `None`
    /// where it is not.
    pub fn parse(text: &str) -> (parsed: Option<Float>)
        ensures
            parsed is Some == is_numeral(text@),
            parsed is Some ==> parsed->0@ == text@,
    {
        let cs = chars_of(text);
        let n = cs.len();
        let word = (n == 3 && cs[0] == 'N' && cs[1] == 'a' && cs[2] == 'N') || (n == 3 && cs[0]
            == 'i' && cs[1] == 'n' && cs[2] == 'f') || (n == 4 && cs[0] == '-' && cs[1] == 'i'
            && cs[2] == 'n' && cs[3] == 'f');
        proof {
            assert(word == (cs@ =~= seq!['N', 'a', 'N'] || cs@ =~= seq!['i', 'n', 'f'] || cs@
                =~= seq!['-', 'i', 'n', 'f']));
            assert(cs@.skip(0) =~= cs@);
            if n > 0 {
                assert(cs@.skip(1) =~= cs@.drop_first());
            }
        }
        let ok = word || unsigned_numeral(&cs, 0) || (n > 0 && cs[0] == '-' && unsigned_numeral(
            &cs,
            1,
        ));
        if ok {
            Some(Float { text: text.to_owned() })
        } else {
            None
        }
    }

    /// The number that an integer stands for.
    pub fn from_i64(n: i64) -> (f: Float)
        ensures
            f@ == signed_decimal(n as int),
    {
        let mut text = String::new();
        push_signed_decimal(&mut text, n);
        proof {
            assert(text@ =~= signed_decimal(n as int));
            lemma_signed_decimal_is_numeral(n as int);
        }
        Float { text }
    }

    /// The numeral.
    pub fn as_str(&self) -> (s: &str)
        ensures
            s@ == self@,
            is_numeral(s@),
    {
        proof {
            use_type_invariant(self);
        }
        self.text.as_str()
    }
}

proof fn lemma_decimal_digits(n: nat)
    ensures
        all_digits(crate::text::decimal(n)),
    decreases n,
{
    if n >= 10 {
        lemma_decimal_digits(n / 10);
        let d = crate::text::decimal(n);
        assert forall|i: int| 0 <= i < d.len() implies is_digit(#[trigger] d[i]) by {
            if i < d.len() - 1 {
                assert(d[i] == crate::text::decimal(n / 10)[i]);
            }
        }
    }
}

proof fn lemma_signed_decimal_is_numeral(n: int)
    ensures
        is_numeral(signed_decimal(n)),
{
    if n < 0 {
        lemma_decimal_digits((-n) as nat);
        assert(signed_decimal(n).drop_first() =~= crate::text::decimal((-n) as nat));
    } else {
        lemma_decimal_digits(n as nat);
    }
}

} // verus!
