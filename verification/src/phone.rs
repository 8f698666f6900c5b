//! The phone-shape heuristic and the E.164 normalizer.
//!
//! The heuristic accepts a string when, after trimming, it is non-empty, at
//! most 20 characters long, made only of digits, `+`, `-`, space, `(` and
//! `)`, and holds at least 6 decimal digits. The normalizer keeps digits and
//! `+` from the raw input, then either leaves an already-international
//! number alone or prepends the configured country code, dropping a single
//! leading trunk `0`.

use crate::controller::{opt_str_view, MyApp};
use crate::strutil::{push_char, spec_trim, trim_str};
use vstd::prelude::*;
use vstd::string::StrSliceExecFns;
use vstd::string::StringExecFns;

verus! {

/// An ASCII decimal digit.
pub open spec fn is_digit(c: char) -> bool {
    let u = c as u32;
    48 <= u && u <= 57
}

/// Runtime test for [`is_digit`].
pub fn is_digit_char(c: char) -> (r: bool)
    ensures
        r == is_digit(c),
{
    let u = c as u32;
    48 <= u && u <= 57
}

/// A character the heuristic tolerates inside a phone number.
pub open spec fn is_phone_char(c: char) -> bool {
    is_digit(c) || c == '+' || c == '-' || c == ' ' || c == '(' || c == ')'
}

/// Number of ASCII decimal digits in `s`.
pub open spec fn digit_count(s: Seq<char>) -> int
    decreases s.len(),
{
    if s.len() == 0 {
        0
    } else {
        digit_count(s.drop_last()) + if is_digit(s.last()) {
            1int
        } else {
            0int
        }
    }
}

/// Whether `s` looks like a phone number: trimmed, it is 1 to 20 characters
/// of digits, `+`, `-`, space and parentheses, with at least 6 digits.
pub open spec fn spec_looks_like_phone(s: Seq<char>) -> bool {
    let t = spec_trim(s);
    &&& 1 <= t.len() <= 20
    &&& forall|i: int| 0 <= i < t.len() ==> is_phone_char(#[trigger] t[i])
    &&& digit_count(t) >= 6
}

/// A character the normalizer keeps from the raw input.
pub open spec fn keeps(c: char) -> bool {
    is_digit(c) || c == '+'
}

/// The subsequence of digits and `+` characters of `s`, in order.
pub open spec fn filter_keep(s: Seq<char>) -> Seq<char>
    decreases s.len(),
{
    if s.len() == 0 {
        Seq::<char>::empty()
    } else if keeps(s.last()) {
        filter_keep(s.drop_last()).push(s.last())
    } else {
        filter_keep(s.drop_last())
    }
}

/// The E.164 normalization of `raw` under the optional country code `cc`:
/// keep digits and `+`; if the result starts with `+` (or no country code is
/// configured) return it as is, otherwise prepend `+cc`, first dropping a
/// single leading trunk `0`. An empty country code counts as absent.
pub open spec fn spec_normalize(raw: Seq<char>, cc: Option<Seq<char>>) -> Seq<char> {
    let d = filter_keep(raw);
    if d.len() > 0 && d[0] == '+' {
        d
    } else {
        match cc {
            Some(c) => if c.len() == 0 {
                d
            } else if d.len() > 0 && d[0] == '0' {
                seq!['+'] + c + d.drop_first()
            } else {
                seq!['+'] + c + d
            },
            None => d,
        }
    }
}

/// Every character of `s` is an ASCII decimal digit.
pub open spec fn all_digits(s: Seq<char>) -> bool {
    forall|i: int| 0 <= i < s.len() ==> is_digit(#[trigger] s[i])
}

proof fn lemma_filter_keep_chars(s: Seq<char>)
    ensures
        forall|i: int| 0 <= i < filter_keep(s).len() ==> keeps(#[trigger] filter_keep(s)[i]),
    decreases s.len(),
{
    if s.len() == 0 {
    } else {
        lemma_filter_keep_chars(s.drop_last());
        let f = filter_keep(s.drop_last());
        assert forall|i: int| 0 <= i < filter_keep(s).len() implies keeps(
            #[trigger] filter_keep(s)[i],
        ) by {
            if keeps(s.last()) {
                assert(filter_keep(s) == f.push(s.last()));
                if i < f.len() {
                    assert(filter_keep(s)[i] == f[i]);
                } else {
                    assert(filter_keep(s)[i] == s.last());
                }
            } else {
                assert(filter_keep(s) == f);
            }
        }
    }
}

proof fn lemma_filter_keep_id(s: Seq<char>)
    requires
        forall|i: int| 0 <= i < s.len() ==> keeps(#[trigger] s[i]),
    ensures
        filter_keep(s) == s,
    decreases s.len(),
{
    if s.len() == 0 {
        assert(filter_keep(s) =~= s);
    } else {
        lemma_filter_keep_id(s.drop_last());
        assert(filter_keep(s) =~= s);
    }
}

/// Law: normalization is idempotent on every input whose first
/// normalization is empty or already international (begins with `+`),
/// provided the configured country code is made of decimal digits.
pub proof fn lemma_normalize_idempotent(x: Seq<char>, cc: Option<Seq<char>>)
    requires
        cc matches Some(c) ==> all_digits(c),
    ensures
        ({
            let n = spec_normalize(x, cc);
            (n.len() == 0 || n[0] == '+') ==> spec_normalize(n, cc) == n
        }),
{
    let d = filter_keep(x);
    let n = spec_normalize(x, cc);
    lemma_filter_keep_chars(x);
    if n.len() == 0 {
        assert(filter_keep(n) =~= n);
    } else if n[0] == '+' {
        if d.len() > 0 && d[0] == '+' {
            lemma_filter_keep_id(n);
        } else {
            match cc {
                Some(c) => {
                    if c.len() == 0 {
                        lemma_filter_keep_id(n);
                    } else {
                        let dd = if d.len() > 0 && d[0] == '0' {
                            d.drop_first()
                        } else {
                            d
                        };
                        assert(n == seq!['+'] + c + dd);
                        assert forall|i: int| 0 <= i < n.len() implies keeps(#[trigger] n[i]) by {
                            if i == 0 {
                                assert(n[i] == '+');
                            } else if i < 1 + c.len() {
                                assert(n[i] == c[i - 1]);
                            } else {
                                assert(n[i] == dd[i - 1 - c.len()]);
                                if d.len() > 0 && d[0] == '0' {
                                    assert(dd[i - 1 - c.len()] == d[i - c.len()]);
                                }
                            }
                        }
                        lemma_filter_keep_id(n);
                    }
                },
                None => {
                    lemma_filter_keep_id(n);
                },
            }
        }
    }
}

impl MyApp {
    /// Decides whether `text` looks like a phone number.
    pub fn looks_like_phone_number(text: &str) -> (r: bool)
        ensures
            r == spec_looks_like_phone(text@),
    {
        let trimmed = trim_str(text);
        let n = trimmed.unicode_len();
        if n == 0 || n > 20 {
            return false;
        }
        let mut digits: usize = 0;
        let mut i: usize = 0;
        while i < n
            invariant
                0 <= i <= n,
                n == trimmed@.len(),
                trimmed@ == spec_trim(text@),
                digits == digit_count(trimmed@.take(i as int)),
                digits <= i,
                forall|j: int| 0 <= j < i ==> is_phone_char(#[trigger] trimmed@[j]),
            decreases n - i,
        {
            let c = trimmed.get_char(i);
            let dig = is_digit_char(c);
            if !(dig || c == '+' || c == '-' || c == ' ' || c == '(' || c == ')') {
                return false;
            }
            proof {
                assert(trimmed@.take(i + 1).drop_last() =~= trimmed@.take(i as int));
                assert(trimmed@.take(i + 1).last() == trimmed@[i as int]);
            }
            if dig {
                digits = digits + 1;
            }
            i = i + 1;
        }
        proof {
            assert(trimmed@.take(n as int) =~= trimmed@);
        }
        digits >= 6
    }

    /// Normalizes `number` to E.164 form using the configured country code.
    pub fn format_e164(&self, number: &str) -> (r: String)
        ensures
            r@ == spec_normalize(number@, opt_str_view(&self.country_code)),
    {
        let n = number.unicode_len();
        let mut digits = String::new();
        let mut i: usize = 0;
        while i < n
            invariant
                0 <= i <= n,
                n == number@.len(),
                digits@ == filter_keep(number@.take(i as int)),
            decreases n - i,
        {
            let c = number.get_char(i);
            proof {
                assert(number@.take(i + 1).drop_last() =~= number@.take(i as int));
                assert(number@.take(i + 1).last() == number@[i as int]);
            }
            if is_digit_char(c) || c == '+' {
                push_char(&mut digits, c);
            }
            i = i + 1;
        }
        proof {
            assert(number@.take(n as int) =~= number@);
        }
        let dn = digits.as_str().unicode_len();
        if dn > 0 && digits.as_str().get_char(0) == '+' {
            return digits;
        }
        match &self.country_code {
            Some(cc) => {
                if cc.as_str().is_empty() {
                    return digits;
                }
                let mut out = String::from_str("+");
                proof {
                    reveal_strlit("+");
                    assert(out@ =~= seq!['+']);
                }
                out.append(cc.as_str());
                if dn > 0 && digits.as_str().get_char(0) == '0' {
                    let rest = digits.as_str().substring_char(1, dn);
                    out.append(rest);
                    proof {
                        assert(rest@ =~= filter_keep(number@).drop_first());
                        assert(out@ =~= spec_normalize(
                            number@,
                            opt_str_view(&self.country_code),
                        ));
                    }
                } else {
                    out.append(digits.as_str());
                    proof {
                        assert(out@ =~= spec_normalize(
                            number@,
                            opt_str_view(&self.country_code),
                        ));
                    }
                }
                out
            },
            None => digits,
        }
    }
}

} // verus!
