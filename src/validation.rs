use vstd::prelude::*;
use vstd::string::StrSliceExecFns;
use vstd::utf8::{encode_utf8, is_ascii_chars_encode_utf8};

verus! {

/// Whether `char::is_alphabetic` holds of a character (Unicode `Alphabetic`).
pub uninterp spec fn unicode_alphabetic(c: char) -> bool;

/// Whether `char::is_numeric` holds of a character (Unicode `Nd`, `Nl` or `No`).
pub uninterp spec fn unicode_numeric(c: char) -> bool;

/// Least number of bytes in an acceptable password.
pub const MIN_PASSWORD_LEN: usize = 8;

pub open spec fn is_ascii_letter(c: char) -> bool {
    (65 <= c as u32 <= 90) || (97 <= c as u32 <= 122)
}

pub open spec fn is_ascii_digit(c: char) -> bool {
    48 <= c as u32 <= 57
}

pub open spec fn is_ascii_alnum(c: char) -> bool {
    is_ascii_letter(c) || is_ascii_digit(c)
}

/// The character classes that the email shapes are written with.
#[derive(Clone, Copy, Debug, PartialEq, Eq, Structural)]
pub enum CharClass {
    /// `[A-Za-z0-9_.+-]`
    LookupLocal,
    /// `[A-Za-z0-9-]`
    LookupLabel,
    /// `[A-Za-z0-9-.]`
    LookupTail,
    /// `[a-zA-Z0-9._%+-]`
    FormLocal,
    /// `[a-zA-Z0-9.-]`
    FormDomain,
    /// `[a-zA-Z]`
    Letter,
}

pub open spec fn in_class(k: CharClass, c: char) -> bool {
    let u = c as u32;
    match k {
        CharClass::LookupLocal => is_ascii_alnum(c) || u == 95 || u == 46 || u == 43 || u == 45,
        CharClass::LookupLabel => is_ascii_alnum(c) || u == 45,
        CharClass::LookupTail => is_ascii_alnum(c) || u == 45 || u == 46,
        CharClass::FormLocal => is_ascii_alnum(c) || u == 46 || u == 95 || u == 37 || u == 43 || u
            == 45,
        CharClass::FormDomain => is_ascii_alnum(c) || u == 46 || u == 45,
        CharClass::Letter => is_ascii_letter(c),
    }
}

/// Every character of `s[lo..hi]` lies in class `k`.
pub open spec fn all_in(s: Seq<char>, lo: int, hi: int, k: CharClass) -> bool {
    forall|i: int| lo <= i < hi ==> in_class(k, #[trigger] s[i])
}

/// `^[A-Za-z0-9_.+-]+@[A-Za-z0-9-]+\.[A-Za-z0-9-.]+$`: the shape that marks an identifier as an
/// email address when a data key is looked up.
pub open spec fn lookup_email_shape(s: Seq<char>) -> bool {
    exists|a: int, d: int|
        #![trigger s[a], s[d]]
        0 < a && a + 1 < d && d + 1 < s.len() && s[a] == '@' && s[d] == '.' && all_in(
            s,
            0,
            a,
            CharClass::LookupLocal,
        ) && all_in(s, a + 1, d, CharClass::LookupLabel) && all_in(
            s,
            d + 1,
            s.len() as int,
            CharClass::LookupTail,
        )
}

/// `^[a-zA-Z0-9._%+-]+@[a-zA-Z0-9.-]+\.[a-zA-Z]{2,}$`: the shape an email must have in a request.
pub open spec fn form_email_shape(s: Seq<char>) -> bool {
    exists|a: int, d: int|
        #![trigger s[a], s[d]]
        0 < a && a + 1 < d && d + 2 < s.len() && s[a] == '@' && s[d] == '.' && all_in(
            s,
            0,
            a,
            CharClass::FormLocal,
        ) && all_in(s, a + 1, d, CharClass::FormDomain) && all_in(
            s,
            d + 1,
            s.len() as int,
            CharClass::Letter,
        )
}

/// Text made of ASCII letters and digits only.
pub open spec fn ascii_alnum_text(s: Seq<char>) -> bool {
    forall|i: int| 0 <= i < s.len() ==> is_ascii_alnum(#[trigger] s[i])
}

/// The password policy: at least eight bytes of UTF-8, an alphabetic character and a numeric one.
pub open spec fn password_acceptable(s: Seq<char>) -> bool {
    &&& encode_utf8(s).len() as usize >= MIN_PASSWORD_LEN
    &&& exists|i: int| 0 <= i < s.len() && unicode_alphabetic(#[trigger] s[i])
    &&& exists|i: int| 0 <= i < s.len() && unicode_numeric(#[trigger] s[i])
}

/// Relies on `char::is_alphabetic`; ASCII letters are alphabetic.
#[verifier::external_body]
fn char_is_alphabetic(c: char) -> (r: bool)
    ensures
        r == unicode_alphabetic(c),
        is_ascii_letter(c) ==> r,
        is_ascii_digit(c) ==> !r,
{
    c.is_alphabetic()
}

/// Relies on `char::is_numeric`; ASCII digits are numeric, ASCII letters are not.
#[verifier::external_body]
fn char_is_numeric(c: char) -> (r: bool)
    ensures
        r == unicode_numeric(c),
        is_ascii_digit(c) ==> r,
        is_ascii_letter(c) ==> !r,
{
    c.is_numeric()
}

fn class_contains(k: CharClass, c: char) -> (r: bool)
    ensures
        r == in_class(k, c),
{
    let u = c as u32;
    let letter = (65 <= u && u <= 90) || (97 <= u && u <= 122);
    let alnum = letter || (48 <= u && u <= 57);
    match k {
        CharClass::LookupLocal => alnum || u == 95 || u == 46 || u == 43 || u == 45,
        CharClass::LookupLabel => alnum || u == 45,
        CharClass::LookupTail => alnum || u == 45 || u == 46,
        CharClass::FormLocal => alnum || u == 46 || u == 95 || u == 37 || u == 43 || u == 45,
        CharClass::FormDomain => alnum || u == 46 || u == 45,
        CharClass::Letter => letter,
    }
}

/// Whether every character of `s[lo..hi]` lies in class `k`.
fn chars_in(s: &str, lo: usize, hi: usize, k: CharClass) -> (r: bool)
    requires
        lo <= hi <= s@.len(),
    ensures
        r == all_in(s@, lo as int, hi as int, k),
{
    let mut i = lo;
    while i < hi
        invariant
            lo <= i <= hi <= s@.len(),
            all_in(s@, lo as int, i as int, k),
        decreases hi - i,
    {
        if !class_contains(k, s.get_char(i)) {
            return false;
        }
        i = i + 1;
    }
    true
}

/// First position at or after `from` that holds `c`, or the length when there is none.
pub(crate) fn find_char(s: &str, n: usize, from: usize, c: char) -> (r: usize)
    requires
        n == s@.len(),
        from <= n,
    ensures
        from <= r <= n,
        r < n ==> s@[r as int] == c,
        forall|j: int| from <= j < r ==> s@[j] != c,
{
    let mut i = from;
    while i < n
        invariant
            n == s@.len(),
            from <= i <= n,
            forall|j: int| from <= j < i ==> s@[j] != c,
        decreases n - i,
    {
        if s.get_char(i) == c {
            return i;
        }
        i = i + 1;
    }
    n
}

/// Last position that holds `c`, or the length when there is none.
pub(crate) fn rfind_char(s: &str, n: usize, c: char) -> (r: usize)
    requires
        n == s@.len(),
    ensures
        r <= n,
        r < n ==> s@[r as int] == c && forall|j: int| r < j < n ==> s@[j] != c,
        r == n ==> forall|j: int| 0 <= j < n ==> s@[j] != c,
{
    let mut i = n;
    while i > 0
        invariant
            n == s@.len(),
            i <= n,
            forall|j: int| i <= j < n ==> s@[j] != c,
        decreases i,
    {
        if s.get_char(i - 1) == c {
            return i - 1;
        }
        i = i - 1;
    }
    n
}

/// Whether an identifier has the email shape under which data keys are indexed by email.
pub fn is_email_identifier(s: &str) -> (r: bool)
    ensures
        r == lookup_email_shape(s@),
{
    let n = s.unicode_len();
    let a = find_char(s, n, 0, '@');
    if a == n || a == 0 || !chars_in(s, 0, a, CharClass::LookupLocal) {
        proof {
            if lookup_email_shape(s@) {
                let (a2, d2) = choose|a2: int, d2: int|
                    #![trigger s@[a2], s@[d2]]
                    0 < a2 && a2 + 1 < d2 && d2 + 1 < s@.len() && s@[a2] == '@' && s@[d2] == '.'
                        && all_in(s@, 0, a2, CharClass::LookupLocal) && all_in(
                        s@,
                        a2 + 1,
                        d2,
                        CharClass::LookupLabel,
                    ) && all_in(s@, d2 + 1, s@.len() as int, CharClass::LookupTail);
                assert(!in_class(CharClass::LookupLocal, '@'));
                if a2 < a {
                } else {
                    assert(in_class(CharClass::LookupLocal, s@[a as int]));
                }
            }
        }
        return false;
    }
    let d = find_char(s, n, a + 1, '.');
    let ok = d < n && a + 1 < d && d + 1 < n && chars_in(s, a + 1, d, CharClass::LookupLabel)
        && chars_in(s, d + 1, n, CharClass::LookupTail);
    proof {
        if ok {
            assert(lookup_email_shape(s@)) by {
                assert(s@[a as int] == '@' && s@[d as int] == '.');
            }
        } else if lookup_email_shape(s@) {
            let (a2, d2) = choose|a2: int, d2: int|
                #![trigger s@[a2], s@[d2]]
                0 < a2 && a2 + 1 < d2 && d2 + 1 < s@.len() && s@[a2] == '@' && s@[d2] == '.'
                    && all_in(s@, 0, a2, CharClass::LookupLocal) && all_in(
                    s@,
                    a2 + 1,
                    d2,
                    CharClass::LookupLabel,
                ) && all_in(s@, d2 + 1, s@.len() as int, CharClass::LookupTail);
            assert(!in_class(CharClass::LookupLocal, '@'));
            assert(!in_class(CharClass::LookupLabel, '.'));
            assert(a2 == a) by {
                if a2 > a {
                    assert(in_class(CharClass::LookupLocal, s@[a as int]));
                }
            }
            assert(d2 == d) by {
                if d2 > d {
                    assert(in_class(CharClass::LookupLabel, s@[d as int]));
                }
            }
        }
    }
    ok
}

/// Request validation rules.
pub struct Validation;

impl Validation {
    /// Whether an email address has the shape requests must give it.
    pub fn email(email: &str) -> (r: bool)
        ensures
            r == form_email_shape(email@),
    {
        let s = email;
        let n = s.unicode_len();
        let a = find_char(s, n, 0, '@');
        let d = rfind_char(s, n, '.');
        let ok = a < n && d < n && 0 < a && a + 1 < d && n - d > 2 && chars_in(
            s,
            0,
            a,
            CharClass::FormLocal,
        ) && chars_in(s, a + 1, d, CharClass::FormDomain) && chars_in(
            s,
            d + 1,
            n,
            CharClass::Letter,
        );
        proof {
            if ok {
                assert(form_email_shape(s@)) by {
                    assert(s@[a as int] == '@' && s@[d as int] == '.');
                }
            } else if form_email_shape(s@) {
                let (a2, d2) = choose|a2: int, d2: int|
                    #![trigger s@[a2], s@[d2]]
                    0 < a2 && a2 + 1 < d2 && d2 + 2 < s@.len() && s@[a2] == '@' && s@[d2] == '.'
                        && all_in(s@, 0, a2, CharClass::FormLocal) && all_in(
                        s@,
                        a2 + 1,
                        d2,
                        CharClass::FormDomain,
                    ) && all_in(s@, d2 + 1, s@.len() as int, CharClass::Letter);
                assert(!in_class(CharClass::FormLocal, '@'));
                assert(!in_class(CharClass::Letter, '.'));
                assert(a2 == a) by {
                    if a2 > a {
                        assert(in_class(CharClass::FormLocal, s@[a as int]));
                    }
                }
                assert(d2 == d) by {
                    if d2 < d {
                        assert(in_class(CharClass::Letter, s@[d as int]));
                    }
                }
            }
        }
        ok
    }

    /// Whether a password meets the policy: at least eight bytes, with an alphabetic character
    /// and a numeric one.
    pub fn password(password: &str) -> (r: bool)
        ensures
            r == password_acceptable(password@),
            ascii_alnum_text(password@) ==> r == (password@.len() >= MIN_PASSWORD_LEN && (exists|i: int|
                0 <= i < password@.len() && is_ascii_letter(#[trigger] password@[i])) && (exists|i: int|
                0 <= i < password@.len() && is_ascii_digit(#[trigger] password@[i]))),
    {
        let n = password.unicode_len();
        proof {
            if ascii_alnum_text(password@) {
                assert forall|i: int| 0 <= i < password@.len() implies '\0' <= #[trigger] password@[i]
                    <= '\u{7f}' by {
                    crate::crypto::lemma_ascii_char(password@[i]);
                }
                is_ascii_chars_encode_utf8(password@);
            }
        }
        if password.len() < MIN_PASSWORD_LEN {
            return false;
        }
        let mut has_alpha = false;
        let mut has_digit = false;
        let mut i: usize = 0;
        while i < n
            invariant
                n == password@.len(),
                i <= n,
                has_alpha == exists|j: int| 0 <= j < i && unicode_alphabetic(#[trigger] password@[j]),
                has_digit == exists|j: int| 0 <= j < i && unicode_numeric(#[trigger] password@[j]),
                ascii_alnum_text(password@) ==> has_alpha == exists|j: int|
                    0 <= j < i && is_ascii_letter(#[trigger] password@[j]),
                ascii_alnum_text(password@) ==> has_digit == exists|j: int|
                    0 <= j < i && is_ascii_digit(#[trigger] password@[j]),
            decreases n - i,
        {
            let c = password.get_char(i);
            let a = char_is_alphabetic(c);
            let d = char_is_numeric(c);
            proof {
                if ascii_alnum_text(password@) {
                    assert(is_ascii_alnum(password@[i as int]));
                }
                if a {
                    assert(unicode_alphabetic(password@[i as int]));
                }
                if d {
                    assert(unicode_numeric(password@[i as int]));
                }
            }
            has_alpha = has_alpha || a;
            has_digit = has_digit || d;
            i = i + 1;
        }
        has_alpha && has_digit
    }
}

} // verus!
