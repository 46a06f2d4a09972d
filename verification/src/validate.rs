//! String validation used by the handlers: required fields must not be empty
//! or whitespace-only, and the contact form's address must match the email
//! grammar below (the HTML5-style shape: an atext local part, then `@`, then
//! dot-separated labels of letters, digits and hyphens that start and end
//! alphanumerically).

use vstd::prelude::*;
use vstd::string::StrSliceExecFns;

verus! {

/// ASCII whitespace, the characters a "blank" field may consist of.
pub open spec fn is_space_char(c: char) -> bool {
    c == ' ' || c == '\t' || c == '\n' || c == '\r'
}

/// A string is blank when it holds nothing but whitespace; the empty string
/// is blank.
pub open spec fn is_blank(s: Seq<char>) -> bool {
    forall|j: int| 0 <= j < s.len() ==> is_space_char(s[j])
}

/// A letter or a digit.
pub open spec fn is_alnum_char(c: char) -> bool {
    ('a' <= c && c <= 'z') || ('A' <= c && c <= 'Z') || ('0' <= c && c <= '9')
}

/// A character allowed in the local part of an address.
pub open spec fn is_atext_char(c: char) -> bool {
    is_alnum_char(c) || c == '.' || c == '!' || c == '#' || c == '$' || c == '%' || c == '&'
        || c == '\'' || c == '*' || c == '+' || c == '-' || c == '/' || c == '=' || c == '?'
        || c == '^' || c == '_' || c == '`' || c == '{' || c == '|' || c == '}' || c == '~'
}

/// A character allowed inside a domain label.
pub open spec fn is_domain_char(c: char) -> bool {
    is_alnum_char(c) || c == '-'
}

/// The part before the `@`: non-empty, atext characters only.
pub open spec fn valid_local(s: Seq<char>) -> bool {
    s.len() >= 1 && (forall|j: int| 0 <= j < s.len() ==> is_atext_char(s[j]))
}

/// The part after the `@`: non-empty labels of letters, digits and hyphens,
/// separated by single dots, each label starting and ending alphanumerically.
pub open spec fn valid_domain(s: Seq<char>) -> bool {
    &&& s.len() >= 1
    &&& forall|j: int| 0 <= j < s.len() ==> is_domain_char(s[j]) || s[j] == '.'
    &&& forall|j: int| 0 <= j < s.len() && (j == 0 || s[j - 1] == '.') ==> is_alnum_char(s[j])
    &&& forall|j: int|
        0 <= j < s.len() && (j == s.len() - 1 || s[j + 1] == '.') ==> is_alnum_char(s[j])
}

/// The address splits at position `k`: an `@` there, a valid local part
/// before it and a valid domain after it.
pub open spec fn is_email_split(s: Seq<char>, k: int) -> bool {
    &&& 0 <= k < s.len()
    &&& s[k] == '@'
    &&& valid_local(s.take(k))
    &&& valid_domain(s.skip(k + 1))
}

/// A well-formed email address: some position splits it as above. Since
/// neither side of a split may contain `@`, at most one position can.
pub open spec fn valid_email(s: Seq<char>) -> bool {
    exists|k: int| is_email_split(s, k)
}

pub fn is_space(c: char) -> (r: bool)
    ensures
        r == is_space_char(c),
{
    c == ' ' || c == '\t' || c == '\n' || c == '\r'
}

pub fn is_alnum(c: char) -> (r: bool)
    ensures
        r == is_alnum_char(c),
{
    ('a' <= c && c <= 'z') || ('A' <= c && c <= 'Z') || ('0' <= c && c <= '9')
}

pub fn is_atext(c: char) -> (r: bool)
    ensures
        r == is_atext_char(c),
{
    is_alnum(c) || c == '.' || c == '!' || c == '#' || c == '$' || c == '%' || c == '&'
        || c == '\'' || c == '*' || c == '+' || c == '-' || c == '/' || c == '=' || c == '?'
        || c == '^' || c == '_' || c == '`' || c == '{' || c == '|' || c == '}' || c == '~'
}

pub fn is_domain(c: char) -> (r: bool)
    ensures
        r == is_domain_char(c),
{
    is_alnum(c) || c == '-'
}

/// Whether the string is empty or all whitespace.
pub fn is_blank_str(s: &str) -> (r: bool)
    ensures
        r == is_blank(s@),
{
    let n = s.unicode_len();
    let mut i: usize = 0;
    while i < n
        invariant
            0 <= i <= n,
            n as nat == s@.len(),
            forall|j: int| 0 <= j < i ==> is_space_char(s@[j]),
        decreases n - i,
    {
        let c = s.get_char(i);
        if !is_space(c) {
            assert(!is_space_char(s@[i as int]));
            return false;
        }
        i += 1;
    }
    true
}

/// The position of the first `@`, if any.
fn find_at(s: &str) -> (r: Option<usize>)
    ensures
        match r {
            Some(k) => k < s@.len() && s@[k as int] == '@' && (forall|j: int|
                0 <= j < k ==> s@[j] != '@'),
            None => forall|j: int| 0 <= j < s@.len() ==> s@[j] != '@',
        },
{
    let n = s.unicode_len();
    let mut i: usize = 0;
    while i < n
        invariant
            0 <= i <= n,
            n as nat == s@.len(),
            forall|j: int| 0 <= j < i ==> s@[j] != '@',
        decreases n - i,
    {
        if s.get_char(i) == '@' {
            return Some(i);
        }
        i += 1;
    }
    None
}

/// Whether the first `k` characters form a valid local part.
fn check_local(s: &str, k: usize) -> (r: bool)
    requires
        k as nat <= s@.len(),
    ensures
        r == valid_local(s@.take(k as int)),
{
    if k == 0 {
        return false;
    }
    let mut i: usize = 0;
    while i < k
        invariant
            0 <= i <= k,
            k as nat <= s@.len(),
            forall|j: int| 0 <= j < i ==> is_atext_char(s@[j]),
        decreases k - i,
    {
        if !is_atext(s.get_char(i)) {
            assert(s@.take(k as int)[i as int] == s@[i as int]);
            return false;
        }
        i += 1;
    }
    assert forall|j: int| 0 <= j < s@.take(k as int).len() implies is_atext_char(
        s@.take(k as int)[j],
    ) by {
        assert(s@.take(k as int)[j] == s@[j]);
    }
    true
}

/// Whether the characters from `k` to the end form a valid domain.
fn check_domain(s: &str, k: usize) -> (r: bool)
    requires
        k as nat <= s@.len(),
    ensures
        r == valid_domain(s@.skip(k as int)),
{
    let ghost d = s@.skip(k as int);
    let n = s.unicode_len();
    if k == n {
        assert(d.len() == 0);
        return false;
    }
    let mut i: usize = k;
    while i < n
        invariant
            k <= i <= n,
            k < n,
            n as nat == s@.len(),
            d == s@.skip(k as int),
            forall|j: int| k <= j < i ==> is_domain_char(s@[j]) || s@[j] == '.',
            forall|j: int|
                k <= j < i && (j == k || s@[j - 1] == '.') ==> is_alnum_char(s@[j]),
            forall|j: int|
                k <= j < i && (j == n - 1 || (j + 1 < n && s@[j + 1] == '.')) ==> is_alnum_char(
                    s@[j],
                ),
        decreases n - i,
    {
        let c = s.get_char(i);
        if !is_domain(c) && c != '.' {
            assert(d[i - k] == s@[i as int]);
            return false;
        }
        let starts_label = i == k || s.get_char(i - 1) == '.';
        if starts_label && !is_alnum(c) {
            assert(d[i - k] == s@[i as int]);
            return false;
        }
        let ends_label = i + 1 == n || s.get_char(i + 1) == '.';
        if ends_label && !is_alnum(c) {
            assert(d[i - k] == s@[i as int]);
            assert(i + 1 == n || d[i - k + 1] == s@[i + 1]);
            return false;
        }
        i += 1;
    }
    assert(d.len() == n - k);
    assert forall|j: int| 0 <= j < d.len() implies (is_domain_char(d[j]) || d[j] == '.') by {
        assert(d[j] == s@[j + k]);
    }
    assert forall|j: int| 0 <= j < d.len() && (j == 0 || d[j - 1] == '.') implies is_alnum_char(
        d[j],
    ) by {
        assert(d[j] == s@[j + k]);
        if j != 0 {
            assert(d[j - 1] == s@[j - 1 + k]);
        }
    }
    assert forall|j: int|
        0 <= j < d.len() && (j == d.len() - 1 || d[j + 1] == '.') implies is_alnum_char(d[j]) by {
        assert(d[j] == s@[j + k]);
        if j != d.len() - 1 {
            assert(d[j + 1] == s@[j + 1 + k]);
        }
    }
    true
}

/// Every split position of a string whose first `@` stands at `at` is `at`
/// itself: an earlier one has no `@`, a later one puts that `@` inside the
/// local part.
proof fn lemma_split_is_first_at(s: Seq<char>, at: int)
    requires
        0 <= at < s.len(),
        s[at] == '@',
        forall|j: int| 0 <= j < at ==> s[j] != '@',
    ensures
        forall|k: int| is_email_split(s, k) ==> k == at,
{
    assert forall|k: int| is_email_split(s, k) implies k == at by {
        if k > at {
            assert(s.take(k)[at] == s[at]);
            assert(is_atext_char('@') == false);
        }
    }
}

/// Whether the string is a well-formed email address.
pub fn is_valid_email_str(s: &str) -> (r: bool)
    ensures
        r == valid_email(s@),
{
    match find_at(s) {
        None => {
            assert forall|k: int| !is_email_split(s@, k) by {}
            false
        },
        Some(at) => {
            let n = s.unicode_len();
            assert(at < n);
            proof {
                lemma_split_is_first_at(s@, at as int);
            }
            let local_ok = check_local(s, at);
            if !local_ok {
                assert(!is_email_split(s@, at as int));
                return false;
            }
            let domain_ok = check_domain(s, at + 1);
            if domain_ok {
                assert(is_email_split(s@, at as int));
                true
            } else {
                assert(!is_email_split(s@, at as int));
                false
            }
        },
    }
}

} // verus!
