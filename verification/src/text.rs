//! Character-level helpers the shell's classification rests on: trimming
//! surrounding white space, case-insensitive comparison of ASCII keywords,
//! and locating the last occurrence of a separator in a path.
use vstd::prelude::*;
use vstd::string::*;

verus! {

/// The characters with the Unicode `White_Space` property, which is what
/// `char::is_whitespace` tests.
pub open spec fn whitespace_char(c: char) -> bool {
    ||| c == ' '
    ||| c == '\t'
    ||| c == '\n'
    ||| c == '\u{0B}'
    ||| c == '\u{0C}'
    ||| c == '\r'
    ||| c == '\u{85}'
    ||| c == '\u{A0}'
    ||| c == '\u{1680}'
    ||| ('\u{2000}' as u32 <= c as u32 && c as u32 <= '\u{200A}' as u32)
    ||| c == '\u{2028}'
    ||| c == '\u{2029}'
    ||| c == '\u{202F}'
    ||| c == '\u{205F}'
    ||| c == '\u{3000}'
}

/// Relies on `char::is_whitespace`: true exactly for the characters with the
/// Unicode `White_Space` property, as its documentation lists them.
#[verifier::external_body]
pub(crate) fn is_whitespace_char(c: char) -> (r: bool)
    ensures
        r == whitespace_char(c),
{
    c.is_whitespace()
}

/// What `char::is_alphanumeric` returns for the character.
pub uninterp spec fn alphanumeric_char(c: char) -> bool;

/// Relies on `char::is_alphanumeric`: whether the character is a Unicode
/// letter or digit, a property of the character alone.
#[verifier::external_body]
pub(crate) fn is_alphanumeric_char(c: char) -> (r: bool)
    ensures
        r == alphanumeric_char(c),
{
    c.is_alphanumeric()
}

/// Relies on `String::push`: appends exactly the given character.
#[verifier::external_body]
pub(crate) fn push_char(s: &mut String, c: char)
    ensures
        final(s)@ == old(s)@.push(c),
{
    s.push(c)
}

/// The input without its leading white space.
pub open spec fn trim_front(s: Seq<char>) -> Seq<char>
    decreases s.len(),
{
    if s.len() > 0 && whitespace_char(s[0]) {
        trim_front(s.drop_first())
    } else {
        s
    }
}

/// The input without its trailing white space.
pub open spec fn trim_back(s: Seq<char>) -> Seq<char>
    decreases s.len(),
{
    if s.len() > 0 && whitespace_char(s[s.len() - 1]) {
        trim_back(s.drop_last())
    } else {
        s
    }
}

/// The input without surrounding white space, as `str::trim` yields it.
pub open spec fn trimmed(s: Seq<char>) -> Seq<char> {
    trim_back(trim_front(s))
}

proof fn lemma_trim_front_at(s: Seq<char>, a: int)
    requires
        0 <= a <= s.len(),
        forall|j: int| 0 <= j < a ==> whitespace_char(s[j]),
        a < s.len() ==> !whitespace_char(s[a]),
    ensures
        trim_front(s) == s.subrange(a, s.len() as int),
    decreases a,
{
    if a == 0 {
        assert(trim_front(s) =~= s.subrange(0, s.len() as int));
    } else {
        let tail = s.drop_first();
        lemma_trim_front_at(tail, a - 1);
        assert(tail.subrange(a - 1, tail.len() as int) =~= s.subrange(a, s.len() as int));
    }
}

proof fn lemma_trim_back_at(s: Seq<char>, b: int)
    requires
        0 <= b <= s.len(),
        forall|j: int| b <= j < s.len() ==> whitespace_char(s[j]),
        b > 0 ==> !whitespace_char(s[b - 1]),
    ensures
        trim_back(s) == s.subrange(0, b),
    decreases s.len(),
{
    if b == s.len() {
        assert(trim_back(s) =~= s.subrange(0, b));
    } else {
        let front = s.drop_last();
        lemma_trim_back_at(front, b);
        assert(front.subrange(0, b) =~= s.subrange(0, b));
    }
}

/// The trimmed slice of the input, verified against the trimming functions
/// that the dispatcher's contract is stated over.
pub fn trim(s: &str) -> (r: &str)
    ensures
        r@ == trimmed(s@),
{
    let n = s.unicode_len();
    let mut a: usize = 0;
    loop
        invariant
            a <= n,
            n == s@.len(),
            forall|j: int| 0 <= j < a ==> whitespace_char(s@[j]),
        ensures
            a <= n,
            n == s@.len(),
            forall|j: int| 0 <= j < a ==> whitespace_char(s@[j]),
            a < n ==> !whitespace_char(s@[a as int]),
        decreases n - a,
    {
        if a >= n {
            break;
        }
        if !is_whitespace_char(s.get_char(a)) {
            break;
        }
        a += 1;
    }
    let mut b: usize = n;
    loop
        invariant
            a <= b <= n,
            n == s@.len(),
            forall|j: int| b <= j < n ==> whitespace_char(s@[j]),
        ensures
            a <= b <= n,
            forall|j: int| b <= j < n ==> whitespace_char(s@[j]),
            b > a ==> !whitespace_char(s@[b - 1]),
        decreases b,
    {
        if b <= a {
            break;
        }
        if !is_whitespace_char(s.get_char(b - 1)) {
            break;
        }
        b -= 1;
    }
    let r = s.substring_char(a, b);
    proof {
        lemma_trim_front_at(s@, a as int);
        let middle = s@.subrange(a as int, s@.len() as int);
        assert forall|j: int| (b - a) <= j < middle.len() implies whitespace_char(
            middle[j],
        ) by {
            assert(middle[j] == s@[j + a]);
        }
        lemma_trim_back_at(middle, b - a);
        assert(middle.subrange(0, b - a) =~= s@.subrange(a as int, b as int));
    }
    r
}

/// The character's scalar value, with an upper-case ASCII letter mapped to
/// its lower-case form; the measure under which the bare exit keywords are
/// compared.
pub open spec fn lower_code(c: char) -> int {
    if 'A' as u32 <= c as u32 && c as u32 <= 'Z' as u32 {
        c as u32 + 32
    } else {
        c as u32 as int
    }
}

/// Equality up to ASCII letter case, as `str::eq_ignore_ascii_case` decides
/// it.
pub open spec fn ascii_case_eq(a: Seq<char>, b: Seq<char>) -> bool {
    a.len() == b.len() && forall|i: int| 0 <= i < a.len() ==> lower_code(a[i]) == lower_code(b[i])
}

fn lower_code_of(c: char) -> (r: u32)
    ensures
        r as int == lower_code(c),
{
    let u = c as u32;
    if 'A' as u32 <= u && u <= 'Z' as u32 {
        u + 32
    } else {
        u
    }
}

/// Whether the two strings are equal up to ASCII letter case.
pub fn eq_ignore_ascii(a: &str, b: &str) -> (r: bool)
    ensures
        r == ascii_case_eq(a@, b@),
{
    let n = a.unicode_len();
    let m = b.unicode_len();
    if n != m {
        return false;
    }
    let mut i: usize = 0;
    while i < n
        invariant
            i <= n,
            n == a@.len(),
            n == b@.len(),
            forall|j: int| 0 <= j < i ==> lower_code(a@[j]) == lower_code(b@[j]),
        decreases n - i,
    {
        if lower_code_of(a.get_char(i)) != lower_code_of(b.get_char(i)) {
            return false;
        }
        i += 1;
    }
    true
}

/// Whether the two strings hold the same characters.
pub fn str_eq(a: &str, b: &str) -> (r: bool)
    ensures
        r == (a@ == b@),
{
    let n = a.unicode_len();
    let m = b.unicode_len();
    if n != m {
        return false;
    }
    let mut i: usize = 0;
    while i < n
        invariant
            i <= n,
            n == a@.len(),
            n == b@.len(),
            forall|j: int| 0 <= j < i ==> a@[j] == b@[j],
        decreases n - i,
    {
        if a.get_char(i) != b.get_char(i) {
            return false;
        }
        i += 1;
    }
    proof {
        assert(a@ =~= b@);
    }
    true
}

/// The index of the last occurrence of the separator, or minus one when the
/// separator does not occur.
pub open spec fn last_index_of(s: Seq<char>, sep: char) -> int
    decreases s.len(),
{
    if s.len() == 0 {
        -1
    } else if s[s.len() - 1] == sep {
        s.len() - 1
    } else {
        last_index_of(s.drop_last(), sep)
    }
}

/// The last-index function points at an occurrence and nothing follows it.
pub proof fn lemma_last_index_of(s: Seq<char>, sep: char)
    ensures
        -1 <= last_index_of(s, sep) < s.len(),
        last_index_of(s, sep) >= 0 ==> s[last_index_of(s, sep)] == sep,
        forall|j: int| last_index_of(s, sep) < j < s.len() ==> s[j] != sep,
    decreases s.len(),
{
    if s.len() > 0 && s[s.len() - 1] != sep {
        lemma_last_index_of(s.drop_last(), sep);
        assert forall|j: int| last_index_of(s, sep) < j < s.len() implies s[j] != sep by {
            if j < s.len() - 1 {
                assert(s.drop_last()[j] == s[j]);
            }
        }
    }
}

proof fn lemma_last_index_of_from(s: Seq<char>, sep: char, d: int)
    requires
        -1 <= d < s.len(),
        d >= 0 ==> s[d] == sep,
        forall|j: int| d < j < s.len() ==> s[j] != sep,
    ensures
        last_index_of(s, sep) == d,
    decreases s.len(),
{
    if s.len() == 0 {
    } else if s[s.len() - 1] == sep {
        assert(d == s.len() - 1);
    } else {
        let front = s.drop_last();
        assert(d < s.len() - 1);
        assert forall|j: int| d < j < front.len() implies front[j] != sep by {
            assert(front[j] == s[j]);
        }
        lemma_last_index_of_from(front, sep, d);
    }
}

/// The index of the last occurrence of the separator in the string, or
/// nothing when the separator does not occur.
pub fn find_last(s: &str, sep: char) -> (r: Option<usize>)
    ensures
        match r {
            Some(d) => d == last_index_of(s@, sep),
            None => last_index_of(s@, sep) == -1,
        },
{
    let n = s.unicode_len();
    let mut i: usize = n;
    while i > 0
        invariant
            i <= n,
            n == s@.len(),
            forall|j: int| i <= j < n ==> s@[j] != sep,
        decreases i,
    {
        if s.get_char(i - 1) == sep {
            proof {
                lemma_last_index_of_from(s@, sep, i - 1);
            }
            return Some(i - 1);
        }
        i -= 1;
    }
    proof {
        lemma_last_index_of_from(s@, sep, -1);
    }
    None
}

/// The substring after the last occurrence of the separator: the whole input
/// when the separator does not occur, empty when the input ends with it.
pub open spec fn suffix_after_last(s: Seq<char>, sep: char) -> Seq<char> {
    s.subrange(last_index_of(s, sep) + 1, s.len() as int)
}

/// The slice after the last occurrence of the separator.
pub fn suffix_after_last_sep<'a>(s: &'a str, sep: char) -> (r: &'a str)
    ensures
        r@ == suffix_after_last(s@, sep),
{
    let n = s.unicode_len();
    match find_last(s, sep) {
        Some(d) => {
            proof {
                lemma_last_index_of(s@, sep);
            }
            s.substring_char(d + 1, n)
        },
        None => {
            proof {
                assert(s@.subrange(0, s@.len() as int) =~= s@);
            }
            s
        },
    }
}

} // verus!
