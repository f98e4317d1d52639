use vstd::prelude::*;
use vstd::string::*;

verus! {

/// Separators between path components inside an archive: `/`, and `\` as
/// written by Windows tools.
pub open spec fn is_path_separator(c: char) -> bool {
    c == '/' || c == '\\'
}

/// Index just past the last separator of `s`, or 0 when `s` holds none.
pub open spec fn name_start(s: Seq<char>) -> int
    decreases s.len(),
{
    if s.len() == 0 {
        0
    } else if is_path_separator(s.last()) {
        s.len() as int
    } else {
        name_start(s.drop_last())
    }
}

/// The last component of a path.
pub open spec fn base_name(s: Seq<char>) -> Seq<char> {
    s.subrange(name_start(s), s.len() as int)
}

/// ASCII letters compare equal whatever their case; other characters must be equal.
pub open spec fn chars_eq_ignore_case(a: char, b: char) -> bool {
    a == b || ('A' <= a <= 'Z' && a as u32 + 32 == b as u32) || ('A' <= b <= 'Z' && b as u32
        + 32 == a as u32)
}

pub open spec fn eq_ignore_case(a: Seq<char>, b: Seq<char>) -> bool {
    a.len() == b.len() && forall|i: int| 0 <= i < a.len() ==> #[trigger] chars_eq_ignore_case(a[i], b[i])
}

pub open spec fn has_no_upper(s: Seq<char>) -> bool {
    forall|i: int| 0 <= i < s.len() ==> !('A' <= #[trigger] s[i] <= 'Z')
}

proof fn lemma_name_start(s: Seq<char>, k: int)
    requires
        0 <= k <= s.len(),
        k == 0 || is_path_separator(s[k - 1]),
        forall|j: int| k <= j < s.len() ==> !is_path_separator(s[j]),
    ensures
        name_start(s) == k,
    decreases s.len(),
{
    if s.len() > 0 && !is_path_separator(s.last()) {
        lemma_name_start(s.drop_last(), k);
    }
}

/// Two case-insensitively equal strings are equal when neither holds an upper-case letter.
pub proof fn lemma_eq_ignore_case_lower(a: Seq<char>, b: Seq<char>)
    requires
        has_no_upper(a),
        has_no_upper(b),
        eq_ignore_case(a, b),
    ensures
        a == b,
{
    assert forall|i: int| 0 <= i < a.len() implies a[i] == b[i] by {
        assert(chars_eq_ignore_case(a[i], b[i]));
        assert(!('A' <= a[i] <= 'Z'));
        assert(!('A' <= b[i] <= 'Z'));
    }
    assert(a =~= b);
}

/// The concatenation of two string slices.
pub fn concat(a: &str, b: &str) -> (r: String)
    ensures
        r@ == a@ + b@,
{
    let mut s = String::from_str(a);
    s.append(b);
    s
}

/// Whether two strings hold the same characters.
pub fn str_eq(a: &str, b: &str) -> (r: bool)
    ensures
        r == (a@ == b@),
{
    let n = a.unicode_len();
    if n != b.unicode_len() {
        return false;
    }
    let mut i: usize = 0;
    while i < n
        invariant
            n == a@.len(),
            n == b@.len(),
            i <= n,
            forall|j: int| 0 <= j < i ==> a@[j] == b@[j],
        decreases n - i,
    {
        if a.get_char(i) != b.get_char(i) {
            return false;
        }
        i += 1;
    }
    assert(a@ =~= b@);
    true
}

/// Whether two strings are equal when ASCII letters are compared without case.
pub fn str_eq_ignore_case(a: &str, b: &str) -> (r: bool)
    ensures
        r == eq_ignore_case(a@, b@),
{
    let n = a.unicode_len();
    if n != b.unicode_len() {
        return false;
    }
    let mut i: usize = 0;
    while i < n
        invariant
            n == a@.len(),
            n == b@.len(),
            i <= n,
            forall|j: int| 0 <= j < i ==> chars_eq_ignore_case(a@[j], b@[j]),
        decreases n - i,
    {
        let x = a.get_char(i);
        let y = b.get_char(i);
        let same = x == y || ('A' <= x && x <= 'Z' && x as u32 + 32 == y as u32) || ('A' <= y
            && y <= 'Z' && y as u32 + 32 == x as u32);
        if !same {
            assert(!chars_eq_ignore_case(a@[i as int], b@[i as int]));
            return false;
        }
        i += 1;
    }
    true
}

/// The last component of a path whose components are separated by `/` or `\\`.
pub fn file_name(s: &str) -> (r: &str)
    ensures
        r@ == base_name(s@),
{
    let n = s.unicode_len();
    let mut k: usize = n;
    while k > 0 && s.get_char(k - 1) != '/' && s.get_char(k - 1) != '\\'
        invariant
            n == s@.len(),
            k <= n,
            forall|j: int| k <= j < n ==> !is_path_separator(s@[j]),
        decreases k,
    {
        k -= 1;
    }
    proof {
        lemma_name_start(s@, k as int);
    }
    s.substring_char(k, n)
}

} // verus!
