//! Character-level helpers shared by the token codec: trimming, searching
//! and prefix tests, each with an exact specification.

use vstd::prelude::*;

verus! {

/// The whitespace characters the codec strips from a raw credential string.
pub open spec fn is_space_char(c: char) -> bool {
    c == ' ' || c == '\t' || c == '\n' || c == '\r'
}

/// `s` without its leading whitespace.
pub open spec fn trim_front(s: Seq<char>) -> Seq<char>
    decreases s.len(),
{
    if s.len() > 0 && is_space_char(s[0]) {
        trim_front(s.drop_first())
    } else {
        s
    }
}

/// `s` without its trailing whitespace.
pub open spec fn trim_back(s: Seq<char>) -> Seq<char>
    decreases s.len(),
{
    if s.len() > 0 && is_space_char(s.last()) {
        trim_back(s.drop_last())
    } else {
        s
    }
}

/// `s` without leading or trailing whitespace.
pub open spec fn trimmed(s: Seq<char>) -> Seq<char> {
    trim_back(trim_front(s))
}

proof fn lemma_trim_front_at(s: Seq<char>, i: int)
    requires
        0 <= i <= s.len(),
        forall|k: int| 0 <= k < i ==> is_space_char(s[k]),
        i == s.len() || !is_space_char(s[i]),
    ensures
        trim_front(s) == s.subrange(i, s.len() as int),
    decreases i,
{
    if i == 0 {
        assert(s.subrange(0, s.len() as int) =~= s);
    } else {
        lemma_trim_front_at(s.drop_first(), i - 1);
        assert(s.drop_first().subrange(i - 1, s.drop_first().len() as int) =~= s.subrange(
            i,
            s.len() as int,
        ));
    }
}

proof fn lemma_trim_back_at(s: Seq<char>, j: int)
    requires
        0 <= j <= s.len(),
        forall|k: int| j <= k < s.len() ==> is_space_char(s[k]),
        j == 0 || !is_space_char(s[j - 1]),
    ensures
        trim_back(s) == s.subrange(0, j),
    decreases s.len() - j,
{
    if j == s.len() {
        assert(s.subrange(0, s.len() as int) =~= s);
    } else {
        lemma_trim_back_at(s.drop_last(), j);
        assert(s.drop_last().subrange(0, j) =~= s.subrange(0, j));
    }
}

proof fn lemma_trim_front_keeps(s: Seq<char>, c: char)
    requires
        s.contains(c),
        !is_space_char(c),
    ensures
        trim_front(s).contains(c),
    decreases s.len(),
{
    if s.len() > 0 && is_space_char(s[0]) {
        let i = choose|i: int| 0 <= i < s.len() && s[i] == c;
        assert(s.drop_first()[i - 1] == c);
        lemma_trim_front_keeps(s.drop_first(), c);
    }
}

proof fn lemma_trim_back_keeps(s: Seq<char>, c: char)
    requires
        s.contains(c),
        !is_space_char(c),
    ensures
        trim_back(s).contains(c),
    decreases s.len(),
{
    if s.len() > 0 && is_space_char(s.last()) {
        let i = choose|i: int| 0 <= i < s.len() && s[i] == c;
        assert(s.drop_last()[i] == c);
        lemma_trim_back_keeps(s.drop_last(), c);
    }
}

/// Trimming never loses a non-whitespace character: whatever survives the
/// trim of the surrounding whitespace is still there.
pub proof fn lemma_trimmed_keeps(s: Seq<char>, c: char)
    requires
        s.contains(c),
        !is_space_char(c),
    ensures
        trimmed(s).contains(c),
        trimmed(s).len() > 0,
{
    lemma_trim_front_keeps(s, c);
    lemma_trim_back_keeps(trim_front(s), c);
}

/// A string that neither starts nor ends with whitespace is its own trim.
pub proof fn lemma_trimmed_identity(s: Seq<char>)
    requires
        s.len() > 0,
        !is_space_char(s[0]),
        !is_space_char(s.last()),
    ensures
        trimmed(s) == s,
{
    assert(trim_front(s) == s);
    assert(trim_back(s) == s);
}

/// `s` with leading and trailing whitespace removed.
pub fn trim_str<'a>(s: &'a str) -> (r: &'a str)
    ensures
        r@ == trimmed(s@),
{
    let len = s.unicode_len();
    let mut start: usize = 0;
    while start < len && is_space(s.get_char(start))
        invariant
            len == s@.len(),
            start <= len,
            forall|k: int| 0 <= k < start ==> is_space_char(s@[k]),
        decreases len - start,
    {
        start = start + 1;
    }
    proof {
        lemma_trim_front_at(s@, start as int);
    }
    if start == len {
        proof {
            assert(trim_front(s@) =~= Seq::<char>::empty());
            assert(""@ =~= Seq::<char>::empty()) by {
                reveal_strlit("");
            }
        }
        return "";
    }
    let mut end: usize = len;
    while end > start && is_space(s.get_char(end - 1))
        invariant
            len == s@.len(),
            start <= end <= len,
            start < len,
            !is_space_char(s@[start as int]),
            forall|k: int| end <= k < len ==> is_space_char(s@[k]),
        decreases end,
    {
        end = end - 1;
    }
    proof {
        let t = trim_front(s@);
        assert(t == s@.subrange(start as int, len as int));
        assert(end > start);
        lemma_trim_back_at(t, end - start);
        assert(t.subrange(0, end - start) =~= s@.subrange(start as int, end as int));
    }
    s.substring_char(start, end)
}

/// Whether `c` is one of the whitespace characters the codec strips.
pub fn is_space(c: char) -> (r: bool)
    ensures
        r == is_space_char(c),
{
    c == ' ' || c == '\t' || c == '\n' || c == '\r'
}

/// The position of the first occurrence of `c` in `s`, if any.
pub fn find_char(s: &str, c: char) -> (r: Option<usize>)
    ensures
        match r {
            Some(i) => i < s@.len() && s@[i as int] == c && forall|k: int|
                0 <= k < i ==> s@[k] != c,
            None => !s@.contains(c),
        },
{
    let len = s.unicode_len();
    let mut i: usize = 0;
    while i < len
        invariant
            len == s@.len(),
            i <= len,
            forall|k: int| 0 <= k < i ==> s@[k] != c,
        decreases len - i,
    {
        if s.get_char(i) == c {
            return Some(i);
        }
        i = i + 1;
    }
    None
}

/// Whether `c` occurs in `s`.
pub fn contains_char(s: &str, c: char) -> (r: bool)
    ensures
        r == s@.contains(c),
{
    match find_char(s, c) {
        Some(i) => {
            proof {
                assert(s@[i as int] == c);
            }
            true
        },
        None => false,
    }
}

/// Whether two strings hold the same characters.
pub fn str_eq(a: &str, b: &str) -> (r: bool)
    ensures
        r == (a@ == b@),
{
    let la = a.unicode_len();
    let lb = b.unicode_len();
    if la != lb {
        proof {
            if a@ == b@ {
                assert(a@.len() == b@.len());
            }
        }
        return false;
    }
    let mut i: usize = 0;
    while i < la
        invariant
            la == a@.len(),
            la == b@.len(),
            i <= la,
            forall|k: int| 0 <= k < i ==> a@[k] == b@[k],
        decreases la - i,
    {
        if a.get_char(i) != b.get_char(i) {
            proof {
                if a@ == b@ {
                    assert(a@[i as int] == b@[i as int]);
                }
            }
            return false;
        }
        i = i + 1;
    }
    proof {
        assert(a@ =~= b@);
    }
    true
}

/// The accepted bot-token prefix.
pub open spec fn has_bot_prefix(s: Seq<char>) -> bool {
    s.len() >= 5 && s[0] == 'x' && s[1] == 'o' && s[2] == 'x' && s[3] == 'b' && s[4] == '-'
}

/// The accepted user-token prefix.
pub open spec fn has_user_prefix(s: Seq<char>) -> bool {
    s.len() >= 5 && s[0] == 'x' && s[1] == 'o' && s[2] == 'x' && s[3] == 'p' && s[4] == '-'
}

/// Whether `s` starts with one of the accepted app-token prefixes.
pub open spec fn has_app_prefix(s: Seq<char>) -> bool {
    has_bot_prefix(s) || has_user_prefix(s)
}

/// Whether `s` starts with one of the accepted app-token prefixes.
pub fn starts_with_app_prefix(s: &str) -> (r: bool)
    ensures
        r == has_app_prefix(s@),
{
    let len = s.unicode_len();
    if len < 5 {
        return false;
    }
    if !(s.get_char(0) == 'x' && s.get_char(1) == 'o' && s.get_char(2) == 'x') {
        return false;
    }
    let kind = s.get_char(3);
    (kind == 'b' || kind == 'p') && s.get_char(4) == '-'
}

} // verus!
