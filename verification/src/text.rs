//! Text helpers: Unicode whitespace, leading-whitespace trimming and string
//! comparison, with their mathematical models.

use vstd::prelude::*;
use vstd::string::*;

verus! {

/// Views an optional string as an optional character sequence.
pub open spec fn opt_view(o: Option<String>) -> Option<Seq<char>> {
    match o {
        Some(s) => Some(s@),
        None => None,
    }
}

/// Unicode `White_Space` property (PropList.txt), which is what
/// `char::is_whitespace` tests.
pub open spec fn is_white_space(c: char) -> bool {
    let u = c as u32;
    ||| 0x9 <= u <= 0xD
    ||| u == 0x20
    ||| u == 0x85
    ||| u == 0xA0
    ||| u == 0x1680
    ||| 0x2000 <= u <= 0x200A
    ||| u == 0x2028
    ||| u == 0x2029
    ||| u == 0x202F
    ||| u == 0x205F
    ||| u == 0x3000
}

/// Number of leading whitespace characters of `s`.
pub open spec fn leading_white_space(s: Seq<char>) -> nat
    decreases s.len(),
{
    if s.len() > 0 && is_white_space(s[0]) {
        1 + leading_white_space(s.drop_first())
    } else {
        0
    }
}

/// `s` without its leading whitespace (what `str::trim_start` returns).
pub open spec fn trim_start(s: Seq<char>) -> Seq<char> {
    s.skip(leading_white_space(s) as int)
}

/// Whether `s` holds nothing but whitespace (`s.trim().is_empty()`).
pub open spec fn is_blank(s: Seq<char>) -> bool {
    forall|i: int| 0 <= i < s.len() ==> is_white_space(#[trigger] s[i])
}

/// Tests the Unicode `White_Space` property of `c`.
pub fn is_whitespace(c: char) -> (r: bool)
    ensures
        r == is_white_space(c),
{
    let u = c as u32;
    (0x9 <= u && u <= 0xD) || u == 0x20 || u == 0x85 || u == 0xA0 || u == 0x1680 || (0x2000
        <= u && u <= 0x200A) || u == 0x2028 || u == 0x2029 || u == 0x202F || u == 0x205F || u
        == 0x3000
}


/// The count of leading whitespace is the length of the longest whitespace
/// prefix.
pub proof fn lemma_leading_white_space(s: Seq<char>, n: int)
    requires
        0 <= n <= s.len(),
        forall|i: int| 0 <= i < n ==> is_white_space(#[trigger] s[i]),
        n == s.len() || !is_white_space(s[n]),
    ensures
        leading_white_space(s) == n,
    decreases n,
{
    if n > 0 {
        assert(is_white_space(s[0]));
        lemma_leading_white_space(s.drop_first(), n - 1);
    }
}

/// Number of leading whitespace characters of `s`.
pub fn count_leading_white_space(s: &str) -> (n: usize)
    ensures
        n == leading_white_space(s@),
{
    let len = s.unicode_len();
    let mut n: usize = 0;
    while n < len && is_whitespace(s.get_char(n))
        invariant
            len == s@.len(),
            n <= len,
            forall|i: int| 0 <= i < n ==> is_white_space(#[trigger] s@[i]),
        decreases len - n,
    {
        n = n + 1;
    }
    proof {
        lemma_leading_white_space(s@, n as int);
    }
    n
}

/// `s` with its leading whitespace removed (`str::trim_start`).
pub fn trim_start_str(s: &str) -> (r: String)
    ensures
        r@ == trim_start(s@),
{
    let n = count_leading_white_space(s);
    let len = s.unicode_len();
    proof {
        lemma_leading_bound(s@);
    }
    let rest = s.substring_char(n, len);
    let r = rest.to_owned();
    proof {
        assert(s@.subrange(n as int, len as int) =~= s@.skip(n as int));
    }
    r
}

/// Whether `s` holds nothing but whitespace (`s.trim().is_empty()`).
pub fn is_blank_str(s: &str) -> (r: bool)
    ensures
        r == is_blank(s@),
{
    let n = count_leading_white_space(s);
    let len = s.unicode_len();
    proof {
        lemma_leading_bound(s@);
        if n < len {
            lemma_leading_stops(s@);
        }
    }
    n == len
}

/// The leading whitespace count never exceeds the length, and all counted
/// characters are whitespace.
pub proof fn lemma_leading_bound(s: Seq<char>)
    ensures
        leading_white_space(s) <= s.len(),
        forall|i: int| 0 <= i < leading_white_space(s) ==> is_white_space(#[trigger] s[i]),
    decreases s.len(),
{
    if s.len() > 0 && is_white_space(s[0]) {
        lemma_leading_bound(s.drop_first());
        assert forall|i: int| 0 <= i < leading_white_space(s) implies is_white_space(
            #[trigger] s[i],
        ) by {
            if i > 0 {
                assert(s[i] == s.drop_first()[i - 1]);
            }
        }
    }
}

/// The character right after the leading whitespace is not whitespace.
pub proof fn lemma_leading_stops(s: Seq<char>)
    requires
        leading_white_space(s) < s.len(),
    ensures
        !is_white_space(s[leading_white_space(s) as int]),
    decreases s.len(),
{
    if s.len() > 0 && is_white_space(s[0]) {
        lemma_leading_stops(s.drop_first());
        assert(s[leading_white_space(s) as int] == s.drop_first()[leading_white_space(
            s.drop_first(),
        ) as int]);
    }
}

/// Trimming twice is trimming once.
pub proof fn lemma_trim_start_idempotent(s: Seq<char>)
    ensures
        trim_start(trim_start(s)) == trim_start(s),
{
    lemma_leading_bound(s);
    let t = trim_start(s);
    let n = leading_white_space(s);
    if n < s.len() {
        lemma_leading_stops(s);
        assert(t[0] == s[n as int]);
    }
    assert(leading_white_space(t) == 0);
    assert(t.skip(0) =~= t);
}

/// Leading whitespace of a concatenation.
pub proof fn lemma_leading_concat(a: Seq<char>, c: Seq<char>)
    ensures
        leading_white_space(a + c) == if leading_white_space(a) < a.len() {
            leading_white_space(a) as int
        } else {
            (a.len() + leading_white_space(c)) as int
        },
    decreases a.len(),
{
    lemma_leading_bound(a);
    if a.len() == 0 {
        assert(a + c =~= c);
    } else {
        assert((a + c)[0] == a[0]);
        if is_white_space(a[0]) {
            assert((a + c).drop_first() =~= a.drop_first() + c);
            lemma_leading_concat(a.drop_first(), c);
        }
    }
}

/// Trimming a concatenation: the trimmed first part followed by the second
/// part, or, where the first part is all whitespace, the trimmed second part.
pub proof fn lemma_trim_concat(a: Seq<char>, c: Seq<char>)
    ensures
        trim_start(a + c) == if leading_white_space(a) < a.len() {
            trim_start(a) + c
        } else {
            trim_start(c)
        },
{
    lemma_leading_concat(a, c);
    lemma_leading_bound(a);
    lemma_leading_bound(c);
    let l = leading_white_space(a) as int;
    if l < a.len() {
        assert((a + c).skip(l) =~= a.skip(l) + c);
    } else {
        assert((a + c).skip((a.len() + leading_white_space(c)) as int) =~= c.skip(
            leading_white_space(c) as int,
        ));
    }
}

/// Whether two strings hold the same characters.
pub fn text_eq(a: &str, b: &str) -> (r: bool)
    ensures
        r == (a@ == b@),
{
    let x: String = a.to_owned();
    let y: String = b.to_owned();
    x == y
}

} // verus!
