//! Plain text work the pipeline needs: trimming input lines into
//! tokens, and rendering port numbers in decimal.

use vstd::prelude::*;
use vstd::string::*;

verus! {

/// The whitespace that trimming strips: the ASCII space characters.
pub open spec fn is_space_char(c: char) -> bool {
    c == ' ' || c == '\t' || c == '\n' || c == '\r' || c == '\u{0b}' || c == '\u{0c}'
}

/// How many space characters the text begins with.
pub open spec fn leading_spaces(s: Seq<char>) -> int
    decreases s.len(),
{
    if s.len() == 0 || !is_space_char(s[0]) {
        0
    } else {
        1 + leading_spaces(s.drop_first())
    }
}

/// How many space characters the text ends with.
pub open spec fn trailing_spaces(s: Seq<char>) -> int
    decreases s.len(),
{
    if s.len() == 0 || !is_space_char(s.last()) {
        0
    } else {
        1 + trailing_spaces(s.drop_last())
    }
}

/// The text with leading and trailing spaces removed.
pub open spec fn trimmed(s: Seq<char>) -> Seq<char> {
    if leading_spaces(s) == s.len() {
        Seq::empty()
    } else {
        s.subrange(leading_spaces(s), s.len() - trailing_spaces(s))
    }
}

/// `leading_spaces` counts exactly the unbroken run of spaces at the
/// front: everything before index `k` is a space, and `k` itself —
/// where there is one — is not.
proof fn lemma_leading_spaces_at(s: Seq<char>, k: int)
    requires
        0 <= k <= s.len(),
        forall|i: int| 0 <= i < k ==> is_space_char(s[i]),
        k < s.len() ==> !is_space_char(s[k]),
    ensures
        leading_spaces(s) == k,
    decreases s.len(),
{
    if k == 0 {
    } else {
        lemma_leading_spaces_at(s.drop_first(), k - 1);
    }
}

/// The mirror of `lemma_leading_spaces_at` for the back of the text.
proof fn lemma_trailing_spaces_at(s: Seq<char>, k: int)
    requires
        0 <= k <= s.len(),
        forall|i: int| s.len() - k <= i < s.len() ==> is_space_char(s[i]),
        k < s.len() ==> !is_space_char(s[s.len() - k - 1]),
    ensures
        trailing_spaces(s) == k,
    decreases s.len(),
{
    if k == 0 {
    } else {
        lemma_trailing_spaces_at(s.drop_last(), k - 1);
    }
}

/// Whether one character is trimmed away.
pub fn is_space(c: char) -> (r: bool)
    ensures
        r == is_space_char(c),
{
    c == ' ' || c == '\t' || c == '\n' || c == '\r' || c == '\u{0b}' || c == '\u{0c}'
}

/// One input line turned into a token: trimmed, and discarded when
/// nothing but spaces is left. `Some` exactly when the trimmed line
/// is non-empty, and then the token is the trimmed line.
pub fn clean_token(line: &str) -> (r: Option<String>)
    ensures
        (match r {
            Some(t) => t@ == trimmed(line@) && t@.len() > 0,
            None => trimmed(line@).len() == 0,
        }),
{
    let n = line.unicode_len();
    let mut start: usize = 0;
    while start < n && is_space(line.get_char(start))
        invariant
            0 <= start <= n,
            n == line@.len(),
            forall|i: int| 0 <= i < start ==> is_space_char(line@[i]),
        decreases n - start,
    {
        start = start + 1;
    }
    if start == n {
        proof {
            lemma_leading_spaces_at(line@, n as int);
        }
        return None;
    }
    proof {
        lemma_leading_spaces_at(line@, start as int);
    }
    let mut end: usize = n;
    while end > start + 1 && is_space(line.get_char(end - 1))
        invariant
            start < end <= n,
            n == line@.len(),
            start < n,
            !is_space_char(line@[start as int]),
            forall|i: int| end <= i < n ==> is_space_char(line@[i]),
        decreases end,
    {
        end = end - 1;
    }
    proof {
        // Either the scan stopped on a non-space, or it ran down to
        // the character just past `start`, which is no space either.
        assert(!is_space_char(line@[end - 1]));
        lemma_trailing_spaces_at(line@, n - end);
    }
    let token = String::from_str(line.substring_char(start, end));
    proof {
        assert(token@ == trimmed(line@));
    }
    Some(token)
}

/// The decimal digit character for one digit value.
pub open spec fn dec_digit_char(d: int) -> char
    recommends
        0 <= d < 10,
{
    if d == 0 {
        '0'
    } else if d == 1 {
        '1'
    } else if d == 2 {
        '2'
    } else if d == 3 {
        '3'
    } else if d == 4 {
        '4'
    } else if d == 5 {
        '5'
    } else if d == 6 {
        '6'
    } else if d == 7 {
        '7'
    } else if d == 8 {
        '8'
    } else {
        '9'
    }
}

/// The decimal rendering of a non-negative number, without leading
/// zeros (a lone zero for zero itself).
pub open spec fn dec_rep(n: int) -> Seq<char>
    recommends
        n >= 0,
    decreases n,
{
    if n < 10 {
        seq![dec_digit_char(n)]
    } else {
        dec_rep(n / 10) + seq![dec_digit_char(n % 10)]
    }
}

/// One decimal digit as text.
fn digit_string(d: u16) -> (r: String)
    requires
        d < 10,
    ensures
        r@ == seq![dec_digit_char(d as int)],
{
    let s: &str = if d == 0 {
        "0"
    } else if d == 1 {
        "1"
    } else if d == 2 {
        "2"
    } else if d == 3 {
        "3"
    } else if d == 4 {
        "4"
    } else if d == 5 {
        "5"
    } else if d == 6 {
        "6"
    } else if d == 7 {
        "7"
    } else if d == 8 {
        "8"
    } else {
        "9"
    };
    proof {
        reveal_strlit("0");
        reveal_strlit("1");
        reveal_strlit("2");
        reveal_strlit("3");
        reveal_strlit("4");
        reveal_strlit("5");
        reveal_strlit("6");
        reveal_strlit("7");
        reveal_strlit("8");
        reveal_strlit("9");
        assert(s@ =~= seq![dec_digit_char(d as int)]);
    }
    String::from_str(s)
}

/// A port number in decimal.
pub fn port_to_string(port: u16) -> (r: String)
    ensures
        r@ == dec_rep(port as int),
    decreases port,
{
    if port < 10 {
        digit_string(port)
    } else {
        let mut s = port_to_string(port / 10);
        let tail = digit_string(port % 10);
        s.append(tail.as_str());
        proof {
            assert(s@ =~= dec_rep(port as int));
        }
        s
    }
}

} // verus!
