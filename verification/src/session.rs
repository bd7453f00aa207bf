//! Sessions: reading the bearer token out of an authorization header, and
//! what becomes of the cookies when a refresh token is presented.

use vstd::prelude::*;
use vstd::string::*;

verus! {

/// Whether `c` is white space: the characters with the Unicode property
/// `White_Space`.
pub open spec fn is_space(c: char) -> bool {
    let v = c as u32;
    ||| 0x09 <= v <= 0x0D
    ||| v == 0x20
    ||| v == 0x85
    ||| v == 0xA0
    ||| v == 0x1680
    ||| 0x2000 <= v <= 0x200A
    ||| v == 0x2028
    ||| v == 0x2029
    ||| v == 0x202F
    ||| v == 0x205F
    ||| v == 0x3000
}

/// The first position at or after `i` that holds no white space; the length
/// of `s` where there is none.
pub open spec fn after_spaces(s: Seq<char>, i: int) -> int
    decreases s.len() - i,
{
    if 0 <= i < s.len() && is_space(s[i]) {
        after_spaces(s, i + 1)
    } else {
        i
    }
}

/// The first position at or after `i` that holds white space; the length of
/// `s` where there is none.
pub open spec fn after_word(s: Seq<char>, i: int) -> int
    decreases s.len() - i,
{
    if 0 <= i < s.len() && !is_space(s[i]) {
        after_word(s, i + 1)
    } else {
        i
    }
}

/// Where the second word of `s` starts: behind the white space that follows
/// the first word.
pub open spec fn second_word_start(s: Seq<char>) -> int {
    after_spaces(s, after_word(s, after_spaces(s, 0)))
}

/// The second of the words of `s`, a word being a longest run of characters
/// that are no white space; nothing where `s` has fewer than two words.
pub open spec fn second_word(s: Seq<char>) -> Option<Seq<char>> {
    let from = second_word_start(s);
    let to = after_word(s, from);
    if from < to {
        Some(s.subrange(from, to))
    } else {
        None
    }
}

/// Whether `c` is white space.
pub fn space(c: char) -> (b: bool)
    ensures
        b == is_space(c),
{
    let v: u32 = c as u32;
    (0x09 <= v && v <= 0x0D) || v == 0x20 || v == 0x85 || v == 0xA0 || v == 0x1680 || (0x2000 <= v
        && v <= 0x200A) || v == 0x2028 || v == 0x2029 || v == 0x202F || v == 0x205F || v == 0x3000
}

fn skip_spaces(s: &str, n: usize, i: usize) -> (j: usize)
    requires
        n == s@.len(),
        i <= n,
    ensures
        j == after_spaces(s@, i as int),
        i <= j <= n,
{
    let mut j: usize = i;
    while j < n && space(s.get_char(j))
        invariant
            n == s@.len(),
            i <= j <= n,
            after_spaces(s@, i as int) == after_spaces(s@, j as int),
        decreases n - j,
    {
        j = j + 1;
    }
    j
}

fn skip_word(s: &str, n: usize, i: usize) -> (j: usize)
    requires
        n == s@.len(),
        i <= n,
    ensures
        j == after_word(s@, i as int),
        i <= j <= n,
{
    let mut j: usize = i;
    while j < n && !space(s.get_char(j))
        invariant
            n == s@.len(),
            i <= j <= n,
            after_word(s@, i as int) == after_word(s@, j as int),
        decreases n - j,
    {
        j = j + 1;
    }
    j
}

/// The token of an authorization header: its second word, as in
/// `Bearer <token>`.
pub fn bearer_token(authorization: &str) -> (token: Option<String>)
    ensures
        match second_word(authorization@) {
            Some(w) => token is Some && token->0@ == w,
            None => token is None,
        },
{
    let n: usize = authorization.unicode_len();
    let first = skip_spaces(authorization, n, 0);
    let gap = skip_word(authorization, n, first);
    let from = skip_spaces(authorization, n, gap);
    let to = skip_word(authorization, n, from);
    if from < to {
        Some(String::from_str(authorization.substring_char(from, to)))
    } else {
        None
    }
}

/// What is done about the cookies when the access token is missing or
/// refused.
#[derive(Clone, Copy, Debug, PartialEq, Eq, Structural)]
pub enum RefreshAction {
    /// No refresh token was presented: the cookies stay as they are.
    Nothing,
    /// The refresh token was refused: both token cookies are removed.
    ClearCookies,
    /// The refresh token is the user's own: a new access token is issued.
    Renew,
}

/// What a request's refresh token comes to, as a value of mathematics.
pub open spec fn refresh_outcome(
    presented: Option<Seq<char>>,
    accepted: bool,
    stored: Option<Seq<char>>,
) -> RefreshAction {
    match presented {
        None => RefreshAction::Nothing,
        Some(p) => if accepted && stored == Some(p) {
            RefreshAction::Renew
        } else {
            RefreshAction::ClearCookies
        },
    }
}

/// The characters of an optional string reference.
pub open spec fn chars_of(s: Option<&String>) -> Option<Seq<char>> {
    match s {
        Some(t) => Some(t@),
        None => None,
    }
}

/// Decides what a presented refresh token comes to. `accepted` says whether
/// the token passed validation, `stored` is the refresh token that storage
/// holds for the token's user, where validation passed and the user was
/// found. Only a token that is accepted and equal to the stored one renews
/// the session.
pub fn refresh_action(presented: Option<&String>, accepted: bool, stored: Option<&String>) -> (r:
    RefreshAction)
    ensures
        r == refresh_outcome(chars_of(presented), accepted, chars_of(stored)),
{
    match presented {
        None => RefreshAction::Nothing,
        Some(p) => match stored {
            Some(s) => if accepted && *s == *p {
                RefreshAction::Renew
            } else {
                RefreshAction::ClearCookies
            },
            None => RefreshAction::ClearCookies,
        },
    }
}

} // verus!
