//! The session token that a client makes up for itself: 32 letters or
//! digits, a hyphen, and 10 more letters or digits.

use vstd::prelude::*;
use vstd::string::StringExecFns;

verus! {

/// The number of characters before the hyphen.
pub const TOKEN_HEAD: usize = 32;

/// The number of characters after the hyphen.
pub const TOKEN_TAIL: usize = 10;

/// Whether `c` is one of `A-Z`, `a-z`, `0-9`.
pub open spec fn is_alphanumeric(c: char) -> bool {
    ||| 'A' <= c <= 'Z'
    ||| 'a' <= c <= 'z'
    ||| '0' <= c <= '9'
}

/// Whether every character of `text` is a letter or a digit.
pub open spec fn all_alphanumeric(text: Seq<char>) -> bool {
    forall|i: int| 0 <= i < text.len() ==> is_alphanumeric(#[trigger] text[i])
}

/// Whether `token` has the shape `[A-Za-z0-9]{32}-[A-Za-z0-9]{10}`.
pub open spec fn is_session_token(token: Seq<char>) -> bool {
    &&& token.len() == TOKEN_HEAD + 1 + TOKEN_TAIL
    &&& all_alphanumeric(token.subrange(0, TOKEN_HEAD as int))
    &&& token[TOKEN_HEAD as int] == '-'
    &&& all_alphanumeric(token.subrange(TOKEN_HEAD + 1, token.len() as int))
}

/// `fastrand::alphanumeric`: a character drawn from `A-Z`, `a-z`, `0-9` by
/// the thread's generator. Which one is not known.
pub assume_specification[ fastrand::alphanumeric ]() -> (c: char)
    ensures
        is_alphanumeric(c),
;

/// `String::push`: the character is appended.
pub assume_specification[ std::string::String::push ](text: &mut std::string::String, c: char)
    ensures
        final(text)@ == old(text)@.push(c),
;

/// A text of `count` random letters and digits.
fn random_alphanumerics(count: usize) -> (text: String)
    ensures
        text@.len() == count,
        all_alphanumeric(text@),
{
    let mut text = String::new();
    let mut made: usize = 0;
    while made < count
        invariant
            made <= count,
            text@.len() == made,
            all_alphanumeric(text@),
        decreases count - made,
    {
        let c = fastrand::alphanumeric();
        text.push(c);
        made += 1;
    }
    text
}

/// The token made of two drawn texts: `head`, a hyphen, `tail`. It has the
/// shape of a session token exactly where `head` is 32 and `tail` is 10
/// letters or digits.
pub fn session_token_of(head: &str, tail: &str) -> (token: String)
    ensures
        token@ == head@ + "-"@ + tail@,
        is_session_token(token@) <==> {
            &&& head@.len() == TOKEN_HEAD
            &&& tail@.len() == TOKEN_TAIL
            &&& all_alphanumeric(head@)
            &&& all_alphanumeric(tail@)
        },
{
    let mut token = head.to_owned();
    token.append("-");
    token.append(tail);
    proof {
        lemma_token_shape(head@, tail@);
    }
    token
}

/// A hyphen between two texts makes a session token exactly where the
/// first text is 32 and the second is 10 letters or digits: the hyphen is
/// no letter or digit, so it can stand nowhere but between them.
pub proof fn lemma_token_shape(head: Seq<char>, tail: Seq<char>)
    ensures
        is_session_token(head + "-"@ + tail) <==> {
            &&& head.len() == TOKEN_HEAD
            &&& tail.len() == TOKEN_TAIL
            &&& all_alphanumeric(head)
            &&& all_alphanumeric(tail)
        },
{
    reveal_strlit("-");
    let token = head + "-"@ + tail;
    assert(token.len() == head.len() + 1 + tail.len());
    assert(token[head.len() as int] == '-');
    assert(!is_alphanumeric('-'));
    if is_session_token(token) {
        let first = token.subrange(0, TOKEN_HEAD as int);
        let second = token.subrange(TOKEN_HEAD + 1, token.len() as int);
        if head.len() < TOKEN_HEAD {
            assert(first[head.len() as int] == token[head.len() as int]);
        }
        if head.len() > TOKEN_HEAD {
            assert(second[head.len() - TOKEN_HEAD - 1] == token[head.len() as int]);
        }
        assert(head =~= first);
        assert(tail =~= second);
    }
    if head.len() == TOKEN_HEAD && tail.len() == TOKEN_TAIL && all_alphanumeric(head)
        && all_alphanumeric(tail) {
        assert(token.subrange(0, TOKEN_HEAD as int) =~= head);
        assert(token.subrange(TOKEN_HEAD + 1, token.len() as int) =~= tail);
    }
}

/// A fresh session token. Its characters are random; its shape is not.
pub fn get_random_session_id() -> (token: String)
    ensures
        is_session_token(token@),
{
    let head = random_alphanumerics(TOKEN_HEAD);
    let tail = random_alphanumerics(TOKEN_TAIL);
    session_token_of(head.as_str(), tail.as_str())
}

} // verus!
