//! Freshly drawn tokens: one production policy of server-streaming calls.
use vstd::prelude::*;

verus! {

/// How many tokens one draw yields.
pub const TOKEN_COUNT: usize = 5;

/// How many characters each token has.
pub const TOKEN_LEN: usize = 10;

/// rand's thread-local generator handle, carried through opaquely.
#[verifier::external_type_specification]
#[verifier::external_body]
pub struct ExThreadRng(rand::rngs::ThreadRng);

/// rand's `thread_rng`: a handle on the thread-local generator.
pub assume_specification[ rand::thread_rng ]() -> rand::rngs::ThreadRng;

/// An ASCII letter or digit.
pub open spec fn is_token_char(c: char) -> bool {
    ('A' <= c && c <= 'Z') || ('a' <= c && c <= 'z') || ('0' <= c && c <= '9')
}

/// A token: exactly `TOKEN_LEN` ASCII letters and digits.
pub open spec fn is_token(s: Seq<char>) -> bool {
    s.len() == TOKEN_LEN && forall|j: int| 0 <= j < s.len() ==> is_token_char(#[trigger] s[j])
}

/// Relies on rand's `Rng::sample` with `Alphanumeric`, which yields a byte
/// drawn from `A-Z`, `a-z` and `0-9`.
#[verifier::external_body]
fn random_token_char(rng: &mut rand::rngs::ThreadRng) -> (c: char)
    ensures
        is_token_char(c),
{
    rand::Rng::sample(rng, rand::distributions::Alphanumeric) as char
}

/// The `i`-th token cut from a run of characters.
pub open spec fn token_at(chars: Seq<char>, i: int) -> Seq<char> {
    chars.subrange(i * TOKEN_LEN, (i + 1) * TOKEN_LEN)
}

/// Every character of a run is an ASCII letter or digit.
pub open spec fn all_token_chars(chars: Seq<char>) -> bool {
    forall|j: int| 0 <= j < chars.len() ==> is_token_char(#[trigger] chars[j])
}

/// Draws `n` characters, one draw each, from the thread-local generator.
/// Like any use of that generator, it panics if the operating system's
/// entropy source fails when the generator is first seeded or reseeded.
pub fn draw_token_chars(n: usize) -> (r: Vec<char>)
    ensures
        r@.len() == n,
        all_token_chars(r@),
{
    let mut rng = rand::thread_rng();
    let mut r: Vec<char> = Vec::new();
    let mut i: usize = 0;
    while i < n
        invariant
            i <= n,
            r@.len() == i,
            all_token_chars(r@),
        decreases n - i,
    {
        let c = random_token_char(&mut rng);
        r.push(c);
        i = i + 1;
    }
    r
}

/// Cuts `TOKEN_COUNT` tokens of `TOKEN_LEN` characters each from a run of
/// characters, in order: character `j` of token `i` is `chars[i * TOKEN_LEN + j]`.
pub fn tokens_from_chars(chars: &Vec<char>) -> (r: Vec<String>)
    requires
        chars@.len() == TOKEN_COUNT * TOKEN_LEN,
    ensures
        r@.len() == TOKEN_COUNT,
        forall|i: int| 0 <= i < TOKEN_COUNT ==> #[trigger] r@[i]@ == token_at(chars@, i),
{
    let mut r: Vec<String> = Vec::new();
    let mut i: usize = 0;
    while i < TOKEN_COUNT
        invariant
            i <= TOKEN_COUNT,
            chars@.len() == TOKEN_COUNT * TOKEN_LEN,
            r@.len() == i,
            forall|k: int| 0 <= k < i ==> #[trigger] r@[k]@ == token_at(chars@, k),
        decreases TOKEN_COUNT - i,
    {
        let mut token = String::new();
        let start: usize = i * TOKEN_LEN;
        let mut j: usize = 0;
        while j < TOKEN_LEN
            invariant
                i < TOKEN_COUNT,
                j <= TOKEN_LEN,
                start == i * TOKEN_LEN,
                chars@.len() == TOKEN_COUNT * TOKEN_LEN,
                token@ == chars@.subrange(start as int, start + j),
            decreases TOKEN_LEN - j,
        {
            let c = chars[start + j];
            token.push(c);
            j = j + 1;
            assert(token@ =~= chars@.subrange(start as int, start + j));
        }
        r.push(token);
        i = i + 1;
    }
    r
}

/// Draws `TOKEN_COUNT` random tokens: `TOKEN_COUNT * TOKEN_LEN` characters
/// drawn one by one and cut into tokens in order. Panics only where
/// `draw_token_chars` does.
pub fn get_random_strings() -> (r: Vec<String>)
    ensures
        r@.len() == TOKEN_COUNT,
        forall|i: int| 0 <= i < r@.len() ==> is_token(#[trigger] r@[i]@),
        exists|chars: Seq<char>|
            chars.len() == TOKEN_COUNT * TOKEN_LEN && all_token_chars(chars) && forall|i: int|
                0 <= i < TOKEN_COUNT ==> #[trigger] r@[i]@ == token_at(chars, i),
{
    let chars = draw_token_chars(TOKEN_COUNT * TOKEN_LEN);
    let r = tokens_from_chars(&chars);
    assert forall|i: int| 0 <= i < r@.len() implies is_token(#[trigger] r@[i]@) by {
        assert(r@[i]@ == token_at(chars@, i));
        assert forall|j: int| 0 <= j < TOKEN_LEN implies is_token_char(#[trigger] r@[i]@[j]) by {
            assert(r@[i]@[j] == chars@[i * TOKEN_LEN + j]);
        }
    }
    r
}

} // verus!
