//! The text that handlers derive from queries.
use vstd::prelude::*;
use vstd::string::StringExecFns;

verus! {

/// std's `String::push`: appends one character.
pub assume_specification[ String::push ](s: &mut String, ch: char)
    ensures
        final(s)@ == old(s)@.push(ch),
;

/// The reply of a unary call: the query behind a fixed prefix.
pub open spec fn unary_reply(query: Seq<char>) -> Seq<char> {
    "Result for "@ + query
}

/// The queries joined by commas, with no separator before the first one.
pub open spec fn join_queries(queries: Seq<Seq<char>>) -> Seq<char>
    decreases queries.len(),
{
    if queries.len() == 0 {
        Seq::empty()
    } else if queries.len() == 1 {
        queries[0]
    } else {
        join_queries(queries.drop_last()) + seq![','] + queries.last()
    }
}

/// What `str::to_uppercase` makes of a text.
pub uninterp spec fn upper_of(s: Seq<char>) -> Seq<char>;

/// Relies on `str::to_uppercase`: its result depends on the characters alone.
#[verifier::external_body]
pub(crate) fn uppercase(s: &str) -> (r: String)
    ensures
        r@ == upper_of(s@),
{
    s.to_uppercase()
}

pub fn unary_reply_text(query: &str) -> (r: String)
    ensures
        r@ == unary_reply(query@),
{
    let mut r = String::from_str("Result for ");
    r.append(query);
    r
}

/// Extends `joined`, the join of some queries (`count_nonzero` says whether
/// there were any), by one more query.
pub fn append_joined(joined: &mut String, count_nonzero: bool, query: &str)
    ensures
        count_nonzero ==> final(joined)@ == old(joined)@ + seq![','] + query@,
        !count_nonzero ==> final(joined)@ == old(joined)@ + query@,
{
    if count_nonzero {
        joined.push(',');
    }
    joined.append(query);
}

/// Joining one more query extends the join by a comma and that query.
pub proof fn lemma_join_push(queries: Seq<Seq<char>>, q: Seq<char>)
    ensures
        queries.len() == 0 ==> join_queries(queries.push(q)) == q,
        queries.len() > 0 ==> join_queries(queries.push(q)) == join_queries(queries) + seq![','] + q,
{
    assert(queries.push(q).drop_last() =~= queries);
}

} // verus!
