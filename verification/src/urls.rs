//! URL parsing and query building through the `url` crate.

use vstd::prelude::*;
use vstd::string::*;
use vstd::utf8::*;

verus! {

#[verifier::external_type_specification]
#[verifier::external_body]
pub struct ExUrlParseError(url::ParseError);

/// Name for what `Url::parse` gives for an input: the serialization of the
/// parsed URL, or `None` where the input is refused.
pub uninterp spec fn url_parse(input: Seq<char>) -> Option<Seq<char>>;

/// Name for the serialization of the URL that `Url::parse_with_params`
/// builds from an input and a list of name/value pairs.
pub uninterp spec fn url_parse_with_params(
    input: Seq<char>,
    params: Seq<(Seq<char>, Seq<char>)>,
) -> Seq<char>;

/// An upper bound on the bytes that appending name/value pairs adds to a
/// URL: every byte of a name or value becomes at most three bytes (`%XX`),
/// and every pair brings at most two separators (`?` or `&`, and `=`).
pub open spec fn query_growth_bound(params: Seq<(Seq<char>, Seq<char>)>) -> nat
    decreases params.len(),
{
    if params.len() == 0 {
        0
    } else {
        query_growth_bound(params.drop_last()) + 3 * (encode_utf8(params.last().0).len()
            + encode_utf8(params.last().1).len()) + 2
    }
}

/// A parsed URL to which the `url` crate can append the pairs without
/// running past its 32-bit positions: the serialization's UTF-8 length fits
/// in 32 bits (it becomes the start of a new query), and, where the URL has
/// a fragment (a `#`), so does the length with the pairs added (the
/// fragment's new start).
pub open spec fn url_query_fits(serialization: Seq<char>, params: Seq<(Seq<char>, Seq<char>)>) -> bool {
    &&& encode_utf8(serialization).len() <= u32::MAX
    &&& serialization.contains('#') ==> encode_utf8(serialization).len() + query_growth_bound(
        params,
    ) <= u32::MAX
}

proof fn lemma_growth_prefix_le(params: Seq<(Seq<char>, Seq<char>)>, k: int)
    requires
        0 <= k <= params.len(),
    ensures
        query_growth_bound(params.take(k)) <= query_growth_bound(params),
    decreases params.len(),
{
    if k < params.len() {
        assert(params.drop_last().take(k) =~= params.take(k));
        lemma_growth_prefix_le(params.drop_last(), k);
    } else {
        assert(params.take(k) =~= params);
    }
}

/// Whether the `url` crate can append the pairs to a URL with this
/// serialization (see `url_query_fits`).
pub fn query_fits(serialization: &str, params: &Vec<(String, String)>) -> (r: bool)
    ensures
        r == url_query_fits(serialization@, params.deep_view()),
{
    let base = serialization.as_bytes().len();
    if base > u32::MAX as usize {
        return false;
    }
    let chars = serialization.unicode_len();
    let mut has_fragment = false;
    let mut i: usize = 0;
    while i < chars
        invariant
            i <= chars,
            chars == serialization@.len(),
            has_fragment == exists|j: int| 0 <= j < i && serialization@[j] == '#',
        decreases chars - i,
    {
        if serialization.get_char(i) == '#' {
            has_fragment = true;
        }
        i = i + 1;
    }
    if !has_fragment {
        return true;
    }
    assert(serialization@.contains('#'));
    let ghost view = params.deep_view();
    let mut total: u128 = base as u128;
    let mut k: usize = 0;
    assert(view.take(0) =~= Seq::<(Seq<char>, Seq<char>)>::empty());
    while k < params.len()
        invariant
            k <= params@.len(),
            view == params.deep_view(),
            view.len() == params@.len(),
            base == encode_utf8(serialization@).len(),
            serialization@.contains('#'),
            total <= u32::MAX,
            total == base + query_growth_bound(view.take(k as int)),
        decreases params@.len() - k,
    {
        let name_len = params[k].0.as_str().as_bytes().len();
        let value_len = params[k].1.as_str().as_bytes().len();
        assert(view[k as int] == (params@[k as int].0@, params@[k as int].1@));
        assert(view.take(k + 1).drop_last() =~= view.take(k as int));
        total = total + 3 * ((name_len as u128) + (value_len as u128)) + 2;
        if total > u32::MAX as u128 {
            proof {
                lemma_growth_prefix_le(view, k + 1);
            }
            return false;
        }
        k = k + 1;
    }
    assert(view.take(k as int) =~= view);
    true
}

/// `Url::parse`, then the URL's serialization (`String::from(url)`). It is
/// `Ok` exactly when the name `url_parse` gives a serialization, and then
/// holds that serialization; what the error holds is not stated.
#[verifier::external_body]
pub(crate) fn parse_url(input: &str) -> (r: Result<String, url::ParseError>)
    ensures
        r is Ok <==> url_parse(input@) is Some,
        r matches Ok(s) ==> url_parse(input@) == Some(s@),
{
    match url::Url::parse(input) {
        Ok(url) => Ok(url.into()),
        Err(e) => Err(e),
    }
}

/// `Url::parse_with_params`, then the URL's serialization. The source parses
/// the input as `Url::parse` does and, on success, appends the pairs to the
/// query; so it is `Ok` exactly when `url_parse` succeeds. Appending the
/// pairs panics where a 32-bit position overflows: the start of a new query,
/// and the new start of a fragment taken off and put back behind the pairs.
/// The precondition leaves both out (see `url_query_fits`).
#[verifier::external_body]
pub(crate) fn parse_url_with_params(input: &str, params: &Vec<(String, String)>) -> (r: Result<
    String,
    url::ParseError,
>)
    requires
        url_parse(input@) matches Some(s) ==> url_query_fits(s, params.deep_view()),
    ensures
        r is Ok <==> url_parse(input@) is Some,
        r matches Ok(s) ==> s@ == url_parse_with_params(input@, params.deep_view()),
{
    match url::Url::parse_with_params(input, params.iter()) {
        Ok(url) => Ok(url.into()),
        Err(e) => Err(e),
    }
}

/// The `Display` text of a `url::ParseError`; nothing is stated of it.
#[verifier::external_body]
pub(crate) fn parse_error_text(error: &url::ParseError) -> String {
    error.to_string()
}

} // verus!
