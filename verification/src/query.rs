//! The query string of a request target, and the parameters in it.

use vstd::prelude::*;
use vstd::std_specs::iter::IteratorSpec;

verus! {

/// `i` is the place of the first `?` of `uri`.
pub open spec fn is_query_mark(uri: Seq<char>, i: int) -> bool {
    &&& 0 <= i < uri.len()
    &&& uri[i] == '?'
    &&& forall|j: int| 0 <= j < i ==> uri[j] != '?'
}

/// The query string of a request target: what follows its first `?`.
/// A target without `?` has none; one that ends in `?` has an empty one.
pub open spec fn query_part(uri: Seq<char>) -> Option<Seq<char>> {
    if exists|i: int| is_query_mark(uri, i) {
        let i = choose|i: int| is_query_mark(uri, i);
        Some(uri.subrange(i + 1, uri.len() as int))
    } else {
        None
    }
}

/// The first `?` of a target is in one place only.
pub proof fn lemma_query_mark_unique(uri: Seq<char>, i: int, k: int)
    requires
        is_query_mark(uri, i),
        is_query_mark(uri, k),
    ensures
        i == k,
{
}

/// Splits the query string off a request target.
pub fn query_of(uri: &str) -> (query: Option<&str>)
    ensures
        match query {
            Some(q) => query_part(uri@) == Some(q@),
            None => query_part(uri@) is None,
        },
{
    let len = uri.unicode_len();
    let mut at: usize = 0;
    for c in it: uri.chars()
        invariant
            at == it.index(),
            it.seq() == uri@,
            len == uri@.len(),
            forall|j: int| 0 <= j < at ==> uri@[j] != '?',
    {
        if c == '?' {
            proof {
                assert(is_query_mark(uri@, at as int));
                let k = choose|k: int| is_query_mark(uri@, k);
                lemma_query_mark_unique(uri@, at as int, k);
            }
            return Some(uri.substring_char(at + 1, len));
        }
        at = at + 1;
    }
    None
}

/// The pairs of names and values that `form_urlencoded::parse` of the `url`
/// crate reads out of a query string, in the order of the string, each name
/// and value percent-decoded.
pub uninterp spec fn form_pairs(query: Seq<char>) -> Seq<(Seq<char>, Seq<char>)>;

/// Calls `url::form_urlencoded::parse` on the bytes of `query` and collects
/// what it yields. The contract only gives that result its name: the pairs
/// are a function of the query string alone.
#[verifier::external_body]
pub(crate) fn parse_query(query: &str) -> (pairs: Vec<(String, String)>)
    ensures
        pairs.deep_view() == form_pairs(query@),
{
    url::form_urlencoded::parse(query.as_bytes()).into_owned().collect()
}

/// The parameters of a query as a mapping from name to value. Of two pairs
/// with one name the later one counts.
pub open spec fn params(pairs: Seq<(Seq<char>, Seq<char>)>) -> Map<Seq<char>, Seq<char>>
    decreases pairs.len(),
{
    if pairs.len() == 0 {
        Map::empty()
    } else {
        params(pairs.drop_last()).insert(pairs.last().0, pairs.last().1)
    }
}

/// The value of the parameter `name`, if the query has one.
pub open spec fn param(pairs: Seq<(Seq<char>, Seq<char>)>, name: Seq<char>) -> Option<Seq<char>> {
    if params(pairs).contains_key(name) {
        Some(params(pairs)[name])
    } else {
        None
    }
}

/// A name that no pair carries is no parameter.
pub proof fn lemma_param_absent(pairs: Seq<(Seq<char>, Seq<char>)>, name: Seq<char>)
    requires
        forall|i: int| 0 <= i < pairs.len() ==> pairs[i].0 != name,
    ensures
        param(pairs, name) is None,
    decreases pairs.len(),
{
    if pairs.len() > 0 {
        lemma_param_absent(pairs.drop_last(), name);
    }
}

/// The last pair that carries a name gives the parameter its value.
pub proof fn lemma_param_last(pairs: Seq<(Seq<char>, Seq<char>)>, name: Seq<char>, at: int)
    requires
        0 <= at < pairs.len(),
        pairs[at].0 == name,
        forall|i: int| at < i < pairs.len() ==> pairs[i].0 != name,
    ensures
        param(pairs, name) == Some(pairs[at].1),
    decreases pairs.len(),
{
    if at < pairs.len() - 1 {
        lemma_param_last(pairs.drop_last(), name, at);
    }
}

/// Looks a parameter up among the pairs of a parsed query.
pub fn lookup(pairs: &Vec<(String, String)>, name: &str) -> (value: Option<String>)
    ensures
        value.deep_view() == param(pairs.deep_view(), name@),
{
    let key = String::from_str(name);
    let ghost model = pairs.deep_view();
    let mut at = pairs.len();
    while at > 0
        invariant
            at <= pairs.len(),
            key@ == name@,
            model == pairs.deep_view(),
            forall|i: int| at <= i < model.len() ==> model[i].0 != name@,
        decreases at,
    {
        at = at - 1;
        if pairs[at].0 == key {
            proof {
                lemma_param_last(model, name@, at as int);
            }
            return Some(pairs[at].1.clone());
        }
    }
    proof {
        lemma_param_absent(model, name@);
    }
    None
}

} // verus!
