use crate::endpoint::{lemma_keys_distinct, Endpoint, CHAIN_KEY};
use crate::query::{
    has_key, holds_once, lemma_absent_has_no_pair, lemma_given_has_one_pair,
    lemma_present_keys_unique, present, unique_keys, Pair,
};
use vstd::prelude::*;

verus! {

/// The name of the header that says what kind of content is exchanged.
pub const CONTENT_TYPE_HEADER: &'static str = "Content-Type";

/// The content type that every request declares.
pub const CONTENT_TYPE: &'static str = "application/json";

/// The name of the header that carries the API key.
pub const ACCESS_KEY_HEADER: &'static str = "Ok-Access-Key";

/// A GET request, ready to be sent: where it goes, the headers it carries,
/// and the parameters of its query, in order.
#[derive(Clone, Debug, PartialEq, Eq)]
pub struct Request {
    pub url: String,
    pub headers: Vec<(String, String)>,
    pub query: Vec<(String, String)>,
}

/// A `Request` with its texts as sequences of characters.
pub struct RequestView {
    pub url: Seq<char>,
    pub headers: Seq<Pair>,
    pub query: Seq<Pair>,
}

impl View for Request {
    type V = RequestView;

    open spec fn view(&self) -> RequestView {
        RequestView {
            url: self.url@,
            headers: self.headers.deep_view(),
            query: self.query.deep_view(),
        }
    }
}

/// The two headers of every request: the content type, and the API key as
/// it was given.
pub open spec fn headers_for(api_key: Seq<char>) -> Seq<Pair> {
    seq![(CONTENT_TYPE_HEADER@, CONTENT_TYPE@), (ACCESS_KEY_HEADER@, api_key)]
}

/// The query of a request to `endpoint` about `chain`: the chain first,
/// then the arguments that are given, each under its key.
pub open spec fn query_for(
    chain: Seq<char>,
    endpoint: Endpoint,
    values: Seq<Option<Seq<char>>>,
) -> Seq<Pair> {
    seq![(CHAIN_KEY@, chain)] + present(endpoint.spec_keys(), values)
}

/// What a client is set up with: the API key, the address of the server,
/// which ends where the paths begin, and the short name of the chain that
/// the queries are about.
pub struct Settings {
    pub api_key: Seq<char>,
    pub base_url: Seq<char>,
    pub chain_short_name: Seq<char>,
}

/// The request by which a client asks `endpoint` with the arguments
/// `values`, one for each key of the endpoint and in their order.
pub open spec fn request_to(
    client: Settings,
    endpoint: Endpoint,
    values: Seq<Option<Seq<char>>>,
) -> RequestView {
    RequestView {
        url: client.base_url + endpoint.spec_path(),
        headers: headers_for(client.api_key),
        query: query_for(client.chain_short_name, endpoint, values),
    }
}

/// Putting a given argument in front puts its pair in front.
proof fn lemma_present_after_given(
    key: Seq<char>,
    value: Seq<char>,
    keys: Seq<Seq<char>>,
    values: Seq<Option<Seq<char>>>,
)
    requires
        values.len() == keys.len(),
    ensures
        present(seq![key] + keys, seq![Some(value)] + values) == seq![(key, value)] + present(
            keys,
            values,
        ),
    decreases keys.len(),
{
    let all_keys = seq![key] + keys;
    let all_values = seq![Some(value)] + values;
    if keys.len() == 0 {
        assert(present(all_keys.drop_last(), all_values.drop_last()) =~= Seq::<Pair>::empty());
    } else {
        lemma_present_after_given(key, value, keys.drop_last(), values.drop_last());
        assert(all_keys.drop_last() =~= seq![key] + keys.drop_last());
        assert(all_values.drop_last() =~= seq![Some(value)] + values.drop_last());
    }
}

/// The chain is named first in every query, and once.
pub proof fn lemma_chain_is_named_once(
    chain: Seq<char>,
    endpoint: Endpoint,
    values: Seq<Option<Seq<char>>>,
)
    requires
        values.len() == endpoint.spec_keys().len(),
    ensures
        query_for(chain, endpoint, values)[0] == (CHAIN_KEY@, chain),
        holds_once(query_for(chain, endpoint, values), (CHAIN_KEY@, chain)),
{
    let keys = seq![CHAIN_KEY@] + endpoint.spec_keys();
    let all = seq![Some(chain)] + values;
    lemma_keys_distinct(endpoint);
    lemma_present_after_given(CHAIN_KEY@, chain, endpoint.spec_keys(), values);
    lemma_given_has_one_pair(keys, all, 0);
}

/// No query carries one key twice.
pub proof fn lemma_query_keys_are_unique(
    chain: Seq<char>,
    endpoint: Endpoint,
    values: Seq<Option<Seq<char>>>,
)
    requires
        values.len() == endpoint.spec_keys().len(),
    ensures
        unique_keys(query_for(chain, endpoint, values)),
{
    let keys = seq![CHAIN_KEY@] + endpoint.spec_keys();
    let all = seq![Some(chain)] + values;
    lemma_keys_distinct(endpoint);
    lemma_present_after_given(CHAIN_KEY@, chain, endpoint.spec_keys(), values);
    lemma_present_keys_unique(keys, all);
}

/// An argument that is left out leaves nothing in the query: no pair has its
/// key, not even one with an empty value.
pub proof fn lemma_omitted_argument_is_absent(
    chain: Seq<char>,
    endpoint: Endpoint,
    values: Seq<Option<Seq<char>>>,
    i: int,
)
    requires
        values.len() == endpoint.spec_keys().len(),
        0 <= i < values.len(),
        values[i] is None,
    ensures
        !has_key(query_for(chain, endpoint, values), endpoint.spec_keys()[i]),
{
    let keys = seq![CHAIN_KEY@] + endpoint.spec_keys();
    let all = seq![Some(chain)] + values;
    lemma_keys_distinct(endpoint);
    lemma_present_after_given(CHAIN_KEY@, chain, endpoint.spec_keys(), values);
    lemma_absent_has_no_pair(keys, all, i + 1);
}

/// An argument that is given appears in the query as exactly one pair, its
/// key with its value, and no other pair has its key.
pub proof fn lemma_given_argument_appears_once(
    chain: Seq<char>,
    endpoint: Endpoint,
    values: Seq<Option<Seq<char>>>,
    i: int,
)
    requires
        values.len() == endpoint.spec_keys().len(),
        0 <= i < values.len(),
        values[i] is Some,
    ensures
        holds_once(query_for(chain, endpoint, values), (endpoint.spec_keys()[i], values[i]->0)),
{
    let keys = seq![CHAIN_KEY@] + endpoint.spec_keys();
    let all = seq![Some(chain)] + values;
    lemma_keys_distinct(endpoint);
    lemma_present_after_given(CHAIN_KEY@, chain, endpoint.spec_keys(), values);
    lemma_given_has_one_pair(keys, all, i + 1);
}

} // verus!
