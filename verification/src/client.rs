//! The search client: builds the request URL and turns a transport outcome
//! into a decoded search result or an error.
//!
//! The network request itself is I/O and lives with the embedding
//! application: it performs the GET for the URL built here and hands the
//! outcome (the body, or the transport's failure description) to
//! [`Client::complete_search`].

use vstd::prelude::*;
use crate::decode::{decode_response, sp_response};
use crate::error::Error;
use crate::model::SearchResult;
use crate::options::{SearchOptions, SearchOptionsView};
use crate::urlencode::{encode_query, encoded_query};

verus! {

/// The fixed base endpoint of the search service.
pub const BASE_URL: &'static str = "https://tatoeba.org/en/api_v0";

/// The full URL of a search request: the base endpoint, the search path, and
/// the encoded query string.
pub open spec fn sp_request_url(o: SearchOptionsView) -> Seq<char> {
    BASE_URL@ + "/search?"@ + encoded_query(o)
}

/// The search client. It holds no state: every search is independent.
pub struct Client;

impl Client {
    /// Builds the URL the search for these options is sent to.
    pub fn request_url(options: &SearchOptions) -> (r: String)
        ensures
            r@ == sp_request_url(options@),
    {
        let mut url: String = BASE_URL.to_owned();
        url.append("/search?");
        let q = encode_query(options);
        url.append(q.as_str());
        url
    }

    /// Finishes a search from the transport's outcome. A transport failure is
    /// reported as exactly that — a [`Error::TransportError`] carrying the
    /// transport's description, never a decoding error — and a received body
    /// is decoded per [`sp_response`].
    pub fn complete_search(transport: Result<String, String>) -> (r: Result<SearchResult, Error>)
        ensures
            transport is Err ==> r == Result::<SearchResult, Error>::Err(
                Error::TransportError(transport->Err_0),
            ),
            transport is Ok ==> {
                &&& r is Ok <==> sp_response(transport->Ok_0@) is Ok
                &&& r is Ok ==> r->Ok_0@ == sp_response(transport->Ok_0@)->Ok_0
                &&& r is Err ==> r->Err_0 == sp_response(transport->Ok_0@)->Err_0
            },
    {
        match transport {
            Ok(body) => decode_response(body.as_str()),
            Err(msg) => Err(Error::TransportError(msg)),
        }
    }
}

} // verus!
