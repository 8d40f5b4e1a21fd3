//! Typed GET request builders: one URL and one round trip for a single
//! object, or repeated round trips following pagination links for a list.
//!
//! Building the URL and deciding each step of a paged fetch happen here;
//! the caller performs the HTTP round trips and hands back each
//! response's status, `Link` header and deserialized body.

use core::marker::PhantomData;

use vstd::prelude::*;

use crate::canvas::CanvasInformation;
use crate::digits::parse_usize;
use crate::digits::spec_parse_usize;
use crate::error::ApiError;
use crate::paging::PagedFetch;
use crate::parameters::RequestParameter;
use crate::query::append_query_string;
use crate::query::spec_query_string;
use crate::text::str_eq;

verus! {

/// The payload of a completed request.
pub struct GetObjectResponse<Output>(Output);

impl<Output> GetObjectResponse<Output> {
    /// The wrapped payload.
    pub closed spec fn spec_inner(&self) -> Output {
        self.0
    }

    /// Wrap a payload.
    pub fn new(value: Output) -> (r: Self)
        ensures
            r.spec_inner() == value,
    {
        GetObjectResponse(value)
    }

    /// Take the payload out.
    pub fn inner(self) -> (r: Output)
        ensures
            r == self.spec_inner(),
    {
        self.0
    }
}

/// The value under `key` in a list of name/value pairs: the first pair
/// whose name matches.
pub open spec fn spec_lookup(pairs: Seq<(String, String)>, key: Seq<char>) -> Option<Seq<char>>
    decreases pairs.len(),
{
    if pairs.len() == 0 {
        None
    } else if pairs[0].0@ == key {
        Some(pairs[0].1@)
    } else {
        spec_lookup(pairs.drop_first(), key)
    }
}

/// The value under `key` among the pairs, if any.
fn lookup(pairs: &Vec<(String, String)>, key: &str) -> (r: Option<String>)
    ensures
        match r {
            Some(v) => spec_lookup(pairs@, key@) == Some(v@),
            None => spec_lookup(pairs@, key@) is None,
        },
{
    let n = pairs.len();
    proof {
        assert(pairs@.subrange(0, n as int) =~= pairs@);
    }
    let mut i: usize = 0;
    while i < n
        invariant
            i <= n,
            n == pairs@.len(),
            spec_lookup(pairs@, key@) == spec_lookup(pairs@.subrange(i as int, n as int), key@),
        decreases n - i,
    {
        let ghost tail = pairs@.subrange(i as int, n as int);
        proof {
            assert(tail[0] == pairs@[i as int]);
        }
        if str_eq(pairs[i].0.as_str(), key) {
            let v = pairs[i].1.clone();
            proof {
                assert(spec_lookup(tail, key@) == Some(pairs@[i as int].1@));
            }
            return Some(v);
        }
        proof {
            assert(tail.drop_first() =~= pairs@.subrange(i + 1, n as int));
            assert(spec_lookup(tail, key@) == spec_lookup(
                pairs@.subrange(i + 1, n as int),
                key@,
            ));
        }
        i = i + 1;
    }
    proof {
        assert(pairs@.subrange(n as int, n as int) =~= Seq::<(String, String)>::empty());
    }
    None
}

/// Whether a response's status allows its body to be used: any status
/// other than success fails with that status, and the body is discarded.
pub fn check_status(status: u16) -> (r: Result<(), ApiError>)
    ensures
        status == 200 ==> r == Ok::<(), ApiError>(()),
        status != 200 ==> r == Err::<(), ApiError>(ApiError::HttpStatus(status)),
{
    if status == 200 {
        Ok(())
    } else {
        Err(ApiError::HttpStatus(status))
    }
}

/// An object for get requests with a single map response, of which one
/// named field is the result.
pub struct GetObjectRequestMap<Output> {
    url: String,
    parameters: Vec<RequestParameter>,
    output: PhantomData<Output>,
    key: String,
}

impl<Output> GetObjectRequestMap<Output> {
    /// The stored relative path.
    pub closed spec fn spec_url(&self) -> Seq<char> {
        self.url@
    }

    /// The parameters attached so far.
    pub closed spec fn spec_parameters(&self) -> Seq<RequestParameter> {
        self.parameters@
    }

    /// The name of the field of interest in the response map.
    pub closed spec fn spec_key(&self) -> Seq<char> {
        self.key@
    }

    /// Create a new get request object from a relative path and the name
    /// of the field of interest.
    pub fn new(url: String, key: String) -> (r: Self)
        ensures
            r.spec_url() == url@,
            r.spec_parameters() == Seq::<RequestParameter>::empty(),
            r.spec_key() == key@,
    {
        GetObjectRequestMap { url, parameters: Vec::new(), output: PhantomData, key }
    }

    /// Append one parameter; parameters are kept in insertion order and
    /// never removed or de-duplicated.
    pub fn add_parameter(self, parameter: RequestParameter) -> (r: Self)
        ensures
            r.spec_url() == self.spec_url(),
            r.spec_key() == self.spec_key(),
            r.spec_parameters() == self.spec_parameters().push(parameter),
    {
        let mut r = self;
        r.parameters.push(parameter);
        r
    }

    /// The absolute URL of the single GET this request performs: the
    /// connection's base URL, the API-version segment, the stored path,
    /// and the serialized query string.
    pub fn request_url(&self, canvas: &CanvasInformation) -> (r: String)
        ensures
            r@ == canvas.spec_base_url() + "/api/v1/"@ + self.spec_url() + spec_query_string(
                self.spec_parameters(),
            ),
    {
        let prefixed = canvas.add_url_prefix(self.url.as_str());
        let r = append_query_string(prefixed, &self.parameters);
        proof {
            assert(r@ =~= canvas.spec_base_url() + "/api/v1/"@ + self.spec_url()
                + spec_query_string(self.spec_parameters()));
        }
        r
    }
}

impl GetObjectRequestMap<usize> {
    /// The result carried by a string-map response body: the value under
    /// this request's key, parsed as a decimal integer. Fails with the
    /// key's name when the field is absent, and with a parse failure when
    /// its value is not a decimal integer.
    pub fn extract(&self, pairs: &Vec<(String, String)>) -> (r: Result<usize, ApiError>)
        ensures
            match r {
                Ok(n) => spec_lookup(pairs@, self.spec_key()) matches Some(v) && spec_parse_usize(
                    v,
                ) == Some(n),
                Err(e) => match e {
                    ApiError::MissingField(f) => f@ == self.spec_key() && spec_lookup(
                        pairs@,
                        self.spec_key(),
                    ) is None,
                    ApiError::ParseFailed => spec_lookup(pairs@, self.spec_key()) matches Some(v)
                        && spec_parse_usize(v) is None,
                    ApiError::HttpStatus(_) => false,
                },
            },
    {
        match lookup(pairs, self.key.as_str()) {
            None => Err(ApiError::MissingField(self.key.clone())),
            Some(v) => match parse_usize(v.as_str()) {
                None => Err(ApiError::ParseFailed),
                Some(n) => Ok(n),
            },
        }
    }
}

/// An object for get requests returning a single value.
pub struct GetObjectRequest<Output> {
    url: String,
    parameters: Vec<RequestParameter>,
    output: PhantomData<Output>,
}

impl<Output> GetObjectRequest<Output> {
    /// The stored relative path.
    pub closed spec fn spec_url(&self) -> Seq<char> {
        self.url@
    }

    /// The parameters attached so far.
    pub closed spec fn spec_parameters(&self) -> Seq<RequestParameter> {
        self.parameters@
    }

    /// Create a new get request object with a correct relative url.
    pub fn new(url: String) -> (r: Self)
        ensures
            r.spec_url() == url@,
            r.spec_parameters() == Seq::<RequestParameter>::empty(),
    {
        GetObjectRequest { url, parameters: Vec::new(), output: PhantomData }
    }

    /// Append one parameter; parameters are kept in insertion order and
    /// never removed or de-duplicated.
    pub fn add_parameter(self, parameter: RequestParameter) -> (r: Self)
        ensures
            r.spec_url() == self.spec_url(),
            r.spec_parameters() == self.spec_parameters().push(parameter),
    {
        let mut r = self;
        r.parameters.push(parameter);
        r
    }

    /// The absolute URL of the single GET this request performs: the
    /// connection's base URL, the API-version segment, the stored path,
    /// and the serialized query string.
    pub fn request_url(&self, canvas: &CanvasInformation) -> (r: String)
        ensures
            r@ == canvas.spec_base_url() + "/api/v1/"@ + self.spec_url() + spec_query_string(
                self.spec_parameters(),
            ),
    {
        let prefixed = canvas.add_url_prefix(self.url.as_str());
        let r = append_query_string(prefixed, &self.parameters);
        proof {
            assert(r@ =~= canvas.spec_base_url() + "/api/v1/"@ + self.spec_url()
                + spec_query_string(self.spec_parameters()));
        }
        r
    }
}

/// An object for get requests returning a list, gathered over one or more
/// pages.
pub struct GetPagedObjectRequest<Output> {
    url: String,
    parameters: Vec<RequestParameter>,
    output: PhantomData<Vec<Output>>,
}

impl<Output> GetPagedObjectRequest<Output> {
    /// The stored relative path.
    pub closed spec fn spec_url(&self) -> Seq<char> {
        self.url@
    }

    /// The parameters attached so far.
    pub closed spec fn spec_parameters(&self) -> Seq<RequestParameter> {
        self.parameters@
    }

    /// Create a new paged get request object with a correct relative url.
    pub fn new(url: String) -> (r: Self)
        ensures
            r.spec_url() == url@,
            r.spec_parameters() == Seq::<RequestParameter>::empty(),
    {
        GetPagedObjectRequest { url, parameters: Vec::new(), output: PhantomData }
    }

    /// Append one parameter; parameters are kept in insertion order and
    /// never removed or de-duplicated. They apply only to the first
    /// request of the sequence: later requests use the server-supplied
    /// next-URL, which already encodes the continuation state.
    pub fn add_parameter(self, parameter: RequestParameter) -> (r: Self)
        ensures
            r.spec_url() == self.spec_url(),
            r.spec_parameters() == self.spec_parameters().push(parameter),
    {
        let mut r = self;
        r.parameters.push(parameter);
        r
    }

    /// The absolute URL of the first GET of the sequence: the connection's
    /// base URL, the API-version segment, the stored path, and the
    /// serialized query string.
    pub fn initial_url(&self, canvas: &CanvasInformation) -> (r: String)
        ensures
            r@ == canvas.spec_base_url() + "/api/v1/"@ + self.spec_url() + spec_query_string(
                self.spec_parameters(),
            ),
    {
        let prefixed = canvas.add_url_prefix(self.url.as_str());
        let r = append_query_string(prefixed, &self.parameters);
        proof {
            assert(r@ =~= canvas.spec_base_url() + "/api/v1/"@ + self.spec_url()
                + spec_query_string(self.spec_parameters()));
        }
        r
    }

    /// Start the paged fetch: no items yet, and the first GET pending at
    /// the initial URL.
    pub fn begin_fetch(self, canvas: &CanvasInformation) -> (r: PagedFetch<Output>)
        ensures
            r.items@ == Seq::<Output>::empty(),
            r.next is Some,
            r.next->0@ == canvas.spec_base_url() + "/api/v1/"@ + self.spec_url()
                + spec_query_string(self.spec_parameters()),
    {
        let url = self.initial_url(canvas);
        PagedFetch::begin(url)
    }
}

} // verus!
