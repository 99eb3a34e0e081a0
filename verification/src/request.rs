//! The description of one API call, as the resource modules build it, and the
//! form in which the executor hands it to the transport.

use vstd::prelude::*;
use vstd::string::{StrSliceExecFns, StringExecFns, StringSliceAdditionalSpecFns};

verus! {

/// The HTTP method of an API call.
#[derive(Copy, Clone, Debug, PartialEq, Eq, Structural)]
pub enum StripeMethod {
    Get,
    Post,
    Delete,
}

/// The name of the header that carries the idempotency key.
pub open spec fn idempotency_header() -> Seq<char> {
    "Idempotency-Key"@
}

/// One API call: method, path, and what may go with them. A description does
/// not change once it is built.
#[derive(Debug)]
pub struct RequestDescription {
    method: StripeMethod,
    path: String,
    query: Option<String>,
    body: Option<Vec<u8>>,
    idempotency_key: Option<String>,
}

/// The model of a [`RequestDescription`].
pub struct RequestModel {
    pub method: StripeMethod,
    pub path: Seq<char>,
    pub query: Option<Seq<char>>,
    pub body: Option<Seq<u8>>,
    pub idempotency_key: Option<Seq<char>>,
}

impl View for RequestDescription {
    type V = RequestModel;

    closed spec fn view(&self) -> RequestModel {
        RequestModel {
            method: self.method,
            path: self.path@,
            query: self.query.deep_view(),
            body: match self.body {
                Some(body) => Some(body@),
                None => None,
            },
            idempotency_key: self.idempotency_key.deep_view(),
        }
    }
}

/// A request as it goes out, the same on every attempt: the idempotency key
/// has become a header and the body is there in full.
#[derive(Debug)]
pub struct WireRequest {
    pub method: StripeMethod,
    pub path: String,
    pub query: Option<String>,
    pub headers: Vec<(String, String)>,
    pub body: Vec<u8>,
}

/// The model of a [`WireRequest`].
pub struct WireRequestModel {
    pub method: StripeMethod,
    pub path: Seq<char>,
    pub query: Option<Seq<char>>,
    pub headers: Seq<(Seq<char>, Seq<char>)>,
    pub body: Seq<u8>,
}

impl DeepView for WireRequest {
    type V = WireRequestModel;

    open spec fn deep_view(&self) -> WireRequestModel {
        WireRequestModel {
            method: self.method,
            path: self.path@,
            query: self.query.deep_view(),
            headers: self.headers.deep_view(),
            body: self.body@,
        }
    }
}

impl View for WireRequest {
    type V = WireRequestModel;

    open spec fn view(&self) -> WireRequestModel {
        self.deep_view()
    }
}

/// The request that goes out for a description: same method, path and query;
/// the idempotency key, where there is one, as the only header; the body, or
/// no bytes where there is none.
pub open spec fn prepared(request: RequestModel) -> WireRequestModel {
    WireRequestModel {
        method: request.method,
        path: request.path,
        query: request.query,
        headers: match request.idempotency_key {
            Some(key) => seq![(idempotency_header(), key)],
            None => seq![],
        },
        body: match request.body {
            Some(body) => body,
            None => seq![],
        },
    }
}

/// The call with its serialized parameters where a call of its method carries
/// them: as the form body of a `POST`, in the query of any other call.
pub open spec fn with_params(request: RequestModel, encoded: Seq<char>) -> RequestModel {
    if request.method == StripeMethod::Post {
        RequestModel { body: Some(vstd::utf8::encode_utf8(encoded)), ..request }
    } else {
        RequestModel { query: Some(encoded), ..request }
    }
}

/// The address that a request goes to under `base`: the base, the path, and
/// the query behind a `?` where there is one.
pub open spec fn target_of(base: Seq<char>, request: WireRequestModel) -> Seq<char> {
    base + request.path + match request.query {
        Some(query) => "?"@ + query,
        None => Seq::<char>::empty(),
    }
}

/// Computes the address that `request` goes to under `base`: see
/// [`target_of`].
pub fn target(base: &str, request: &WireRequest) -> (url: String)
    ensures
        url@ == target_of(base@, request@),
{
    let mut url = String::from_str(base);
    url.append(request.path.as_str());
    match &request.query {
        Some(query) => {
            url.append("?");
            url.append(query.as_str());
            assert(url@ =~= target_of(base@, request@));
        },
        None => {
            assert(url@ =~= target_of(base@, request@));
        },
    }
    url
}

impl RequestDescription {
    /// A call of `method` on `path`, with no query, body or idempotency key.
    pub fn new(method: StripeMethod, path: String) -> (request: Self)
        ensures
            request@ == (RequestModel {
                method,
                path: path@,
                query: None,
                body: None,
                idempotency_key: None,
            }),
    {
        RequestDescription { method, path, query: None, body: None, idempotency_key: None }
    }

    /// The same call with `query` as its query string.
    pub fn query(self, query: String) -> (request: Self)
        ensures
            request@ == (RequestModel { query: Some(query@), ..self@ }),
    {
        RequestDescription { query: Some(query), ..self }
    }

    /// The same call with `body` as its body.
    pub fn body(self, body: Vec<u8>) -> (request: Self)
        ensures
            request@ == (RequestModel { body: Some(body@), ..self@ }),
    {
        RequestDescription { body: Some(body), ..self }
    }

    /// The same call with its serialized parameters in their place: see
    /// [`with_params`].
    pub fn params(self, encoded: String) -> (request: Self)
        ensures
            request@ == with_params(self@, encoded@),
    {
        match self.method {
            StripeMethod::Post => {
                let body = encoded.as_str().as_bytes_vec();
                RequestDescription { body: Some(body), ..self }
            },
            _ => RequestDescription { query: Some(encoded), ..self },
        }
    }

    /// The same call with `key` as its idempotency key.
    pub fn idempotency_key(self, key: String) -> (request: Self)
        ensures
            request@ == (RequestModel { idempotency_key: Some(key@), ..self@ }),
    {
        RequestDescription { idempotency_key: Some(key), ..self }
    }

    /// The method of the call.
    pub fn method(&self) -> (method: StripeMethod)
        ensures
            method == self@.method,
    {
        self.method
    }

    /// The path of the call.
    pub fn path(&self) -> (path: &str)
        ensures
            path@ == self@.path,
    {
        self.path.as_str()
    }

    /// The query string of the call, if it has one.
    pub fn query_string(&self) -> (query: Option<&str>)
        ensures
            query.deep_view() == self@.query,
    {
        match &self.query {
            Some(query) => Some(query.as_str()),
            None => None,
        }
    }

    /// The body of the call, if it has one.
    pub fn body_bytes(&self) -> (body: Option<&[u8]>)
        ensures
            match body {
                Some(bytes) => self@.body == Some(bytes@),
                None => self@.body is None,
            },
    {
        match &self.body {
            Some(body) => Some(body.as_slice()),
            None => None,
        }
    }

    /// The idempotency key of the call, if it has one.
    pub fn key(&self) -> (key: Option<&str>)
        ensures
            key.deep_view() == self@.idempotency_key,
    {
        match &self.idempotency_key {
            Some(key) => Some(key.as_str()),
            None => None,
        }
    }

    /// The request that goes out for this call: see [`prepared`].
    pub fn into_wire(self) -> (wire: WireRequest)
        ensures
            wire@ == prepared(self@),
    {
        let mut headers: Vec<(String, String)> = Vec::new();
        match self.idempotency_key {
            Some(key) => {
                headers.push((String::from_str("Idempotency-Key"), key));
                assert(headers.deep_view() =~= seq![(idempotency_header(), key@)]);
            },
            None => {
                assert(headers.deep_view() =~= Seq::<(Seq<char>, Seq<char>)>::empty());
            },
        }
        let body = match self.body {
            Some(body) => body,
            None => Vec::new(),
        };
        WireRequest { method: self.method, path: self.path, query: self.query, headers, body }
    }
}

/// A request of a resource: parameters that stand for one API call.
///
/// [`StripeRequest::build`] gives the method and the path of the call and
/// nothing else. The parameters that the request holds are not part of what
/// it builds: the library does not serialize them. A caller that has their
/// serialized form attaches it with [`RequestDescription::params`].
pub trait StripeRequest {
    /// The call that the request stands for: its method and its path.
    spec fn call(&self) -> RequestModel;

    /// Builds the description of the call, without its parameters.
    fn build(&self) -> (request: RequestDescription)
        ensures
            request@ == self.call(),
    ;
}

} // verus!
