//! The request builder, and its finalization into what goes on the wire.
use crate::encoding::{lemma_pairs_hold_each, lemma_pairs_not_empty, occurs_in, Encoding};
use crate::entry::{header_views, param_views, Header, Param};
use crate::error::{EncodeError, RequestError};
use crate::method::Method;
use crate::multipart::{
    encode_multipart,
    envelope,
    envelope_type,
    multipart_type,
    part_views,
    Part,
    PartView,
};
use crate::target::{Url, UrlView};
use vstd::prelude::*;
use vstd::utf8::encode_utf8;

verus! {

/// The body that the caller chose for a request. A later choice replaces an
/// earlier one.
#[derive(Debug, PartialEq, Eq)]
pub enum Body {
    /// No choice was made. Parameters may still become a form body.
    Empty,
    /// Bytes, sent as they are under the given content type.
    Raw { bytes: Vec<u8>, content_type: String },
    /// A value for the JSON serializer, held as what the serializer made of
    /// it: the encoded bytes, or its failure.
    Json(Result<Vec<u8>, EncodeError>),
    /// Parts for a multipart envelope, and the boundary that separates them.
    Multipart { parts: Vec<Part>, boundary: String },
}

/// A body choice as plain values.
pub enum BodyView {
    Empty,
    Raw { bytes: Seq<u8>, content_type: Seq<char> },
    Json(Result<Seq<u8>, EncodeError>),
    Multipart { parts: Seq<PartView>, boundary: Seq<char> },
}

impl View for Body {
    type V = BodyView;

    open spec fn view(&self) -> BodyView {
        match self {
            Body::Empty => BodyView::Empty,
            Body::Raw { bytes, content_type } => BodyView::Raw {
                bytes: bytes@,
                content_type: content_type@,
            },
            Body::Json(Ok(bytes)) => BodyView::Json(Ok(bytes@)),
            Body::Json(Err(e)) => BodyView::Json(Err(*e)),
            Body::Multipart { parts, boundary } => BodyView::Multipart {
                parts: part_views(parts@),
                boundary: boundary@,
            },
        }
    }
}

impl BodyView {
    /// The content type and the bytes that this choice is sent as. An empty
    /// choice has none, and neither has a value that could not be encoded.
    pub open spec fn payload(self) -> Option<(Seq<char>, Seq<u8>)> {
        match self {
            BodyView::Empty => None,
            BodyView::Raw { bytes, content_type } => Some((content_type, bytes)),
            BodyView::Json(Ok(bytes)) => Some(("application/json"@, bytes)),
            BodyView::Json(Err(_)) => None,
            BodyView::Multipart { parts, boundary } => Some(
                (envelope_type(boundary), envelope(parts, boundary)),
            ),
        }
    }

    /// The failure of the serializer, where this choice holds one.
    pub open spec fn failure(self) -> Option<EncodeError> {
        match self {
            BodyView::Json(Err(e)) => Some(e),
            _ => None,
        }
    }
}

/// A request under construction, as plain values.
pub struct RequestView {
    pub method: Method,
    pub url: UrlView,
    pub headers: Seq<(Seq<char>, Seq<char>)>,
    pub params: Seq<(Seq<char>, Seq<char>)>,
    pub body: BodyView,
}

/// What goes on the wire, as plain values.
pub struct WireView {
    pub method: Seq<char>,
    pub target: Seq<char>,
    pub headers: Seq<(Seq<char>, Seq<char>)>,
    pub body: Option<Seq<u8>>,
}

impl RequestView {
    /// A request that was just started: no headers, no parameters, no body.
    pub open spec fn fresh(url: UrlView, method: Method) -> RequestView {
        RequestView {
            method,
            url,
            headers: Seq::empty(),
            params: Seq::empty(),
            body: BodyView::Empty,
        }
    }

    /// Whether the parameters become a form body: no body was chosen, the
    /// method is one that takes a form body, and there are parameters.
    pub open spec fn sends_form(self) -> bool {
        self.body is Empty && self.method.takes_form_body() && self.params.len() > 0
    }

    /// The parameters that are added to the query of the target: all of
    /// them, unless they become a form body.
    pub open spec fn query_params(self) -> Seq<(Seq<char>, Seq<char>)> {
        if self.sends_form() {
            Seq::empty()
        } else {
            self.params
        }
    }

    /// The target on the wire: the URL with the percent-encoded query
    /// parameters added to its query.
    pub open spec fn target(self) -> Seq<char> {
        self.url.with_query(Encoding::Percent.of_pairs(self.query_params())).text()
    }

    /// The content type and bytes of the body on the wire, where there is
    /// one: the form-encoded parameters, or else what the body choice is
    /// sent as.
    pub open spec fn payload(self) -> Option<(Seq<char>, Seq<u8>)> {
        if self.sends_form() {
            Some(
                (
                    "application/x-www-form-urlencoded"@,
                    encode_utf8(Encoding::Form.of_pairs(self.params)),
                ),
            )
        } else {
            self.body.payload()
        }
    }

    /// What goes on the wire: the method's token, the target, the headers in
    /// order, followed by a `Content-Type` header where there is a body, and
    /// the body.
    pub open spec fn wire(self) -> WireView {
        WireView {
            method: self.method.token(),
            target: self.target(),
            headers: match self.payload() {
                Some((content_type, _)) => self.headers.push(("Content-Type"@, content_type)),
                None => self.headers,
            },
            body: match self.payload() {
                Some((_, bytes)) => Some(bytes),
                None => None,
            },
        }
    }
}

/// Under a method that takes no form body, such as GET, and with no body
/// chosen, the parameters go to the query of the target, percent-encoded and
/// in order; the request has no body and gets no header of its own.
pub proof fn lemma_params_go_to_query(r: RequestView)
    requires
        r.body is Empty,
        !r.method.takes_form_body(),
    ensures
        r.wire().body is None,
        r.wire().headers == r.headers,
        r.wire().target == r.url.with_query(Encoding::Percent.of_pairs(r.params)).text(),
{
}

/// Under a method that takes no form body, such as GET, and with no body
/// chosen, the query of the target holds each parameter, percent-encoded.
pub proof fn lemma_query_holds_each_param(r: RequestView, i: int)
    requires
        r.body is Empty,
        !r.method.takes_form_body(),
        0 <= i < r.params.len(),
    ensures
        r.wire().target == r.url.with_query(Encoding::Percent.of_pairs(r.params)).text(),
        r.url.with_query(Encoding::Percent.of_pairs(r.params)).query matches Some(query)
            && occurs_in(Encoding::Percent.of_pair(r.params[i]), query),
{
    let extra = Encoding::Percent.of_pairs(r.params);
    let piece = Encoding::Percent.of_pair(r.params[i]);
    lemma_pairs_not_empty(Encoding::Percent, r.params);
    lemma_pairs_hold_each(Encoding::Percent, r.params, i);
    match r.url.query {
        Some(q) => {
            if q.len() > 0 {
                crate::encoding::lemma_occurs_in_back(piece, q + seq!['&'], extra);
            }
        },
        None => {},
    }
}

/// Under POST, PUT or PATCH, with parameters and no body chosen, the body is
/// the form encoding of the parameters, a header gives its content type
/// after the caller's headers, and the target is the URL as it was.
pub proof fn lemma_params_go_to_form(r: RequestView)
    requires
        r.body is Empty,
        r.method.takes_form_body(),
        r.params.len() > 0,
    ensures
        r.wire().body == Some(encode_utf8(Encoding::Form.of_pairs(r.params))),
        r.wire().headers == r.headers.push(
            ("Content-Type"@, "application/x-www-form-urlencoded"@),
        ),
        r.wire().target == r.url.text(),
{
}

/// Without parameters and without a body chosen, nothing is added: no body,
/// no header, and the target is the URL as it was.
pub proof fn lemma_nothing_to_add(r: RequestView)
    requires
        r.body is Empty,
        r.params.len() == 0,
    ensures
        r.wire().body is None,
        r.wire().headers == r.headers,
        r.wire().target == r.url.text(),
{
}

/// A JSON body replaces the form encoding: whatever the parameters and the
/// method, the body is what the serializer made of the value, the header
/// added says `application/json`, and the parameters go to the query.
pub proof fn lemma_json_replaces_form(r: RequestView, bytes: Seq<u8>)
    requires
        r.body == BodyView::Json(Ok(bytes)),
    ensures
        r.body.failure() is None,
        r.wire().body == Some(bytes),
        r.wire().headers == r.headers.push(("Content-Type"@, "application/json"@)),
        r.query_params() == r.params,
{
}

/// A body of raw bytes is sent as given, under the caller's content type.
pub proof fn lemma_raw_body_is_verbatim(r: RequestView, bytes: Seq<u8>, content_type: Seq<char>)
    requires
        r.body == (BodyView::Raw { bytes, content_type }),
    ensures
        r.body.failure() is None,
        r.wire().body == Some(bytes),
        r.wire().headers == r.headers.push(("Content-Type"@, content_type)),
{
}

/// A request ready for the transport engine.
#[derive(Clone, Debug, PartialEq, Eq)]
pub struct WireRequest {
    /// The method token.
    pub method: String,
    /// The URL to ask, query included.
    pub target: String,
    /// The headers, in the order in which they are sent.
    pub headers: Vec<Header>,
    /// The body, where the request has one.
    pub body: Option<Vec<u8>>,
}

impl View for WireRequest {
    type V = WireView;

    open spec fn view(&self) -> WireView {
        WireView {
            method: self.method@,
            target: self.target@,
            headers: header_views(self.headers@),
            body: match self.body {
                Some(bytes) => Some(bytes@),
                None => None,
            },
        }
    }
}

/// A request under construction.
///
/// It is made from a URL and a method, filled by chained calls, and used up
/// by finalizing or sending it.
#[derive(Debug, PartialEq, Eq)]
pub struct Request {
    method: Method,
    url: Url,
    headers: Vec<Header>,
    params: Vec<Param>,
    body: Body,
}

impl View for Request {
    type V = RequestView;

    closed spec fn view(&self) -> RequestView {
        RequestView {
            method: self.method,
            url: self.url@,
            headers: header_views(self.headers@),
            params: param_views(self.params@),
            body: self.body@,
        }
    }
}

impl Request {
    /// Starts a request to the URL with the method: no headers, no
    /// parameters, no body.
    pub fn new(url: &Url, method: Method) -> (r: Request)
        ensures
            r@ == RequestView::fresh(url@, method),
    {
        let r = Request {
            method,
            url: url.clone(),
            headers: Vec::new(),
            params: Vec::new(),
            body: Body::Empty,
        };
        assert(r@.headers =~= Seq::empty());
        assert(r@.params =~= Seq::empty());
        r
    }

    /// The method.
    pub fn method(&self) -> (m: &Method)
        ensures
            *m == self@.method,
    {
        &self.method
    }

    /// The URL that the request was started with.
    pub fn url(&self) -> (u: &Url)
        ensures
            u@ == self@.url,
    {
        &self.url
    }

    /// The headers added so far, in order.
    pub fn headers(&self) -> (h: &Vec<Header>)
        ensures
            header_views(h@) == self@.headers,
    {
        &self.headers
    }

    /// The parameters added so far, in order.
    pub fn params(&self) -> (p: &Vec<Param>)
        ensures
            param_views(p@) == self@.params,
    {
        &self.params
    }

    /// The body chosen last, or the empty choice.
    pub fn body_choice(&self) -> (b: &Body)
        ensures
            b@ == self@.body,
    {
        &self.body
    }

    /// Adds a header after those already there. An entry of the same name
    /// stays.
    pub fn header(self, name: &str, value: &str) -> (r: Request)
        ensures
            r@ == (RequestView { headers: self@.headers.push((name@, value@)), ..self@ }),
    {
        let mut r = self;
        r.headers.push(Header::new(name, value));
        assert(r@.headers =~= self@.headers.push((name@, value@)));
        r
    }

    /// Adds a parameter after those already there.
    pub fn param(self, key: &str, value: &str) -> (r: Request)
        ensures
            r@ == (RequestView { params: self@.params.push((key@, value@)), ..self@ }),
    {
        let mut r = self;
        r.params.push(Param::new(key, value));
        assert(r@.params =~= self@.params.push((key@, value@)));
        r
    }

    /// Chooses a JSON body, given as what the serializer made of the value.
    /// A failure of the serializer is kept and comes out when the request is
    /// finalized.
    pub fn json(self, encoded: Result<Vec<u8>, EncodeError>) -> (r: Request)
        ensures
            r@ == (RequestView { body: Body::Json(encoded)@, ..self@ }),
    {
        let mut r = self;
        r.body = Body::Json(encoded);
        r
    }

    /// Chooses a body of raw bytes under the given content type.
    pub fn body(self, bytes: Vec<u8>, content_type: &str) -> (r: Request)
        ensures
            r@ == (RequestView {
                body: BodyView::Raw { bytes: bytes@, content_type: content_type@ },
                ..self@
            }),
    {
        let mut r = self;
        r.body = Body::Raw { bytes, content_type: String::from_str(content_type) };
        r
    }

    /// Chooses a multipart body of the parts, separated by the boundary.
    pub fn multipart(self, parts: Vec<Part>, boundary: &str) -> (r: Request)
        ensures
            r@ == (RequestView {
                body: BodyView::Multipart { parts: part_views(parts@), boundary: boundary@ },
                ..self@
            }),
    {
        let mut r = self;
        r.body = Body::Multipart { parts, boundary: String::from_str(boundary) };
        r
    }

    /// Resolves the request into what goes on the wire.
    ///
    /// It fails exactly where the body is a value that the serializer could
    /// not encode, and then with the serializer's failure.
    pub fn finalize(self) -> (r: Result<WireRequest, RequestError>)
        ensures
            match r {
                Ok(wire) => self@.body.failure() is None && wire@ == self@.wire(),
                Err(e) => self@.body.failure() matches Some(cause) && e == RequestError::Build(
                    cause,
                ),
            },
    {
        let Request { method, url, headers, params, body } = self;
        let mut headers = headers;
        let form = match &body {
            Body::Empty => method.sends_form_body() && params.len() > 0,
            _ => false,
        };
        let payload: Option<(String, Vec<u8>)> = if form {
            let text = Encoding::Form.encode_pairs(&params);
            Some(
                (String::from_str("application/x-www-form-urlencoded"), text.as_str().as_bytes_vec()),
            )
        } else {
            match body {
                Body::Empty => None,
                Body::Raw { bytes, content_type } => Some((content_type, bytes)),
                Body::Json(Ok(bytes)) => Some((String::from_str("application/json"), bytes)),
                Body::Json(Err(e)) => {
                    return Err(RequestError::Build(e));
                },
                Body::Multipart { parts, boundary } => {
                    let bytes = encode_multipart(&parts, boundary.as_str());
                    Some((multipart_type(boundary.as_str()), bytes))
                },
            }
        };
        let target = if form {
            url.to_text()
        } else {
            let query = Encoding::Percent.encode_pairs(&params);
            url.with_query(query.as_str()).to_text()
        };
        let ghost given = header_views(headers@);
        let sent = match payload {
            Some((content_type, bytes)) => {
                headers.push(Header { name: String::from_str("Content-Type"), value: content_type });
                assert(header_views(headers@) =~= given.push(("Content-Type"@, content_type@)));
                Some(bytes)
            },
            None => None,
        };
        Ok(WireRequest { method: method.display(), target, headers, body: sent })
    }
}

} // verus!
