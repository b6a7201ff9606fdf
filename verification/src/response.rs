//! What came back from the server: a status, the headers as received and the
//! body as bytes. Readings of the body as text are made on demand and leave
//! the bytes alone.
use crate::entry::{header_views, Header};
use crate::text::{text_in, text_of_bytes};
use vstd::prelude::*;
use vstd::utf8::{encode_utf8, encode_utf8_decode_utf8, encode_utf8_valid_utf8, valid_utf8};

verus! {

/// Why a body could not be read in the way that was asked for.
#[derive(Clone, Debug, PartialEq, Eq)]
pub enum DecodeError {
    /// The bytes of the body are not valid UTF-8.
    InvalidText,
    /// The body is text, but not of the shape that was asked for. The
    /// message is the decoder's.
    InvalidValue(String),
}

/// A response as plain values.
pub struct ResponseView {
    pub status: u32,
    pub headers: Seq<(Seq<char>, Seq<char>)>,
    pub body: Seq<u8>,
}

/// The value of the first header of the list under the given name, compared
/// as written.
pub open spec fn first_value(headers: Seq<(Seq<char>, Seq<char>)>, name: Seq<char>) -> Option<
    Seq<char>,
>
    decreases headers.len(),
{
    if headers.len() == 0 {
        None
    } else if headers[0].0 == name {
        Some(headers[0].1)
    } else {
        first_value(headers.drop_first(), name)
    }
}

impl ResponseView {
    /// Whether the status is one of success: from 200 up to, not including,
    /// 300.
    pub open spec fn is_success(self) -> bool {
        200 <= self.status < 300
    }

    /// The value of the first header under the given name.
    pub open spec fn header(self, name: Seq<char>) -> Option<Seq<char>> {
        first_value(self.headers, name)
    }

    /// The body as text, where it is text.
    pub open spec fn text(self) -> Option<Seq<char>> {
        text_of_bytes(self.body)
    }
}

/// A fully buffered response.
#[derive(Clone, Debug, PartialEq, Eq)]
pub struct Response {
    status: u32,
    headers: Vec<Header>,
    body: Vec<u8>,
}

impl View for Response {
    type V = ResponseView;

    closed spec fn view(&self) -> ResponseView {
        ResponseView {
            status: self.status,
            headers: header_views(self.headers@),
            body: self.body@,
        }
    }
}

impl Response {
    /// Puts what the transport delivered into a response. Every status and
    /// every sequence of bytes is accepted: whether the body can be read as
    /// text is found out when it is read.
    pub fn decode(status: u32, headers: Vec<Header>, body: Vec<u8>) -> (r: Response)
        ensures
            r@.status == status,
            r@.headers == header_views(headers@),
            r@.body == body@,
    {
        Response { status, headers, body }
    }

    /// The status code.
    pub fn status_code(&self) -> (code: u32)
        ensures
            code == self@.status,
    {
        self.status
    }

    /// Tells whether the status code says that the request succeeded.
    pub fn is_success(&self) -> (b: bool)
        ensures
            b == self@.is_success(),
            b <==> 200 <= self@.status < 300,
    {
        self.status >= 200 && self.status < 300
    }

    /// The headers, in the order in which they were received.
    pub fn headers(&self) -> (h: &Vec<Header>)
        ensures
            header_views(h@) == self@.headers,
    {
        &self.headers
    }

    /// The value of the first header with the given name, if there is one.
    pub fn header(&self, name: &str) -> (value: Option<&str>)
        ensures
            match value {
                Some(v) => self@.header(name@) == Some(v@),
                None => self@.header(name@) is None,
            },
    {
        let wanted = String::from_str(name);
        let ghost all = header_views(self.headers@);
        let mut i: usize = 0;
        assert(all.skip(0) =~= all);
        while i < self.headers.len()
            invariant
                i <= self.headers.len(),
                wanted@ == name@,
                all == header_views(self.headers@),
                first_value(all, name@) == first_value(all.skip(i as int), name@),
            decreases self.headers.len() - i,
        {
            proof {
                assert(all.skip(i as int).drop_first() =~= all.skip(i + 1));
                assert(all.skip(i as int)[0] == self.headers@[i as int]@);
            }
            if self.headers[i].name == wanted {
                return Some(self.headers[i].value.as_str());
            }
            i = i + 1;
        }
        None
    }

    /// The body as it was received.
    pub fn body_bytes(&self) -> (bytes: &[u8])
        ensures
            bytes@ == self@.body,
    {
        self.body.as_slice()
    }

    /// The body read as UTF-8 text. It fails exactly where the bytes are not
    /// valid UTF-8, and otherwise returns the text that they encode.
    pub fn body_text(&self) -> (r: Result<&str, DecodeError>)
        ensures
            match r {
                Ok(t) => self@.text() == Some(t@),
                Err(e) => self@.text() is None && e == DecodeError::InvalidText,
            },
    {
        match text_in(self.body.as_slice()) {
            Some(t) => Ok(t),
            None => Err(DecodeError::InvalidText),
        }
    }

    /// The body read as a value: the text of the body, handed to `decode`.
    ///
    /// It fails with `InvalidText` exactly where the body is not text, and
    /// `decode` is then not called. Otherwise the answer is the decoder's:
    /// its value, or `InvalidValue` with its message.
    pub fn body_as<T, F: FnOnce(&str) -> Result<T, String>>(&self, decode: F) -> (r: Result<
        T,
        DecodeError,
    >)
        requires
            forall|text: &str| self@.text() == Some(text@) ==> call_requires(decode, (text,)),
        ensures
            match r {
                Ok(value) => exists|text: &str|
                    self@.text() == Some(text@) && call_ensures(decode, (text,), Ok(value)),
                Err(DecodeError::InvalidText) => self@.text() is None,
                Err(DecodeError::InvalidValue(message)) => exists|text: &str|
                    self@.text() == Some(text@) && call_ensures(decode, (text,), Err(message)),
            },
    {
        match self.body_text() {
            Ok(text) => match decode(text) {
                Ok(value) => Ok(value),
                Err(message) => Err(DecodeError::InvalidValue(message)),
            },
            Err(e) => Err(e),
        }
    }
}

/// A body made of the UTF-8 form of a text reads back as that text.
pub proof fn lemma_body_text_round_trip(r: Response, text: Seq<char>)
    requires
        r@.body == encode_utf8(text),
    ensures
        r@.text() == Some(text),
{
    encode_utf8_valid_utf8(text);
    encode_utf8_decode_utf8(text);
}

/// A body reads as text if and only if its bytes are valid UTF-8.
pub proof fn lemma_body_text_iff_valid(r: Response)
    ensures
        r@.text() is Some <==> valid_utf8(r@.body),
{
}

} // verus!
