//! The target of a request: a parsed URL, held as the parts that the request
//! logic reads and writes.
use vstd::prelude::*;

verus! {

/// The error of the URL parser, carried through as it came.
#[verifier::external_type_specification]
#[verifier::external_body]
pub struct ExParseError(url::ParseError);

/// A URL as three texts.
pub struct UrlView {
    /// Everything up to the end of the path: scheme, authority and path.
    pub base: Seq<char>,
    /// The query without its leading `?`, where the URL has one.
    pub query: Option<Seq<char>>,
    /// The fragment without its leading `#`, where the URL has one.
    pub fragment: Option<Seq<char>>,
}

impl UrlView {
    /// The URL written out: the base, then `?` and the query, then `#` and
    /// the fragment, each where present.
    pub open spec fn text(self) -> Seq<char> {
        self.base + (match self.query {
            Some(q) => seq!['?'] + q,
            None => Seq::empty(),
        }) + (match self.fragment {
            Some(f) => seq!['#'] + f,
            None => Seq::empty(),
        })
    }

    /// The URL with more text added to its query. Nothing changes where the
    /// addition is empty. It follows a non-empty query after an `&`, and is
    /// the whole query otherwise.
    pub open spec fn with_query(self, extra: Seq<char>) -> UrlView {
        if extra.len() == 0 {
            self
        } else {
            UrlView {
                base: self.base,
                query: Some(
                    match self.query {
                        Some(q) => if q.len() == 0 {
                            extra
                        } else {
                            q + seq!['&'] + extra
                        },
                        None => extra,
                    },
                ),
                fragment: self.fragment,
            }
        }
    }
}

/// What the URL parser, `url::Url::parse`, makes of a text: nothing where
/// it rejects the text, and otherwise the parts of the URL in the parser's
/// own normal form.
pub uninterp spec fn parsed_url(text: Seq<char>) -> Option<UrlView>;

/// The text of an optional string.
pub open spec fn text_of(s: Option<String>) -> Option<Seq<char>> {
    match s {
        Some(t) => Some(t@),
        None => None,
    }
}

/// A parsed URL.
#[derive(Debug, PartialEq, Eq)]
pub struct Url {
    base: String,
    query: Option<String>,
    fragment: Option<String>,
}

/// A text that is no URL, with the parser's reason.
#[derive(Debug)]
pub struct UrlError {
    pub cause: url::ParseError,
}

impl View for Url {
    type V = UrlView;

    closed spec fn view(&self) -> UrlView {
        UrlView { base: self.base@, query: text_of(self.query), fragment: text_of(self.fragment) }
    }
}

impl Url {
    /// Parses an absolute URL. It succeeds exactly on the texts that the
    /// parser accepts, and then holds the parts the parser found.
    pub fn parse(text: &str) -> (r: Result<Url, UrlError>)
        ensures
            match r {
                Ok(u) => parsed_url(text@) == Some(u@),
                Err(_) => parsed_url(text@) is None,
            },
    {
        match parse_url(text) {
            Ok(u) => Ok(u),
            Err(e) => Err(UrlError { cause: e }),
        }
    }

    /// Everything up to the end of the path.
    pub fn base(&self) -> (text: &str)
        ensures
            text@ == self@.base,
    {
        self.base.as_str()
    }

    /// The query without its leading `?`, where the URL has one.
    pub fn query(&self) -> (text: Option<&str>)
        ensures
            match text {
                Some(q) => self@.query == Some(q@),
                None => self@.query is None,
            },
    {
        match &self.query {
            Some(q) => Some(q.as_str()),
            None => None,
        }
    }

    /// The fragment without its leading `#`, where the URL has one.
    pub fn fragment(&self) -> (text: Option<&str>)
        ensures
            match text {
                Some(f) => self@.fragment == Some(f@),
                None => self@.fragment is None,
            },
    {
        match &self.fragment {
            Some(f) => Some(f.as_str()),
            None => None,
        }
    }

    /// Writes the URL out.
    pub fn to_text(&self) -> (out: String)
        ensures
            out@ == self@.text(),
    {
        proof {
            reveal_strlit("?");
            reveal_strlit("#");
        }
        let mut out = self.base.clone();
        match &self.query {
            Some(q) => {
                out.append("?");
                out.append(q.as_str());
            },
            None => {},
        }
        match &self.fragment {
            Some(f) => {
                out.append("#");
                out.append(f.as_str());
            },
            None => {},
        }
        assert(out@ =~= self@.text());
        out
    }

    /// Returns this URL with `extra` added to its query.
    pub fn with_query(&self, extra: &str) -> (u: Url)
        ensures
            u@ == self@.with_query(extra@),
    {
        if extra.is_empty() {
            return self.clone();
        }
        proof {
            reveal_strlit("&");
        }
        let query = match &self.query {
            Some(q) => {
                if q.as_str().is_empty() {
                    String::from_str(extra)
                } else {
                    let mut joined = q.clone();
                    joined.append("&");
                    joined.append(extra);
                    joined
                }
            },
            None => String::from_str(extra),
        };
        let u = Url { base: self.base.clone(), query: Some(query), fragment: self.copy_fragment() };
        assert(u@.query == self@.with_query(extra@).query);
        u
    }

    fn copy_fragment(&self) -> (f: Option<String>)
        ensures
            text_of(f) == self@.fragment,
    {
        match &self.fragment {
            Some(f) => Some(f.clone()),
            None => None,
        }
    }

}

impl Clone for Url {
    /// The copy has the same parts.
    fn clone(&self) -> (u: Url)
        ensures
            u@ == self@,
    {
        let query = match &self.query {
            Some(q) => Some(q.clone()),
            None => None,
        };
        Url { base: self.base.clone(), query, fragment: self.copy_fragment() }
    }
}

/// Calls `url::Url::parse` and, where it succeeds, copies three parts out of
/// the result: the serialization up to `Position::AfterPath`, `Url::query`
/// and `Url::fragment`.
///
/// Taken on trust: the parser's answer depends on the text alone, so that it
/// has a name, [`parsed_url`]; nothing more is claimed of it.
#[verifier::external_body]
fn parse_url(text: &str) -> (r: Result<Url, url::ParseError>)
    ensures
        match r {
            Ok(u) => parsed_url(text@) == Some(u@),
            Err(_) => parsed_url(text@) is None,
        },
{
    match url::Url::parse(text) {
        Ok(u) => Ok(
            Url {
                base: String::from(&u[..url::Position::AfterPath]),
                query: u.query().map(String::from),
                fragment: u.fragment().map(String::from),
            },
        ),
        Err(e) => Err(e),
    }
}

} // verus!
