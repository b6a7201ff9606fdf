//! The HTTP verb of a request.
use vstd::prelude::*;

verus! {

/// Represents an HTTP method.
#[derive(Clone, Debug, PartialEq, Eq)]
pub enum Method {
    /// GET
    Get,
    /// POST
    Post,
    /// PUT
    Put,
    /// DELETE
    Delete,
    /// HEAD
    Head,
    /// TRACE
    Trace,
    /// CONNECT
    Connect,
    /// PATCH
    Patch,
    /// OPTIONS
    Options,
    /// A method outside the standard set, sent exactly as written.
    Custom(String),
}

impl Method {
    /// The token that stands for this method on the wire.
    ///
    /// The standard methods have their upper-case names. A custom method is
    /// its own text, which is neither checked nor normalized.
    pub open spec fn token(self) -> Seq<char> {
        match self {
            Method::Get => "GET"@,
            Method::Post => "POST"@,
            Method::Put => "PUT"@,
            Method::Delete => "DELETE"@,
            Method::Head => "HEAD"@,
            Method::Trace => "TRACE"@,
            Method::Connect => "CONNECT"@,
            Method::Patch => "PATCH"@,
            Method::Options => "OPTIONS"@,
            Method::Custom(text) => text@,
        }
    }

    /// Whether parameters of a request with this method travel in the body
    /// when no other body was chosen. This holds of POST, PUT and PATCH; with
    /// every other method they are added to the query of the target.
    pub open spec fn takes_form_body(self) -> bool {
        self is Post || self is Put || self is Patch
    }

    /// Returns the wire token of this method.
    pub fn as_text(&self) -> (text: &str)
        ensures
            text@ == self.token(),
    {
        match self {
            Method::Connect => "CONNECT",
            Method::Custom(m) => m.as_str(),
            Method::Delete => "DELETE",
            Method::Get => "GET",
            Method::Head => "HEAD",
            Method::Options => "OPTIONS",
            Method::Patch => "PATCH",
            Method::Post => "POST",
            Method::Put => "PUT",
            Method::Trace => "TRACE",
        }
    }

    /// Returns the wire token of this method as an owned string, the text
    /// under which the method is shown.
    pub fn display(&self) -> (text: String)
        ensures
            text@ == self.token(),
    {
        String::from_str(self.as_text())
    }

    /// Tells whether parameters go to the body by default.
    pub fn sends_form_body(&self) -> (b: bool)
        ensures
            b == self.takes_form_body(),
    {
        match self {
            Method::Post => true,
            Method::Put => true,
            Method::Patch => true,
            _ => false,
        }
    }
}

/// The standard methods are written in upper case, letter for letter as
/// their names in HTTP.
pub proof fn lemma_standard_tokens()
    ensures
        Method::Get.token() == seq!['G', 'E', 'T'],
        Method::Post.token() == seq!['P', 'O', 'S', 'T'],
        Method::Put.token() == seq!['P', 'U', 'T'],
        Method::Delete.token() == seq!['D', 'E', 'L', 'E', 'T', 'E'],
        Method::Head.token() == seq!['H', 'E', 'A', 'D'],
        Method::Trace.token() == seq!['T', 'R', 'A', 'C', 'E'],
        Method::Connect.token() == seq!['C', 'O', 'N', 'N', 'E', 'C', 'T'],
        Method::Patch.token() == seq!['P', 'A', 'T', 'C', 'H'],
        Method::Options.token() == seq!['O', 'P', 'T', 'I', 'O', 'N', 'S'],
{
    reveal_strlit("GET");
    reveal_strlit("POST");
    reveal_strlit("PUT");
    reveal_strlit("DELETE");
    reveal_strlit("HEAD");
    reveal_strlit("TRACE");
    reveal_strlit("CONNECT");
    reveal_strlit("PATCH");
    reveal_strlit("OPTIONS");
    assert(Method::Get.token() =~= seq!['G', 'E', 'T']);
    assert(Method::Post.token() =~= seq!['P', 'O', 'S', 'T']);
    assert(Method::Put.token() =~= seq!['P', 'U', 'T']);
    assert(Method::Delete.token() =~= seq!['D', 'E', 'L', 'E', 'T', 'E']);
    assert(Method::Head.token() =~= seq!['H', 'E', 'A', 'D']);
    assert(Method::Trace.token() =~= seq!['T', 'R', 'A', 'C', 'E']);
    assert(Method::Connect.token() =~= seq!['C', 'O', 'N', 'N', 'E', 'C', 'T']);
    assert(Method::Patch.token() =~= seq!['P', 'A', 'T', 'C', 'H']);
    assert(Method::Options.token() =~= seq!['O', 'P', 'T', 'I', 'O', 'N', 'S']);
}

/// A custom method is written exactly as its text, whatever the text is.
pub proof fn lemma_custom_token(text: String)
    ensures
        Method::Custom(text).token() == text@,
{
}

impl Default for Method {
    /// The default method is GET.
    fn default() -> (m: Method)
        ensures
            m == Method::Get,
    {
        Method::Get
    }
}

} // verus!
