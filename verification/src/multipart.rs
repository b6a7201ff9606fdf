//! Multipart bodies: the parts, the content type each part is sent with, and
//! the envelope that holds them.
use crate::target::text_of;
use crate::text::{text_in, text_of_bytes};
use vstd::prelude::*;
use vstd::slice::slice_subrange;
use vstd::utf8::encode_utf8;

verus! {

/// One part of a multipart body.
#[derive(Clone, Debug, PartialEq, Eq)]
pub struct Part {
    /// The name of the form field.
    pub name: String,
    /// The name of the file, where the part is a file.
    pub filename: Option<String>,
    /// The content.
    pub bytes: Vec<u8>,
    /// The content type, where the caller gave one.
    pub content_type: Option<String>,
}

/// A part as plain values.
pub struct PartView {
    pub name: Seq<char>,
    pub filename: Option<Seq<char>>,
    pub bytes: Seq<u8>,
    pub content_type: Option<Seq<char>>,
}

impl View for Part {
    type V = PartView;

    open spec fn view(&self) -> PartView {
        PartView {
            name: self.name@,
            filename: text_of(self.filename),
            bytes: self.bytes@,
            content_type: text_of(self.content_type),
        }
    }
}

/// The parts of a list as plain values, in order.
pub open spec fn part_views(parts: Seq<Part>) -> Seq<PartView> {
    Seq::new(parts.len(), |i: int| parts[i]@)
}

/// The content type that the table of known file types, the one of
/// `mime_guess`, gives first for an extension, where it knows the extension.
pub uninterp spec fn mime_of_extension(extension: Seq<char>) -> Option<Seq<char>>;

/// The index of the last full stop among the bytes, or -1 where there is
/// none.
pub open spec fn last_dot(bytes: Seq<u8>) -> int
    decreases bytes.len(),
{
    if bytes.len() == 0 {
        -1
    } else if bytes.last() == 0x2E {
        bytes.len() - 1
    } else {
        last_dot(bytes.drop_last())
    }
}

/// The extension of a file name: the text after its last full stop. A name
/// without a full stop has none.
pub open spec fn extension_of(filename: Seq<char>) -> Option<Seq<char>> {
    let bytes = encode_utf8(filename);
    if last_dot(bytes) < 0 {
        None
    } else {
        text_of_bytes(bytes.skip(last_dot(bytes) + 1))
    }
}

/// The content type for a file name by its extension, where the name has an
/// extension that the table of known file types holds.
pub open spec fn guessed_type(filename: Seq<char>) -> Option<Seq<char>> {
    match extension_of(filename) {
        Some(extension) => mime_of_extension(extension),
        None => None,
    }
}

impl PartView {
    /// The content type that the part is sent with: the one the caller gave;
    /// else the one that the file name's extension stands for; else the
    /// generic binary type.
    pub open spec fn resolved_type(self) -> Seq<char> {
        match self.content_type {
            Some(given) => given,
            None => match self.filename {
                Some(filename) => match guessed_type(filename) {
                    Some(guessed) => guessed,
                    None => "application/octet-stream"@,
                },
                None => "application/octet-stream"@,
            },
        }
    }

    /// The lines that open the part: the boundary line, the disposition with
    /// the field name and, for a file, the file name, the content type, and
    /// an empty line. Names are written as given.
    pub open spec fn head(self, boundary: Seq<char>) -> Seq<char> {
        "--"@ + boundary + "\r\nContent-Disposition: form-data; name=\""@ + self.name + "\""@ + (
        match self.filename {
            Some(filename) => "; filename=\""@ + filename + "\""@,
            None => Seq::empty(),
        }) + "\r\nContent-Type: "@ + self.resolved_type() + "\r\n\r\n"@
    }

    /// The part inside an envelope: its opening lines, its content, and a
    /// line break.
    pub open spec fn encoded(self, boundary: Seq<char>) -> Seq<u8> {
        encode_utf8(self.head(boundary)) + self.bytes + encode_utf8("\r\n"@)
    }
}

/// The envelope of a list of parts: each part in order, then the closing
/// boundary line.
pub open spec fn envelope(parts: Seq<PartView>, boundary: Seq<char>) -> Seq<u8>
    decreases parts.len(),
{
    if parts.len() == 0 {
        encode_utf8("--"@ + boundary + "--\r\n"@)
    } else {
        parts[0].encoded(boundary) + envelope(parts.drop_first(), boundary)
    }
}

/// The content type of a request that carries an envelope with the given
/// boundary.
pub open spec fn envelope_type(boundary: Seq<char>) -> Seq<char> {
    "multipart/form-data; boundary="@ + boundary
}

/// Finds the last full stop among the bytes.
fn find_last_dot(bytes: &[u8]) -> (found: Option<usize>)
    ensures
        match found {
            Some(i) => last_dot(bytes@) == i && i < bytes@.len(),
            None => last_dot(bytes@) == -1,
        },
{
    let mut found: Option<usize> = None;
    let mut i: usize = 0;
    while i < bytes.len()
        invariant
            i <= bytes.len(),
            match found {
                Some(d) => last_dot(bytes@.take(i as int)) == d && d < i,
                None => last_dot(bytes@.take(i as int)) == -1,
            },
        decreases bytes.len() - i,
    {
        proof {
            assert(bytes@.take(i + 1).drop_last() =~= bytes@.take(i as int));
        }
        if bytes[i] == 0x2E {
            found = Some(i);
        }
        i = i + 1;
    }
    proof {
        assert(bytes@.take(i as int) =~= bytes@);
    }
    found
}

/// Returns the extension of a file name, if it has one.
pub fn extension(filename: &str) -> (ext: Option<&str>)
    ensures
        match ext {
            Some(e) => extension_of(filename@) == Some(e@),
            None => extension_of(filename@) is None,
        },
{
    let bytes = filename.as_bytes();
    let len = bytes.len();
    match find_last_dot(bytes) {
        Some(dot) => {
            assert(bytes@.subrange(dot + 1, len as int) =~= bytes@.skip(dot + 1));
            text_in(slice_subrange(bytes, dot + 1, len))
        },
        None => None,
    }
}

/// Calls `mime_guess::from_ext` and takes the first content type of the
/// guess with `MimeGuess::first_raw`.
///
/// Taken on trust: the answer depends on the extension alone, so that it has
/// a name, [`mime_of_extension`]; nothing more is claimed of it.
#[verifier::external_body]
fn lookup_mime(extension: &str) -> (found: Option<&'static str>)
    ensures
        match found {
            Some(mime) => mime_of_extension(extension@) == Some(mime@),
            None => mime_of_extension(extension@) is None,
        },
{
    mime_guess::from_ext(extension).first_raw()
}

/// Guesses the content type of a file from the extension of its name.
pub fn guess_type(filename: &str) -> (found: Option<&'static str>)
    ensures
        match found {
            Some(mime) => guessed_type(filename@) == Some(mime@),
            None => guessed_type(filename@) is None,
        },
{
    match extension(filename) {
        Some(ext) => lookup_mime(ext),
        None => None,
    }
}

impl Part {
    /// A part that is a plain form field.
    pub fn field(name: &str, value: &[u8]) -> (p: Part)
        ensures
            p@ == (PartView { name: name@, filename: None, bytes: value@, content_type: None }),
    {
        Part {
            name: String::from_str(name),
            filename: None,
            bytes: vstd::slice::slice_to_vec(value),
            content_type: None,
        }
    }

    /// A part that is a file, with a content type where the caller knows it.
    pub fn file(name: &str, filename: &str, bytes: Vec<u8>, content_type: Option<String>) -> (p:
        Part)
        ensures
            p@ == (PartView {
                name: name@,
                filename: Some(filename@),
                bytes: bytes@,
                content_type: text_of(content_type),
            }),
    {
        Part {
            name: String::from_str(name),
            filename: Some(String::from_str(filename)),
            bytes,
            content_type,
        }
    }

    /// The content type that this part is sent with.
    pub fn resolved_type(&self) -> (mime: String)
        ensures
            mime@ == self@.resolved_type(),
    {
        match &self.content_type {
            Some(given) => given.clone(),
            None => match &self.filename {
                Some(filename) => match guess_type(filename.as_str()) {
                    Some(guessed) => String::from_str(guessed),
                    None => String::from_str("application/octet-stream"),
                },
                None => String::from_str("application/octet-stream"),
            },
        }
    }

    /// Writes this part, as it stands inside an envelope, to the end of
    /// `out`.
    pub fn write_to(&self, boundary: &str, out: &mut Vec<u8>)
        ensures
            final(out)@ == old(out)@ + self@.encoded(boundary@),
    {
        let mut head = String::from_str("--");
        head.append(boundary);
        head.append("\r\nContent-Disposition: form-data; name=\"");
        head.append(self.name.as_str());
        head.append("\"");
        match &self.filename {
            Some(filename) => {
                head.append("; filename=\"");
                head.append(filename.as_str());
                head.append("\"");
            },
            None => {},
        }
        head.append("\r\nContent-Type: ");
        let mime = self.resolved_type();
        head.append(mime.as_str());
        head.append("\r\n\r\n");
        assert(head@ =~= self@.head(boundary@));
        out.extend_from_slice(head.as_str().as_bytes());
        out.extend_from_slice(self.bytes.as_slice());
        out.extend_from_slice("\r\n".as_bytes());
        assert(out@ =~= old(out)@ + self@.encoded(boundary@));
    }
}

/// Assembles the envelope of the parts under the given boundary.
pub fn encode_multipart(parts: &Vec<Part>, boundary: &str) -> (out: Vec<u8>)
    ensures
        out@ == envelope(part_views(parts@), boundary@),
{
    let ghost all = part_views(parts@);
    let mut out: Vec<u8> = Vec::new();
    let mut i: usize = 0;
    assert(all.skip(0) =~= all);
    while i < parts.len()
        invariant
            i <= parts.len(),
            all == part_views(parts@),
            out@ + envelope(all.skip(i as int), boundary@) == envelope(all, boundary@),
        decreases parts.len() - i,
    {
        proof {
            assert(all.skip(i as int).drop_first() =~= all.skip(i + 1));
            assert(all.skip(i as int)[0] == parts@[i as int]@);
        }
        let ghost before = out@;
        parts[i].write_to(boundary, &mut out);
        assert(out@ + envelope(all.skip(i + 1), boundary@) =~= before + envelope(
            all.skip(i as int),
            boundary@,
        ));
        i = i + 1;
    }
    let mut tail = String::from_str("--");
    tail.append(boundary);
    tail.append("--\r\n");
    assert(tail@ =~= "--"@ + boundary@ + "--\r\n"@);
    let ghost before = out@;
    out.extend_from_slice(tail.as_str().as_bytes());
    assert(out@ =~= before + envelope(all.skip(i as int), boundary@));
    out
}

/// Returns the content type of a request that carries an envelope with the
/// given boundary.
pub fn multipart_type(boundary: &str) -> (mime: String)
    ensures
        mime@ == envelope_type(boundary@),
{
    let mut mime = String::from_str("multipart/form-data; boundary=");
    mime.append(boundary);
    mime
}

} // verus!
