//! Name and value pairs: the headers of a message and the parameters of a
//! request.
use crate::text::{text_in, text_of_bytes};
use vstd::prelude::*;
use vstd::slice::slice_subrange;

verus! {

/// One header of a request or a response.
///
/// Entries under one name are all kept, in the order in which they came.
#[derive(Clone, Debug, PartialEq, Eq)]
pub struct Header {
    pub name: String,
    pub value: String,
}

/// One parameter of a request. It ends up in the query of the target or in a
/// form-encoded body.
#[derive(Clone, Debug, PartialEq, Eq)]
pub struct Param {
    pub key: String,
    pub value: String,
}

impl View for Header {
    type V = (Seq<char>, Seq<char>);

    open spec fn view(&self) -> (Seq<char>, Seq<char>) {
        (self.name@, self.value@)
    }
}

impl View for Param {
    type V = (Seq<char>, Seq<char>);

    open spec fn view(&self) -> (Seq<char>, Seq<char>) {
        (self.key@, self.value@)
    }
}

/// A header as a line of a request: its name, a colon and a space, its
/// value.
pub open spec fn header_line(header: (Seq<char>, Seq<char>)) -> Seq<char> {
    header.0 + ": "@ + header.1
}

/// The headers of a list as pairs of texts, in order.
pub open spec fn header_views(headers: Seq<Header>) -> Seq<(Seq<char>, Seq<char>)> {
    Seq::new(headers.len(), |i: int| headers[i]@)
}

/// The parameters of a list as pairs of texts, in order.
pub open spec fn param_views(params: Seq<Param>) -> Seq<(Seq<char>, Seq<char>)> {
    Seq::new(params.len(), |i: int| params[i]@)
}

/// Whether a byte is blank: a space, a tab, a carriage return or a line
/// feed.
pub open spec fn is_blank(b: u8) -> bool {
    b == 0x20 || b == 0x09 || b == 0x0D || b == 0x0A
}

/// The index of the first colon among the bytes, or their number where
/// there is none.
pub open spec fn first_colon(bytes: Seq<u8>) -> int
    decreases bytes.len(),
{
    if bytes.len() == 0 || bytes[0] == 0x3A {
        0
    } else {
        1 + first_colon(bytes.drop_first())
    }
}

/// The bytes without the blanks they begin with.
pub open spec fn trim_start(bytes: Seq<u8>) -> Seq<u8>
    decreases bytes.len(),
{
    if bytes.len() > 0 && is_blank(bytes[0]) {
        trim_start(bytes.drop_first())
    } else {
        bytes
    }
}

/// The bytes without the blanks they end with.
pub open spec fn trim_end(bytes: Seq<u8>) -> Seq<u8>
    decreases bytes.len(),
{
    if bytes.len() > 0 && is_blank(bytes.last()) {
        trim_end(bytes.drop_last())
    } else {
        bytes
    }
}

/// The header that a line of a header block holds.
///
/// The name is what stands before the first colon, and the value what
/// follows it, without the blanks around it. A line holds no header where it
/// has no colon, where nothing stands before the colon, or where name or
/// value is not valid UTF-8.
pub open spec fn parsed_line(line: Seq<u8>) -> Option<(Seq<char>, Seq<char>)> {
    let colon = first_colon(line);
    if colon == 0 || colon >= line.len() {
        None
    } else {
        match (
            text_of_bytes(line.take(colon)),
            text_of_bytes(trim_end(trim_start(line.skip(colon + 1)))),
        ) {
            (Some(name), Some(value)) => Some((name, value)),
            _ => None,
        }
    }
}

/// The lines of a list as sequences of bytes, in order.
pub open spec fn line_views(lines: Seq<Vec<u8>>) -> Seq<Seq<u8>> {
    Seq::new(lines.len(), |i: int| lines[i]@)
}

/// The headers that the lines of a header block hold, in order. Lines that
/// hold no header are passed over.
pub open spec fn parsed_block(lines: Seq<Seq<u8>>) -> Seq<(Seq<char>, Seq<char>)>
    decreases lines.len(),
{
    if lines.len() == 0 {
        Seq::empty()
    } else {
        match parsed_line(lines.last()) {
            Some(header) => parsed_block(lines.drop_last()).push(header),
            None => parsed_block(lines.drop_last()),
        }
    }
}

/// Tells whether a byte is blank.
fn blank(b: u8) -> (r: bool)
    ensures
        r == is_blank(b),
{
    b == 0x20 || b == 0x09 || b == 0x0D || b == 0x0A
}

/// Finds the first colon among the bytes.
fn find_colon(bytes: &[u8]) -> (at: usize)
    ensures
        at == first_colon(bytes@),
        at <= bytes@.len(),
{
    let mut i: usize = 0;
    assert(bytes@.skip(0) =~= bytes@);
    while i < bytes.len() && bytes[i] != 0x3A
        invariant
            i <= bytes.len(),
            first_colon(bytes@) == i + first_colon(bytes@.skip(i as int)),
        decreases bytes.len() - i,
    {
        assert(bytes@.skip(i as int).drop_first() =~= bytes@.skip(i + 1));
        i = i + 1;
    }
    i
}

/// Finds where the bytes from `from` on stop being blank.
fn skip_blanks(bytes: &[u8], from: usize) -> (at: usize)
    requires
        from <= bytes@.len(),
    ensures
        from <= at <= bytes@.len(),
        trim_start(bytes@.skip(from as int)) == bytes@.skip(at as int),
{
    let mut i: usize = from;
    while i < bytes.len() && blank(bytes[i])
        invariant
            from <= i <= bytes.len(),
            trim_start(bytes@.skip(from as int)) == trim_start(bytes@.skip(i as int)),
        decreases bytes.len() - i,
    {
        assert(bytes@.skip(i as int).drop_first() =~= bytes@.skip(i + 1));
        i = i + 1;
    }
    i
}

/// Finds where the blanks at the end of the bytes from `from` on begin.
fn drop_blanks(bytes: &[u8], from: usize) -> (at: usize)
    requires
        from <= bytes@.len(),
    ensures
        from <= at <= bytes@.len(),
        trim_end(bytes@.skip(from as int)) == bytes@.subrange(from as int, at as int),
{
    let mut i: usize = bytes.len();
    assert(bytes@.subrange(from as int, i as int) =~= bytes@.skip(from as int));
    while i > from && blank(bytes[i - 1])
        invariant
            from <= i <= bytes.len(),
            trim_end(bytes@.skip(from as int)) == trim_end(bytes@.subrange(from as int, i as int)),
        decreases i,
    {
        assert(bytes@.subrange(from as int, i as int).drop_last() =~= bytes@.subrange(
            from as int,
            i - 1,
        ));
        i = i - 1;
    }
    i
}

impl Header {
    /// Reads the header that one line of a header block holds, if it holds
    /// one. A status line and the empty line that ends a block hold none.
    pub fn parse_line(line: &[u8]) -> (h: Option<Header>)
        ensures
            match h {
                Some(header) => parsed_line(line@) == Some(header@),
                None => parsed_line(line@) is None,
            },
    {
        let len = line.len();
        let colon = find_colon(line);
        if colon == 0 || colon >= len {
            return None;
        }
        let start = skip_blanks(line, colon + 1);
        let end = drop_blanks(line, start);
        proof {
            assert(line@.subrange(0, colon as int) =~= line@.take(colon as int));
        }
        match (text_in(slice_subrange(line, 0, colon)), text_in(slice_subrange(line, start, end))) {
            (Some(name), Some(value)) => Some(Header::new(name, value)),
            _ => None,
        }
    }

    /// Reads the headers out of the lines of a header block, in order.
    pub fn parse_block(lines: &Vec<Vec<u8>>) -> (headers: Vec<Header>)
        ensures
            header_views(headers@) == parsed_block(line_views(lines@)),
    {
        let ghost all = line_views(lines@);
        let mut headers: Vec<Header> = Vec::new();
        let mut i: usize = 0;
        assert(header_views(headers@) =~= parsed_block(all.take(0)));
        while i < lines.len()
            invariant
                i <= lines.len(),
                all == line_views(lines@),
                header_views(headers@) == parsed_block(all.take(i as int)),
            decreases lines.len() - i,
        {
            proof {
                assert(all.take(i + 1).drop_last() =~= all.take(i as int));
                assert(all.take(i + 1).last() == lines@[i as int]@);
            }
            let ghost before = header_views(headers@);
            match Header::parse_line(lines[i].as_slice()) {
                Some(header) => {
                    headers.push(header);
                    assert(header_views(headers@) =~= before.push(header@));
                },
                None => {},
            }
            i = i + 1;
        }
        assert(all.take(i as int) =~= all);
        headers
    }

    /// Writes the header as a line of a request, without a line break.
    pub fn to_line(&self) -> (line: String)
        ensures
            line@ == header_line(self@),
    {
        let mut line = self.name.clone();
        line.append(": ");
        line.append(self.value.as_str());
        line
    }

    /// Makes a header from its name and value, both taken as they are.
    pub fn new(name: &str, value: &str) -> (h: Header)
        ensures
            h@ == (name@, value@),
    {
        Header { name: String::from_str(name), value: String::from_str(value) }
    }
}

impl Param {
    /// Makes a parameter from its key and value, both taken as they are.
    pub fn new(key: &str, value: &str) -> (p: Param)
        ensures
            p@ == (key@, value@),
    {
        Param { key: String::from_str(key), value: String::from_str(value) }
    }
}

} // verus!
