//! The two text encodings of parameters: percent-encoding for the query of a
//! target, and the form encoding for a request body.
use crate::entry::{param_views, Param};
use vstd::prelude::*;
use vstd::utf8::encode_utf8;

verus! {

/// The upper-case hexadecimal digit for a value from 0 to 15.
pub open spec fn hex_digit(n: int) -> char {
    seq!['0', '1', '2', '3', '4', '5', '6', '7', '8', '9', 'A', 'B', 'C', 'D', 'E', 'F'][n]
}

/// A byte written as a percent sign and two hexadecimal digits.
pub open spec fn escaped(b: u8) -> Seq<char> {
    seq!['%', hex_digit(b as int / 16), hex_digit(b as int % 16)]
}

/// Whether a byte is an ASCII letter or digit.
pub open spec fn is_alphanumeric(b: u8) -> bool {
    (0x30 <= b <= 0x39) || (0x41 <= b <= 0x5A) || (0x61 <= b <= 0x7A)
}

/// Whether the form encoding leaves a byte as it is: letters, digits and
/// `*`, `-`, `.`, `_`.
pub open spec fn is_form_safe(b: u8) -> bool {
    is_alphanumeric(b) || b == 0x2A || b == 0x2D || b == 0x2E || b == 0x5F
}

/// How text is made safe for the place it is written to.
#[derive(Clone, Copy, Debug, PartialEq, Eq)]
pub enum Encoding {
    /// For the query of a target: every byte but ASCII letters and digits is
    /// escaped, so a space becomes `%20`.
    Percent,
    /// For an `application/x-www-form-urlencoded` body: a space becomes `+`,
    /// and every other byte that is not form-safe is escaped.
    Form,
}

impl Encoding {
    /// What one byte becomes.
    pub open spec fn of_byte(self, b: u8) -> Seq<char> {
        match self {
            Encoding::Percent => if is_alphanumeric(b) {
                seq![b as char]
            } else {
                escaped(b)
            },
            Encoding::Form => if is_form_safe(b) {
                seq![b as char]
            } else if b == 0x20 {
                seq!['+']
            } else {
                escaped(b)
            },
        }
    }

    /// What a text becomes: the encodings of the bytes of its UTF-8 form, one
    /// after the other.
    pub open spec fn of_text(self, text: Seq<char>) -> Seq<char> {
        encode_utf8(text).map_values(|b: u8| self.of_byte(b)).flatten()
    }

    /// What one parameter becomes: its encoded key, `=`, its encoded value.
    pub open spec fn of_pair(self, pair: (Seq<char>, Seq<char>)) -> Seq<char> {
        self.of_text(pair.0) + seq!['='] + self.of_text(pair.1)
    }

    /// What a list of parameters becomes: its encoded pairs in order, with
    /// `&` between each two.
    pub open spec fn of_pairs(self, pairs: Seq<(Seq<char>, Seq<char>)>) -> Seq<char>
        decreases pairs.len(),
    {
        if pairs.len() == 0 {
            Seq::empty()
        } else if pairs.len() == 1 {
            self.of_pair(pairs[0])
        } else {
            self.of_pairs(pairs.drop_last()) + seq!['&'] + self.of_pair(pairs.last())
        }
    }

    /// Encodes one text.
    pub fn encode(&self, text: &str) -> (out: String)
        ensures
            out@ == self.of_text(text@),
    {
        match self {
            Encoding::Percent => percent_encode(text),
            Encoding::Form => form_encode(text),
        }
    }

    /// Encodes a list of parameters into one text.
    pub fn encode_pairs(&self, params: &Vec<Param>) -> (out: String)
        ensures
            out@ == self.of_pairs(param_views(params@)),
    {
        let ghost pairs = param_views(params@);
        let mut out = String::new();
        let mut i: usize = 0;
        while i < params.len()
            invariant
                i <= params.len(),
                pairs == param_views(params@),
                out@ == self.of_pairs(pairs.take(i as int)),
            decreases params.len() - i,
        {
            proof {
                reveal_strlit("&");
                reveal_strlit("=");
                assert(pairs.take(i + 1).drop_last() =~= pairs.take(i as int));
                assert(pairs.take(i + 1).last() == params@[i as int]@);
            }
            if i > 0 {
                out.append("&");
            }
            let key = self.encode(params[i].key.as_str());
            let value = self.encode(params[i].value.as_str());
            out.append(key.as_str());
            out.append("=");
            out.append(value.as_str());
            assert(out@ =~= self.of_pairs(pairs.take(i + 1)));
            i = i + 1;
        }
        assert(pairs.take(i as int) =~= pairs);
        out
    }
}

/// Whether `piece` stands somewhere in `whole`, unbroken.
pub open spec fn occurs_in(piece: Seq<char>, whole: Seq<char>) -> bool {
    exists|k: int|
        0 <= k && k + piece.len() <= whole.len() && #[trigger] whole.subrange(
            k,
            k + piece.len(),
        ) == piece
}

/// What stands in a text stands in every text that begins with it.
pub proof fn lemma_occurs_in_front(piece: Seq<char>, front: Seq<char>, back: Seq<char>)
    requires
        occurs_in(piece, front),
    ensures
        occurs_in(piece, front + back),
{
    let k = choose|k: int|
        0 <= k && k + piece.len() <= front.len() && #[trigger] front.subrange(k, k + piece.len())
            == piece;
    assert((front + back).subrange(k, k + piece.len()) =~= front.subrange(k, k + piece.len()));
}

/// What stands in a text stands in every text that ends with it.
pub proof fn lemma_occurs_in_back(piece: Seq<char>, front: Seq<char>, back: Seq<char>)
    requires
        occurs_in(piece, back),
    ensures
        occurs_in(piece, front + back),
{
    let k = choose|k: int|
        0 <= k && k + piece.len() <= back.len() && #[trigger] back.subrange(k, k + piece.len())
            == piece;
    let at = front.len() + k;
    assert((front + back).subrange(at, at + piece.len()) =~= back.subrange(k, k + piece.len()));
}

/// Each parameter of a list stands, encoded, in the encoding of the list.
pub proof fn lemma_pairs_hold_each(
    encoding: Encoding,
    pairs: Seq<(Seq<char>, Seq<char>)>,
    i: int,
)
    requires
        0 <= i < pairs.len(),
    ensures
        occurs_in(encoding.of_pair(pairs[i]), encoding.of_pairs(pairs)),
    decreases pairs.len(),
{
    let piece = encoding.of_pair(pairs[i]);
    let whole = encoding.of_pairs(pairs);
    if pairs.len() == 1 {
        assert(whole.subrange(0int, 0int + piece.len()) =~= piece);
    } else if i == pairs.len() - 1 {
        let front = encoding.of_pairs(pairs.drop_last()) + seq!['&'];
        assert(piece.subrange(0int, 0int + piece.len()) =~= piece);
        lemma_occurs_in_back(piece, front, piece);
    } else {
        let front = encoding.of_pairs(pairs.drop_last());
        lemma_pairs_hold_each(encoding, pairs.drop_last(), i);
        lemma_occurs_in_front(piece, front, seq!['&'] + encoding.of_pair(pairs.last()));
        assert(front + (seq!['&'] + encoding.of_pair(pairs.last())) =~= whole);
    }
}

/// The encoding of a list with a parameter in it is not empty.
pub proof fn lemma_pairs_not_empty(encoding: Encoding, pairs: Seq<(Seq<char>, Seq<char>)>)
    requires
        pairs.len() > 0,
    ensures
        encoding.of_pairs(pairs).len() > 0,
{
}

/// Calls `percent_encoding::utf8_percent_encode` with the set
/// `NON_ALPHANUMERIC` and collects what it yields.
///
/// Taken on trust: every byte of the text's UTF-8 form that is an ASCII
/// letter or digit is kept, and every other byte is written as `%` and two
/// upper-case hexadecimal digits.
#[verifier::external_body]
fn percent_encode(text: &str) -> (out: String)
    ensures
        out@ == Encoding::Percent.of_text(text@),
{
    percent_encoding::utf8_percent_encode(text, percent_encoding::NON_ALPHANUMERIC).to_string()
}

/// Calls `url::form_urlencoded::byte_serialize` on the text's UTF-8 form and
/// collects what it yields.
///
/// Taken on trust: ASCII letters and digits and `*`, `-`, `.`, `_` are kept,
/// a space is written as `+`, and every other byte as `%` and two upper-case
/// hexadecimal digits.
#[verifier::external_body]
fn form_encode(text: &str) -> (out: String)
    ensures
        out@ == Encoding::Form.of_text(text@),
{
    url::form_urlencoded::byte_serialize(text.as_bytes()).collect()
}

} // verus!
