//! The request that one query becomes, and the buffer that collects its
//! response.

use vstd::prelude::*;
use vstd::string::*;
use vstd::utf8::encode_utf8;
use crate::dimension::{content_height, dimension, Dimension};
use crate::state::State;
use crate::text::{decimal, digit, push_decimal};

verus! {

/// The longest term, in bytes, that can be encoded for a URL.
pub const MAX_TERM_BYTES: usize = 0x7fff_ffff;

/// The bytes that stand for themselves in a URL: ASCII letters and digits,
/// `-`, `.`, `_` and `~`.
pub open spec fn is_unreserved(b: u8) -> bool {
    (0x30 <= b && b <= 0x39) || (0x41 <= b && b <= 0x5a) || (0x61 <= b && b <= 0x7a) || b == 0x2d
        || b == 0x2e || b == 0x5f || b == 0x7e
}

/// The numeral of one hexadecimal digit, in upper case.
pub open spec fn hex_digit(d: nat) -> char
    recommends
        d < 16,
{
    if d < 10 {
        digit(d)
    } else if d == 10 {
        'A'
    } else if d == 11 {
        'B'
    } else if d == 12 {
        'C'
    } else if d == 13 {
        'D'
    } else if d == 14 {
        'E'
    } else {
        'F'
    }
}

/// One byte as it stands in a URL: itself, or `%` and its two hexadecimal
/// digits.
pub open spec fn escaped_byte(b: u8) -> Seq<char> {
    if is_unreserved(b) {
        seq![b as char]
    } else {
        seq!['%', hex_digit((b / 16) as nat), hex_digit((b % 16) as nat)]
    }
}

/// A run of bytes as it stands in a URL.
pub open spec fn percent_encoded(bytes: Seq<u8>) -> Seq<char>
    decreases bytes.len(),
{
    if bytes.len() == 0 {
        Seq::empty()
    } else {
        percent_encoded(bytes.drop_last()) + escaped_byte(bytes.last())
    }
}

/// The characters that an encoded term is made of: the unreserved ones, and
/// `%` with its digits.
pub open spec fn is_url_safe(c: char) -> bool {
    let code = c as u32;
    (0x30 <= code && code <= 0x39) || (0x41 <= code && code <= 0x5a) || (0x61 <= code && code
        <= 0x7a) || code == 0x2d || code == 0x2e || code == 0x5f || code == 0x7e || code == 0x25
}

/// An encoded term holds nothing that could end the query parameter or
/// start another: no `&`, no `=`, no `#`, no space, nothing outside ASCII.
pub proof fn encoded_term_is_url_safe(bytes: Seq<u8>)
    ensures
        forall|i: int|
            0 <= i < percent_encoded(bytes).len() ==> is_url_safe(
                #[trigger] percent_encoded(bytes)[i],
            ),
    decreases bytes.len(),
{
    if bytes.len() > 0 {
        encoded_term_is_url_safe(bytes.drop_last());
        let front = percent_encoded(bytes.drop_last());
        let last = escaped_byte(bytes.last());
        assert(forall|j: int| 0 <= j < last.len() ==> is_url_safe(#[trigger] last[j]));
        assert forall|i: int| 0 <= i < percent_encoded(bytes).len() implies is_url_safe(
            #[trigger] percent_encoded(bytes)[i],
        ) by {
            if i < front.len() {
                assert(percent_encoded(bytes)[i] == front[i]);
            } else {
                assert(percent_encoded(bytes)[i] == last[i - front.len()]);
            }
        }
    }
}

/// The address of the first page of a search: `per_page` results for the
/// already encoded term, in the registry's own order.
pub open spec fn search_url(per_page: u16, encoded: Seq<char>) -> Seq<char> {
    "https://crates.io/api/v1/crates?page=1&per_page="@ + decimal(per_page as nat) + "&q="@
        + encoded + "&sort="@
}

/// `curl::easy::Easy::url_encode` on a fresh handle: every byte of the term
/// that is not an ASCII letter, a digit, `-`, `.`, `_` or `~` is replaced by
/// `%` and its two upper-case hexadecimal digits. The length is handed to
/// libcurl as a C `int`, so longer terms are kept out.
#[verifier::external_body]
fn url_encode(term: &str) -> (encoded: String)
    requires
        term.spec_bytes().len() <= MAX_TERM_BYTES,
    ensures
        encoded@ == percent_encoded(term.spec_bytes()),
{
    curl::easy::Easy::new().url_encode(term.as_bytes())
}

/// One search, ready to be sent.
#[derive(Debug, PartialEq, Eq)]
pub struct SearchRequest {
    /// The page asked for; always the first.
    pub page: u16,
    /// How many results the page may hold.
    pub per_page: u16,
    /// The term, encoded for a URL.
    pub query: String,
}

impl SearchRequest {
    /// The request for the term of `state`, sized for the content area of a
    /// terminal of size `terminal`. There is none for a term of more than
    /// `MAX_TERM_BYTES` bytes.
    pub fn new(state: &State, terminal: Dimension) -> (request: Option<SearchRequest>)
        ensures
            request is Some <==> encode_utf8(state.term@).len() <= MAX_TERM_BYTES,
            request matches Some(r) ==> r.page == 1 && r.per_page == content_height(
                terminal.height,
            ) && r.query@ == percent_encoded(encode_utf8(state.term@)),
    {
        let term = state.term.as_str();
        if term.as_bytes().len() > MAX_TERM_BYTES {
            return None;
        }
        let query = url_encode(term);
        Some(SearchRequest { page: 1, per_page: dimension(terminal).height, query })
    }

    /// The address to fetch.
    pub fn url(&self) -> (url: String)
        ensures
            url@ == "https://crates.io/api/v1/crates?page="@ + decimal(self.page as nat)
                + "&per_page="@ + decimal(self.per_page as nat) + "&q="@ + self.query@
                + "&sort="@,
            self.page == 1 ==> url@ == search_url(self.per_page, self.query@),
    {
        let mut url = String::new();
        url.push_str("https://crates.io/api/v1/crates?page=");
        push_decimal(&mut url, self.page as u64);
        url.push_str("&per_page=");
        push_decimal(&mut url, self.per_page as u64);
        url.push_str("&q=");
        url.push_str(self.query.as_str());
        url.push_str("&sort=");
        proof {
            let whole = "https://crates.io/api/v1/crates?page="@ + decimal(self.page as nat)
                + "&per_page="@ + decimal(self.per_page as nat) + "&q="@ + self.query@
                + "&sort="@;
            assert(url@ =~= whole);
            if self.page == 1 {
                reveal_strlit("https://crates.io/api/v1/crates?page=");
                reveal_strlit("&per_page=");
                reveal_strlit("https://crates.io/api/v1/crates?page=1&per_page=");
                assert(decimal(1) =~= seq!['1']);
                assert("https://crates.io/api/v1/crates?page="@ + decimal(1) + "&per_page="@
                    =~= "https://crates.io/api/v1/crates?page=1&per_page="@);
                assert(whole =~= search_url(self.per_page, self.query@));
            }
        }
        url
    }
}

/// The page size asked of the registry is the height of the content area:
/// the terminal's height less the prompt line and the status line, and so
/// never the height of a terminal that has any line at all.
pub proof fn per_page_is_content_height(terminal: Dimension)
    ensures
        terminal.height >= 2 ==> content_height(terminal.height) == terminal.height - 2,
        terminal.height < 2 ==> content_height(terminal.height) == 0,
        terminal.height > 0 ==> content_height(terminal.height) != terminal.height,
{
}

/// The body of one response as it arrives. Each request has a buffer of its
/// own.
#[derive(Debug)]
pub struct ResponseBuffer {
    bytes: Vec<u8>,
}

impl View for ResponseBuffer {
    type V = Seq<u8>;

    closed spec fn view(&self) -> Seq<u8> {
        self.bytes@
    }
}

impl ResponseBuffer {
    /// An empty buffer.
    pub fn new() -> (buffer: ResponseBuffer)
        ensures
            buffer@ == Seq::<u8>::empty(),
    {
        ResponseBuffer { bytes: Vec::new() }
    }

    /// Appends one piece of the body and says how many bytes were taken: all
    /// of them.
    pub fn write(&mut self, data: &[u8]) -> (taken: usize)
        ensures
            final(self)@ == old(self)@ + data@,
            taken == data@.len(),
    {
        self.bytes.extend_from_slice(data);
        assert(self.bytes@ =~= old(self).bytes@ + data@);
        data.len()
    }

    /// The body collected so far, for reading.
    pub fn as_slice(&self) -> (bytes: &[u8])
        ensures
            bytes@ == self@,
    {
        self.bytes.as_slice()
    }

    /// The body collected so far, in the order of arrival.
    pub fn into_bytes(self) -> (bytes: Vec<u8>)
        ensures
            bytes@ == self@,
    {
        self.bytes
    }
}

} // verus!
