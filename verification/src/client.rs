//! The client-side request builder for the article operations.
//!
//! Each method of [`Articles`] names the HTTP method and builds the exact
//! URL the server-side boundary expects: filter values are percent-encoded
//! with the form-urlencoded reserved set, and every listing carries a
//! `limit=<count>&offset=<count*page>` fragment with the fixed client page
//! size of 10.  Sending the request and decoding the reply stay outside the
//! core.

use vstd::prelude::*;
use vstd::string::StringExecFns;

verus! {

/// The decimal digit character for `d`.
pub open spec fn digit_char(d: int) -> char {
    if d == 0 {
        '0'
    } else if d == 1 {
        '1'
    } else if d == 2 {
        '2'
    } else if d == 3 {
        '3'
    } else if d == 4 {
        '4'
    } else if d == 5 {
        '5'
    } else if d == 6 {
        '6'
    } else if d == 7 {
        '7'
    } else if d == 8 {
        '8'
    } else {
        '9'
    }
}

/// The decimal text of `n`, most significant digit first, no leading
/// zeroes except for zero itself.
pub open spec fn dec_of(n: nat) -> Seq<char>
    decreases n,
{
    if n < 10 {
        seq![digit_char(n as int)]
    } else {
        dec_of(n / 10).push(digit_char((n % 10) as int))
    }
}

/// The query fragment `limit=<count>&offset=<count*page>`.
pub open spec fn limit_query(count: nat, page: nat) -> Seq<char> {
    "limit="@ + dec_of(count) + "&offset="@ + dec_of(count * page)
}

/// One decimal digit, as executable text.
fn digit_str(d: u64) -> (r: &'static str)
    requires
        d < 10,
    ensures
        r@ == seq![digit_char(d as int)],
{
    proof {
        reveal_strlit("0");
        reveal_strlit("1");
        reveal_strlit("2");
        reveal_strlit("3");
        reveal_strlit("4");
        reveal_strlit("5");
        reveal_strlit("6");
        reveal_strlit("7");
        reveal_strlit("8");
        reveal_strlit("9");
    }
    match d {
        0 => "0",
        1 => "1",
        2 => "2",
        3 => "3",
        4 => "4",
        5 => "5",
        6 => "6",
        7 => "7",
        8 => "8",
        _ => "9",
    }
}

/// Append the decimal text of `n`.
fn push_dec(out: &mut String, n: u64)
    ensures
        final(out)@ == old(out)@ + dec_of(n as nat),
    decreases n,
{
    if n >= 10 {
        push_dec(out, n / 10);
        let d = digit_str(n % 10);
        out.append(d);
        proof {
            assert(final(out)@ =~= old(out)@ + dec_of(n as nat));
        }
    } else {
        let d = digit_str(n);
        out.append(d);
        proof {
            assert(final(out)@ =~= old(out)@ + dec_of(n as nat));
        }
    }
}

/// The decimal text of `n` as a fresh string.
pub fn dec_string(n: u64) -> (r: String)
    ensures
        r@ == dec_of(n as nat),
{
    let mut s = String::new();
    push_dec(&mut s, n);
    proof {
        assert(s@ =~= dec_of(n as nat));
    }
    s
}

/// Build the pagination fragment for a page of `count` items: the offset
/// skips the pages before `page`.
pub fn limit(count: u32, page: u32) -> (r: String)
    ensures
        r@ == limit_query(count as nat, page as nat),
{
    let mut s = String::from_str("limit=");
    push_dec(&mut s, count as u64);
    s.append("&offset=");
    proof {
        assert((count as int) * (page as int) <= 0xffff_ffff * 0xffff_ffff) by (nonlinear_arith)
            requires
                count <= 0xffff_ffffu32,
                page <= 0xffff_ffffu32,
        ;
    }
    push_dec(&mut s, (count as u64) * (page as u64));
    proof {
        assert((count as u64) * (page as u64) as nat == (count as nat) * (page as nat))
            by (nonlinear_arith);
        assert(s@ =~= limit_query(count as nat, page as nat));
    }
    s
}

/// The UTF-8 encoding of a text: a function of its characters alone.
pub uninterp spec fn utf8_of(s: Seq<char>) -> Seq<u8>;

/// Relies on str::as_bytes: the bytes of a string are the UTF-8 encoding
/// of its characters, and an empty string has no bytes.
#[verifier::external_body]
fn str_bytes(s: &str) -> (r: Vec<u8>)
    ensures
        r@ == utf8_of(s@),
        s@.len() == 0 ==> r@.len() == 0,
{
    s.as_bytes().to_vec()
}

/// Whether a byte must be percent-encoded in a form-urlencoded query
/// value: controls, DEL, every non-ASCII byte, and the reserved set of the
/// query context.
pub open spec fn is_form_reserved(b: u8) -> bool {
    ||| b < 0x20
    ||| b >= 0x7f
    ||| b == 0x20
    ||| b == 0x22
    ||| b == 0x23
    ||| b == 0x3c
    ||| b == 0x3e
    ||| b == 0x3f
    ||| b == 0x60
    ||| b == 0x7b
    ||| b == 0x7d
    ||| b == 0x2f
    ||| b == 0x3a
    ||| b == 0x3b
    ||| b == 0x3d
    ||| b == 0x40
    ||| b == 0x5b
    ||| b == 0x5c
    ||| b == 0x5d
    ||| b == 0x5e
    ||| b == 0x7c
    ||| b == 0x24
    ||| b == 0x25
    ||| b == 0x26
    ||| b == 0x2b
    ||| b == 0x2c
    ||| b == 0x21
    ||| b == 0x27
    ||| b == 0x28
    ||| b == 0x29
    ||| b == 0x7e
}

/// The uppercase hex digit character for `d`.
pub open spec fn hex_upper(d: int) -> char {
    if d == 0 {
        '0'
    } else if d == 1 {
        '1'
    } else if d == 2 {
        '2'
    } else if d == 3 {
        '3'
    } else if d == 4 {
        '4'
    } else if d == 5 {
        '5'
    } else if d == 6 {
        '6'
    } else if d == 7 {
        '7'
    } else if d == 8 {
        '8'
    } else if d == 9 {
        '9'
    } else if d == 10 {
        'A'
    } else if d == 11 {
        'B'
    } else if d == 12 {
        'C'
    } else if d == 13 {
        'D'
    } else if d == 14 {
        'E'
    } else {
        'F'
    }
}

/// How one byte appears in a form-urlencoded query value: reserved bytes
/// become `%` plus two uppercase hex digits, other bytes stand as
/// themselves.
pub open spec fn enc_byte(b: u8) -> Seq<char> {
    if is_form_reserved(b) {
        seq!['%', hex_upper(b as int / 16), hex_upper(b as int % 16)]
    } else {
        seq![b as char]
    }
}

/// The form-urlencoded percent-encoding of a byte string.
pub open spec fn form_encoded(bs: Seq<u8>) -> Seq<char>
    decreases bs.len(),
{
    if bs.len() == 0 {
        seq![]
    } else {
        form_encoded(bs.drop_last()) + enc_byte(bs.last())
    }
}

/// Relies on percent_encoding::percent_encode_byte: the unconditional
/// percent-encoding of one byte, a `%` followed by the byte's two
/// uppercase hex digits.
#[verifier::external_body]
fn encode_byte(b: u8) -> (r: &'static str)
    ensures
        r@ == seq!['%', hex_upper(b as int / 16), hex_upper(b as int % 16)],
{
    percent_encoding::percent_encode_byte(b)
}

/// Whether a byte must be percent-encoded in a query value.
fn is_reserved_byte(b: u8) -> (r: bool)
    ensures
        r == is_form_reserved(b),
{
    b < 0x20 || b >= 0x7f || b == 0x20 || b == 0x22 || b == 0x23 || b == 0x3c || b == 0x3e
        || b == 0x3f || b == 0x60 || b == 0x7b || b == 0x7d || b == 0x2f || b == 0x3a || b == 0x3b
        || b == 0x3d || b == 0x40 || b == 0x5b || b == 0x5c || b == 0x5d || b == 0x5e || b == 0x7c
        || b == 0x24 || b == 0x25 || b == 0x26 || b == 0x2b || b == 0x2c || b == 0x21 || b == 0x27
        || b == 0x28 || b == 0x29 || b == 0x7e
}

/// One unreserved byte as text: these bytes stand for themselves.
fn plain_byte_str(b: u8) -> (r: &'static str)
    requires
        !is_form_reserved(b),
    ensures
        r@ == seq![b as char],
{
    proof {
        reveal_strlit("A");
        reveal_strlit("B");
        reveal_strlit("C");
        reveal_strlit("D");
        reveal_strlit("E");
        reveal_strlit("F");
        reveal_strlit("G");
        reveal_strlit("H");
        reveal_strlit("I");
        reveal_strlit("J");
        reveal_strlit("K");
        reveal_strlit("L");
        reveal_strlit("M");
        reveal_strlit("N");
        reveal_strlit("O");
        reveal_strlit("P");
        reveal_strlit("Q");
        reveal_strlit("R");
        reveal_strlit("S");
        reveal_strlit("T");
        reveal_strlit("U");
        reveal_strlit("V");
        reveal_strlit("W");
        reveal_strlit("X");
        reveal_strlit("Y");
        reveal_strlit("Z");
        reveal_strlit("a");
        reveal_strlit("b");
        reveal_strlit("c");
        reveal_strlit("d");
        reveal_strlit("e");
        reveal_strlit("f");
        reveal_strlit("g");
        reveal_strlit("h");
        reveal_strlit("i");
        reveal_strlit("j");
        reveal_strlit("k");
        reveal_strlit("l");
        reveal_strlit("m");
        reveal_strlit("n");
        reveal_strlit("o");
        reveal_strlit("p");
        reveal_strlit("q");
        reveal_strlit("r");
        reveal_strlit("s");
        reveal_strlit("t");
        reveal_strlit("u");
        reveal_strlit("v");
        reveal_strlit("w");
        reveal_strlit("x");
        reveal_strlit("y");
        reveal_strlit("z");
        reveal_strlit("0");
        reveal_strlit("1");
        reveal_strlit("2");
        reveal_strlit("3");
        reveal_strlit("4");
        reveal_strlit("5");
        reveal_strlit("6");
        reveal_strlit("7");
        reveal_strlit("8");
        reveal_strlit("9");
        reveal_strlit("*");
        reveal_strlit("-");
        reveal_strlit(".");
        reveal_strlit("_");
    }
    match b {
        0x41 => "A",
        0x42 => "B",
        0x43 => "C",
        0x44 => "D",
        0x45 => "E",
        0x46 => "F",
        0x47 => "G",
        0x48 => "H",
        0x49 => "I",
        0x4a => "J",
        0x4b => "K",
        0x4c => "L",
        0x4d => "M",
        0x4e => "N",
        0x4f => "O",
        0x50 => "P",
        0x51 => "Q",
        0x52 => "R",
        0x53 => "S",
        0x54 => "T",
        0x55 => "U",
        0x56 => "V",
        0x57 => "W",
        0x58 => "X",
        0x59 => "Y",
        0x5a => "Z",
        0x61 => "a",
        0x62 => "b",
        0x63 => "c",
        0x64 => "d",
        0x65 => "e",
        0x66 => "f",
        0x67 => "g",
        0x68 => "h",
        0x69 => "i",
        0x6a => "j",
        0x6b => "k",
        0x6c => "l",
        0x6d => "m",
        0x6e => "n",
        0x6f => "o",
        0x70 => "p",
        0x71 => "q",
        0x72 => "r",
        0x73 => "s",
        0x74 => "t",
        0x75 => "u",
        0x76 => "v",
        0x77 => "w",
        0x78 => "x",
        0x79 => "y",
        0x7a => "z",
        0x30 => "0",
        0x31 => "1",
        0x32 => "2",
        0x33 => "3",
        0x34 => "4",
        0x35 => "5",
        0x36 => "6",
        0x37 => "7",
        0x38 => "8",
        0x39 => "9",
        0x2a => "*",
        0x2d => "-",
        0x2e => ".",
        _ => "_",
    }
}

/// Percent-encode a string for use as a query parameter value: the
/// form-urlencoded encoding of its UTF-8 bytes.
pub fn query_encode(s: &str) -> (r: String)
    ensures
        r@ == form_encoded(utf8_of(s@)),
{
    let bytes = str_bytes(s);
    let ghost bs = bytes@;
    let n = bytes.len();
    let mut out = String::new();
    let mut i: usize = 0;
    proof {
        assert(bs.take(0) =~= Seq::<u8>::empty());
        assert(out@ =~= form_encoded(bs.take(0)));
    }
    while i < n
        invariant
            i <= n,
            n == bytes.len(),
            bs == bytes@,
            out@ == form_encoded(bs.take(i as int)),
        decreases n - i,
    {
        let b = bytes[i];
        proof {
            assert(bs.take(i + 1).drop_last() =~= bs.take(i as int));
            assert(bs.take(i + 1).last() == b);
        }
        if is_reserved_byte(b) {
            let piece = encode_byte(b);
            out.append(piece);
        } else {
            let piece = plain_byte_str(b);
            out.append(piece);
        }
        proof {
            assert(out@ =~= form_encoded(bs.take(i + 1)));
        }
        i += 1;
    }
    proof {
        assert(bs.take(n as int) =~= bs);
    }
    out
}

/// The HTTP method a request uses.
#[derive(Clone, Copy, Debug, PartialEq, Eq, Structural)]
pub enum HttpMethod {
    Get,
    Post,
    Put,
    Delete,
}

/// One request, ready for the transport: a method and an exact URL.  The
/// payload of a create or update travels beside it.
#[derive(Debug)]
pub struct RequestDesc {
    pub method: HttpMethod,
    pub url: String,
}

/// The article operations, as requests against the server's route table.
#[derive(Debug)]
pub struct Articles {}

impl Articles {
    pub fn new() -> (r: Articles)
        ensures
            r == (Articles {  }),
    {
        Articles {  }
    }

    /// Page `page` of all articles.
    pub fn all(&mut self, page: u32) -> (r: RequestDesc)
        ensures
            r.method == HttpMethod::Get,
            r.url@ == "/articles?"@ + limit_query(10, page as nat),
    {
        let mut url = String::from_str("/articles?");
        let frag = limit(10, page);
        url.append(frag.as_str());
        RequestDesc { method: HttpMethod::Get, url }
    }

    /// Page `page` of the articles by one author.
    pub fn by_author(&mut self, author: String, page: u32) -> (r: RequestDesc)
        ensures
            r.method == HttpMethod::Get,
            r.url@ == "/articles?author="@ + form_encoded(utf8_of(author@)) + "&"@ + limit_query(
                10,
                page as nat,
            ),
    {
        let mut url = String::from_str("/articles?author=");
        let enc = query_encode(author.as_str());
        url.append(enc.as_str());
        url.append("&");
        let frag = limit(10, page);
        url.append(frag.as_str());
        proof {
            assert(url@ =~= "/articles?author="@ + form_encoded(utf8_of(author@)) + "&"@ + limit_query(
                10,
                page as nat,
            ));
        }
        RequestDesc { method: HttpMethod::Get, url }
    }

    /// Page `page` of the articles carrying one tag.
    pub fn by_tag(&mut self, tag: String, page: u32) -> (r: RequestDesc)
        ensures
            r.method == HttpMethod::Get,
            r.url@ == "/articles?tag="@ + form_encoded(utf8_of(tag@)) + "&"@ + limit_query(
                10,
                page as nat,
            ),
    {
        let mut url = String::from_str("/articles?tag=");
        let enc = query_encode(tag.as_str());
        url.append(enc.as_str());
        url.append("&");
        let frag = limit(10, page);
        url.append(frag.as_str());
        proof {
            assert(url@ =~= "/articles?tag="@ + form_encoded(utf8_of(tag@)) + "&"@ + limit_query(
                10,
                page as nat,
            ));
        }
        RequestDesc { method: HttpMethod::Get, url }
    }

    /// Delete one article.
    pub fn del(&mut self, slug: String) -> (r: RequestDesc)
        ensures
            r.method == HttpMethod::Delete,
            r.url@ == "/articles/"@ + slug@,
    {
        let mut url = String::from_str("/articles/");
        url.append(slug.as_str());
        RequestDesc { method: HttpMethod::Delete, url }
    }

    /// Favorite one article.
    pub fn favorite(&mut self, slug: String) -> (r: RequestDesc)
        ensures
            r.method == HttpMethod::Post,
            r.url@ == "/articles/"@ + slug@ + "/favorite"@,
    {
        let mut url = String::from_str("/articles/");
        url.append(slug.as_str());
        url.append("/favorite");
        RequestDesc { method: HttpMethod::Post, url }
    }

    /// Unfavorite one article.
    pub fn unfavorite(&mut self, slug: String) -> (r: RequestDesc)
        ensures
            r.method == HttpMethod::Delete,
            r.url@ == "/articles/"@ + slug@ + "/favorite"@,
    {
        let mut url = String::from_str("/articles/");
        url.append(slug.as_str());
        url.append("/favorite");
        RequestDesc { method: HttpMethod::Delete, url }
    }

    /// Page `page` of the articles one viewer favorited.
    pub fn favorited_by(&mut self, author: String, page: u32) -> (r: RequestDesc)
        ensures
            r.method == HttpMethod::Get,
            r.url@ == "/articles?favorited="@ + form_encoded(utf8_of(author@)) + "&"@ + limit_query(
                10,
                page as nat,
            ),
    {
        let mut url = String::from_str("/articles?favorited=");
        let enc = query_encode(author.as_str());
        url.append(enc.as_str());
        url.append("&");
        let frag = limit(10, page);
        url.append(frag.as_str());
        proof {
            assert(url@ =~= "/articles?favorited="@ + form_encoded(utf8_of(author@)) + "&"@ + limit_query(
                10,
                page as nat,
            ));
        }
        RequestDesc { method: HttpMethod::Get, url }
    }

    /// The first page of the viewer's feed.
    pub fn feed(&mut self) -> (r: RequestDesc)
        ensures
            r.method == HttpMethod::Get,
            r.url@ == "/articles/feed?"@ + limit_query(10, 0),
    {
        let mut url = String::from_str("/articles/feed?");
        let frag = limit(10, 0);
        url.append(frag.as_str());
        RequestDesc { method: HttpMethod::Get, url }
    }

    /// Read one article.
    pub fn get(&mut self, slug: String) -> (r: RequestDesc)
        ensures
            r.method == HttpMethod::Get,
            r.url@ == "/articles/"@ + slug@,
    {
        let mut url = String::from_str("/articles/");
        url.append(slug.as_str());
        RequestDesc { method: HttpMethod::Get, url }
    }

    /// Update one article; the payload travels beside the request.
    pub fn update(&mut self, slug: String) -> (r: RequestDesc)
        ensures
            r.method == HttpMethod::Put,
            r.url@ == "/articles/"@ + slug@,
    {
        let mut url = String::from_str("/articles/");
        url.append(slug.as_str());
        RequestDesc { method: HttpMethod::Put, url }
    }

    /// Create an article; the payload travels beside the request.
    pub fn create(&mut self) -> (r: RequestDesc)
        ensures
            r.method == HttpMethod::Post,
            r.url@ == "/articles"@,
    {
        RequestDesc { method: HttpMethod::Post, url: String::from_str("/articles") }
    }
}

impl Default for Articles {
    fn default() -> (r: Articles)
        ensures
            r == (Articles {  }),
    {
        Articles {  }
    }
}

} // verus!
