//! The paths and query strings of the server's API that the frontend asks.

use vstd::prelude::*;
use vstd::string::StringExecFns;
use vstd::string::StringSliceAdditionalSpecFns;

verus! {

/// Whether byte `b` stands in a URL as it is: letters, digits, `-._~`.
pub open spec fn is_unreserved(b: u8) -> bool {
    ||| 48 <= b <= 57
    ||| 65 <= b <= 90
    ||| 97 <= b <= 122
    ||| b == 45
    ||| b == 46
    ||| b == 95
    ||| b == 126
}

/// The upper-case hexadecimal digit of `d` (below 16).
pub open spec fn hex_digit(d: int) -> char {
    if d < 10 {
        (48 + d) as char
    } else {
        (55 + d) as char
    }
}

/// Byte `b` in a URL: itself, or `%` and its two hexadecimal digits.
pub open spec fn encode_byte(b: u8) -> Seq<char> {
    if is_unreserved(b) {
        seq![b as char]
    } else {
        seq!['%', hex_digit((b / 16) as int), hex_digit((b % 16) as int)]
    }
}

/// The bytes `bs` percent-encoded, one after the other.
pub open spec fn url_encoded(bs: Seq<u8>) -> Seq<char>
    decreases bs.len(),
{
    if bs.len() == 0 {
        Seq::empty()
    } else {
        url_encoded(bs.drop_last()) + encode_byte(bs.last())
    }
}

/// `urlencoding::encode`: every byte of the UTF-8 text but letters,
/// digits and `-._~` becomes `%` and two upper-case hexadecimal digits.
#[verifier::external_body]
fn url_encode(data: &str) -> (r: String)
    ensures
        r@ == url_encoded(data.spec_bytes()),
{
    urlencoding::encode(data).into_owned()
}

/// The decimal digit of `d` (below 10).
pub open spec fn digit_char(d: nat) -> char {
    (48 + d) as char
}

/// The decimal form of `n`, without leading zeros.
pub open spec fn decimal(n: nat) -> Seq<char>
    decreases n,
{
    if n < 10 {
        seq![digit_char(n)]
    } else {
        decimal(n / 10).push(digit_char(n % 10))
    }
}

fn digit_str(d: u64) -> (s: &'static str)
    requires
        d < 10,
    ensures
        s@ == seq![digit_char(d as nat)],
{
    proof {
        reveal_strlit("0");
        reveal_strlit("1");
        reveal_strlit("2");
        reveal_strlit("3");
        reveal_strlit("4");
        reveal_strlit("5");
        reveal_strlit("6");
        reveal_strlit("7");
        reveal_strlit("8");
        reveal_strlit("9");
    }
    match d {
        0 => "0",
        1 => "1",
        2 => "2",
        3 => "3",
        4 => "4",
        5 => "5",
        6 => "6",
        7 => "7",
        8 => "8",
        _ => "9",
    }
}

/// Appends the decimal form of `n` to `s`.
fn push_decimal(s: &mut String, n: u64)
    ensures
        final(s)@ == old(s)@ + decimal(n as nat),
    decreases n,
{
    if n < 10 {
        s.append(digit_str(n));
    } else {
        push_decimal(s, n / 10);
        s.append(digit_str(n % 10));
        proof {
            assert(decimal(n as nat) == decimal((n / 10) as nat).push(digit_char((n % 10) as nat)));
        }
    }
}

/// Appends the literal `lit` to `s`.
fn push_lit(s: &mut String, lit: &str)
    ensures
        final(s)@ == old(s)@ + lit@,
{
    s.append(lit);
}

/// The query of the people list: `offset=..&` and `limit=..&` where
/// given, then `query=` and the search text percent-encoded.
pub open spec fn people_query(query: Option<Seq<u8>>, offset: Option<usize>, limit: Option<usize>) -> Seq<char> {
    let o = match offset {
        Some(v) => "offset="@ + decimal(v as nat) + "&"@,
        None => Seq::empty(),
    };
    let l = match limit {
        Some(v) => "limit="@ + decimal(v as nat) + "&"@,
        None => Seq::empty(),
    };
    let q = match query {
        Some(t) => "query="@ + url_encoded(t),
        None => Seq::empty(),
    };
    o + l + q
}

/// The path that lists the people, from `offset`, at most `limit` of them,
/// whose names match `query`.
pub fn get_people_path(query: Option<&str>, offset: Option<usize>, limit: Option<usize>) -> (r: String)
    ensures
        r@ == "/api/people?"@ + people_query(
            match query {
                Some(t) => Some(t.spec_bytes()),
                None => None,
            },
            offset,
            limit,
        ),
{
    let mut url = "/api/people?".to_owned();
    let ghost start = url@;
    if let Some(value) = offset {
        push_lit(&mut url, "offset=");
        push_decimal(&mut url, value as u64);
        push_lit(&mut url, "&");
    }
    let ghost after_offset = url@;
    if let Some(value) = limit {
        push_lit(&mut url, "limit=");
        push_decimal(&mut url, value as u64);
        push_lit(&mut url, "&");
    }
    let ghost after_limit = url@;
    if let Some(value) = query {
        push_lit(&mut url, "query=");
        let encoded = url_encode(value);
        push_lit(&mut url, encoded.as_str());
    }
    proof {
        let o = match offset {
            Some(v) => "offset="@ + decimal(v as nat) + "&"@,
            None => Seq::empty(),
        };
        let l = match limit {
            Some(v) => "limit="@ + decimal(v as nat) + "&"@,
            None => Seq::empty(),
        };
        let q = match query {
            Some(t) => "query="@ + url_encoded(t.spec_bytes()),
            None => Seq::<char>::empty(),
        };
        assert(after_offset =~= start + o);
        assert(after_limit =~= start + o + l);
        assert(url@ =~= start + (o + l + q));
    }
    url
}

/// What a download is of.
#[derive(PartialEq, Eq, Structural, Clone, Copy, Debug)]
pub enum DownloadItem {
    Book(u64),
    File(u64),
}

/// The address at which a book or a file is downloaded, on the server at
/// `origin`: `{origin}/api/{book|file}/{id}/download`.
pub fn get_download_path(origin: &str, value: DownloadItem) -> (r: String)
    ensures
        r@ == origin@ + "/api/"@ + (match value {
            DownloadItem::Book(_) => "book"@,
            DownloadItem::File(_) => "file"@,
        }) + "/"@ + decimal(
            match value {
                DownloadItem::Book(id) => id as nat,
                DownloadItem::File(id) => id as nat,
            },
        ) + "/download"@,
{
    let (type_of, id) = match value {
        DownloadItem::Book(v) => ("book", v),
        DownloadItem::File(v) => ("file", v),
    };
    let mut path = origin.to_owned();
    push_lit(&mut path, "/api/");
    push_lit(&mut path, type_of);
    push_lit(&mut path, "/");
    push_decimal(&mut path, id);
    push_lit(&mut path, "/download");
    path
}

/// The path of the pages `start` to `end` of file `file_id`.
pub fn get_book_pages_path(file_id: u64, start: usize, end: usize) -> (r: String)
    ensures
        r@ == "/api/file/"@ + decimal(file_id as nat) + "/pages/"@ + decimal(start as nat) + "-"@
            + decimal(end as nat),
{
    let mut path = "/api/file/".to_owned();
    push_decimal(&mut path, file_id);
    push_lit(&mut path, "/pages/");
    push_decimal(&mut path, start as u64);
    push_lit(&mut path, "-");
    push_decimal(&mut path, end as u64);
    path
}

/// The path of book `book_id` in collection `id`, to add or remove it.
pub fn collection_book_path(id: u64, book_id: u64) -> (r: String)
    ensures
        r@ == "/api/collection/"@ + decimal(id as nat) + "/book/"@ + decimal(book_id as nat),
{
    let mut path = "/api/collection/".to_owned();
    push_decimal(&mut path, id);
    push_lit(&mut path, "/book/");
    push_decimal(&mut path, book_id);
    path
}

/// The path of the progress of file `file_id`, to save or remove it.
pub fn file_progress_path(file_id: u64) -> (r: String)
    ensures
        r@ == "/api/file/"@ + decimal(file_id as nat) + "/progress"@,
{
    let mut path = "/api/file/".to_owned();
    push_decimal(&mut path, file_id);
    push_lit(&mut path, "/progress");
    path
}

/// What a search of the server's metadata looks for.
#[derive(PartialEq, Eq, Structural, Clone, Copy, Debug)]
pub enum SearchType {
    Book,
    Person,
}

/// The name of a search type in a query.
pub open spec fn search_type_name(search_type: SearchType) -> Seq<char> {
    match search_type {
        SearchType::Book => "Book"@,
        SearchType::Person => "Person"@,
    }
}

fn search_type_str(search_type: SearchType) -> (r: &'static str)
    ensures
        r@ == search_type_name(search_type),
{
    match search_type {
        SearchType::Book => "Book",
        SearchType::Person => "Person",
    }
}

/// The path that searches the server's metadata for `search`, of books or
/// of people.
pub fn get_search_path(search: &str, search_type: SearchType) -> (r: String)
    ensures
        r@ == "/api/book/search?query="@ + url_encoded(search.spec_bytes()) + "&search_type="@ + search_type_name(
            search_type,
        ),
{
    let mut path = "/api/book/search?query=".to_owned();
    let encoded = url_encode(search);
    push_lit(&mut path, encoded.as_str());
    push_lit(&mut path, "&search_type=");
    push_lit(&mut path, search_type_str(search_type));
    path
}

} // verus!
