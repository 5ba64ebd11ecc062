//! The entry point of the collaborators: the manga id of a title address,
//! the paths they request, and how a paged listing advances.
use vstd::prelude::*;
use crate::chapter::{ChapterDownloadError, ChapterError};
use crate::registry::registered;
use crate::requester::{RateLimitedRequester, RequesterError, DEFAULT_INTERVAL_MS};
use crate::text::{decimal, decimal_of, opt_view};

verus! {

/// Why an operation of the API failed.
#[derive(Debug, Clone, PartialEq, Eq)]
pub enum APIError {
    Requester(RequesterError),
    Decoding(String),
    /// No manga id could be read from the given address.
    NoID,
    Chapter(ChapterError),
    ChapterDownload(ChapterDownloadError),
}

pub open spec fn is_hex(c: char) -> bool {
    ('0' <= c && c <= '9') || ('a' <= c && c <= 'f') || ('A' <= c && c <= 'F')
}

/// `p` occurs in `s` at position `i`.
pub open spec fn occurs_at(s: Seq<char>, i: int, p: Seq<char>) -> bool {
    0 <= i && i + p.len() <= s.len() && s.subrange(i, i + p.len()) == p
}

/// The length of the title-address prefix that starts at `i`, or zero.
pub open spec fn prefix_len_at(s: Seq<char>, i: int) -> int {
    if occurs_at(s, i, "https://mangadex.org/title/"@) {
        "https://mangadex.org/title/"@.len() as int
    } else if occurs_at(s, i, "http://mangadex.org/title/"@) {
        "http://mangadex.org/title/"@.len() as int
    } else {
        0
    }
}

/// A title address starts at `i`: the prefix, then a hexadecimal digit.
pub open spec fn title_at(s: Seq<char>, i: int) -> bool {
    let k = prefix_len_at(s, i);
    k > 0 && i + k < s.len() && is_hex(s[i + k])
}

/// The first position from `i` on where a title address starts.
pub open spec fn first_title_from(s: Seq<char>, i: int) -> Option<int>
    decreases s.len() - i,
{
    if i < 0 || i >= s.len() {
        None
    } else if title_at(s, i) {
        Some(i)
    } else {
        first_title_from(s, i + 1)
    }
}

/// Where the id that continues at `j` ends: an id is a run of hexadecimal
/// digits and single hyphens, each hyphen after a digit.
pub open spec fn id_end(s: Seq<char>, j: int) -> int
    decreases s.len() - j,
{
    if j < 1 || j >= s.len() {
        s.len() as int
    } else if is_hex(s[j]) || (s[j] == '-' && is_hex(s[j - 1])) {
        id_end(s, j + 1)
    } else {
        j
    }
}

/// The manga id of the first title address in `s`.
pub open spec fn manga_id(s: Seq<char>) -> Option<Seq<char>> {
    match first_title_from(s, 0) {
        Some(i) => {
            let start = i + prefix_len_at(s, i);
            Some(s.subrange(start, id_end(s, start + 1)))
        },
        None => None,
    }
}

fn hex_char(c: char) -> (r: bool)
    ensures
        r == is_hex(c),
{
    ('0' <= c && c <= '9') || ('a' <= c && c <= 'f') || ('A' <= c && c <= 'F')
}

fn occurs(s: &str, n: usize, i: usize, p: &str) -> (r: bool)
    requires
        n == s@.len(),
    ensures
        r == occurs_at(s@, i as int, p@),
{
    let m = p.unicode_len();
    if i > n || m > n - i {
        return false;
    }
    let mut k: usize = 0;
    while k < m
        invariant
            m == p@.len(),
            n == s@.len(),
            i + m <= n,
            k <= m,
            forall|t: int| 0 <= t < k ==> s@[i + t] == p@[t],
        decreases m - k,
    {
        if s.get_char(i + k) != p.get_char(k) {
            assert(s@.subrange(i as int, i + m)[k as int] != p@[k as int]);
            return false;
        }
        k = k + 1;
    }
    assert(s@.subrange(i as int, i + m) =~= p@);
    true
}

fn prefix_len(s: &str, n: usize, i: usize) -> (r: usize)
    requires
        n == s@.len(),
    ensures
        r == prefix_len_at(s@, i as int),
{
    let https = "https://mangadex.org/title/";
    let http = "http://mangadex.org/title/";
    if occurs(s, n, i, https) {
        https.unicode_len()
    } else if occurs(s, n, i, http) {
        http.unicode_len()
    } else {
        0
    }
}

/// The manga id of the first title address in `url`: the run of hexadecimal
/// digits and single hyphens that follows "http://mangadex.org/title/" or
/// "https://mangadex.org/title/"; `None` where no such address occurs.
pub fn get_id(url: &str) -> (r: Option<String>)
    ensures
        opt_view(r) == manga_id(url@),
{
    let n = url.unicode_len();
    let mut i: usize = 0;
    while i < n
        invariant
            n == url@.len(),
            i <= n,
            first_title_from(url@, 0) == first_title_from(url@, i as int),
        decreases n - i,
    {
        let k = prefix_len(url, n, i);
        if k > 0 && k < n - i && hex_char(url.get_char(i + k)) {
            assert(title_at(url@, i as int));
            let start = i + k;
            let mut j = start + 1;
            let mut going = true;
            while going
                invariant
                    n == url@.len(),
                    start < j <= n,
                    id_end(url@, start + 1) == if going { id_end(url@, j as int) } else { j as int },
                decreases n - j + (if going { 1int } else { 0int }),
            {
                if j >= n {
                    going = false;
                } else {
                    let c = url.get_char(j);
                    if hex_char(c) || (c == '-' && hex_char(url.get_char(j - 1))) {
                        j = j + 1;
                    } else {
                        going = false;
                    }
                }
            }
            return Some(String::from_str(url.substring_char(start, j)));
        }
        i = i + 1;
    }
    None
}

/// The path of the metadata of manga `id`.
pub fn manga_path(id: &str) -> (r: String)
    ensures
        r@ == "/manga/"@ + id@,
{
    String::from_str("/manga/").concat(id)
}

/// The path of the page of the chapter feed of manga `id` that starts at
/// `offset`.
pub fn feed_path(id: &str, offset: u64) -> (r: String)
    ensures
        r@ == "/manga/"@ + id@ + "/feed?offset="@ + decimal_of(offset as nat),
{
    let d = decimal(offset);
    String::from_str("/manga/").concat(id).concat("/feed?offset=").concat(d.as_str())
}

/// The path that names the server of the pages of chapter `id`.
pub fn server_path(id: &str) -> (r: String)
    ensures
        r@ == "/at-home/server/"@ + id@,
{
    String::from_str("/at-home/server/").concat(id)
}

/// The path of the cover whose relative address is `url`.
pub fn cover_path(url: &str) -> (r: String)
    ensures
        r@ == "/covers/"@ + url@,
{
    String::from_str("/covers/").concat(url)
}

/// Where a paged listing goes on after a page that started at `offset`, held
/// `limit` entries and reported `total` entries in all: the next offset, or
/// `None` when the page was the last.
pub fn next_offset(offset: u64, limit: u64, total: u64) -> (r: Option<u64>)
    ensures
        offset + limit < total ==> r == Some((offset + limit) as u64),
        offset + limit >= total ==> r is None,
{
    if offset < total && limit < total - offset {
        Some(offset + limit)
    } else {
        None
    }
}

/// The entry point of the collaborators: a requester with the well-known
/// sources registered.
pub struct API {
    pub requester: RateLimitedRequester,
}

impl API {
    pub fn new() -> (r: API)
        ensures
            r.requester.wf(),
            r.requester@ == registered(
                registered(
                    registered(
                        Map::empty(),
                        "main"@,
                        "https://api.mangadex.org"@,
                        DEFAULT_INTERVAL_MS,
                    ),
                    "cdn"@,
                    "https://api.mangadex.org"@,
                    DEFAULT_INTERVAL_MS,
                ),
                "content"@,
                "https://uploads.mangadex.org"@,
                DEFAULT_INTERVAL_MS,
            ),
    {
        API { requester: RateLimitedRequester::new_with_defaults() }
    }

    /// The path of the metadata of the manga at title address `url`; `NoID`
    /// where no manga id can be read from it.
    pub fn manga_request_path(url: &str) -> (r: Result<String, APIError>)
        ensures
            match manga_id(url@) {
                Some(id) => r matches Ok(p) && p@ == "/manga/"@ + id,
                None => r == Err::<String, APIError>(APIError::NoID),
            },
    {
        match get_id(url) {
            Some(id) => Ok(manga_path(id.as_str())),
            None => Err(APIError::NoID),
        }
    }
}

} // verus!
