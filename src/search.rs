//! Video search: the address of a search page, the results that the page
//! embeds, and the songs made of them. Fetching pages and thumbnails is the
//! caller's part.
use vstd::prelude::*;
use base64::Engine;
use serde_json::Value;
use crate::protocol::{member, parse_json};
use crate::song::Song;

verus! {

/// Relies on serde_json::Value::as_array: the elements of an array value.
/// Nothing is claimed of the result beyond what `Vec` gives.
pub assume_specification[ serde_json::Value::as_array ](v: &Value) -> Option<&Vec<Value>>;

/// Bytes that stay as they are in a URL: ASCII letters, digits and `-`,
/// `.`, `_`, `~`.
pub open spec fn unreserved(b: u8) -> bool {
    (48 <= b <= 57) || (65 <= b <= 90) || (97 <= b <= 122) || b == 45 || b == 46 || b == 95 || b == 126
}

pub open spec fn upper_hex(d: nat) -> char {
    if d < 10 {
        crate::text::digit_char(d)
    } else if d == 10 { 'A' } else if d == 11 { 'B' } else if d == 12 { 'C' } else if d == 13 { 'D' }
    else if d == 14 { 'E' } else { 'F' }
}

/// Every byte but the unreserved ones written as `%` and two upper-case hex
/// digits.
pub open spec fn percent_encoded(b: Seq<u8>) -> Seq<char>
    decreases b.len(),
{
    if b.len() == 0 {
        Seq::empty()
    } else {
        let x = b.last();
        percent_encoded(b.drop_last()) + if unreserved(x) {
            seq![x as char]
        } else {
            seq!['%', upper_hex((x / 16) as nat), upper_hex((x % 16) as nat)]
        }
    }
}

/// A text percent-encoded, byte by byte of its UTF-8 form.
pub open spec fn url_encoded(s: Seq<char>) -> Seq<char> {
    percent_encoded(vstd::utf8::encode_utf8(s))
}

/// Relies on urlencoding::encode: the text, percent-encoded byte by byte,
/// upper-case hex digits.
#[verifier::external_body]
fn encode_query(s: &str) -> (r: String)
    ensures
        r@ == url_encoded(s@),
{
    urlencoding::encode(s).into_owned()
}

/// The first capture group of the first match of `pattern` in `text`, as
/// the `regex` crate finds it; `None` where there is no match or the pattern
/// does not compile.
pub uninterp spec fn first_group_of(pattern: Seq<char>, text: Seq<char>) -> Option<Seq<char>>;

/// Relies on regex::Regex::new and Regex::captures: the text of the first
/// capture group of the leftmost match.
#[verifier::external_body]
fn first_group(pattern: &str, text: &str) -> (r: Option<String>)
    ensures
        r matches Some(g) ==> first_group_of(pattern@, text@) == Some(g@),
        r is None ==> first_group_of(pattern@, text@) is None,
{
    let re = match regex::Regex::new(pattern) {
        Ok(re) => re,
        Err(_) => return None,
    };
    let caps = re.captures(text)?;
    let group = caps.get(1)?;
    Some(group.as_str().to_string())
}

/// A digit of the standard base64 alphabet.
pub open spec fn base64_digit(v: nat) -> char {
    if v < 26 {
        ((65 + v) as u8) as char
    } else if v < 52 {
        ((97 + v - 26) as u8) as char
    } else if v < 62 {
        ((48 + v - 52) as u8) as char
    } else if v == 62 {
        '+'
    } else {
        '/'
    }
}

/// The four digits for three bytes.
pub open spec fn base64_quad(x: u8, y: u8, z: u8) -> Seq<char> {
    seq![
        base64_digit((x / 4) as nat),
        base64_digit(((x % 4) * 16 + y / 16) as nat),
        base64_digit(((y % 16) * 4 + z / 64) as nat),
        base64_digit((z % 64) as nat),
    ]
}

/// The standard base64 encoding of bytes, with `=` padding.
pub open spec fn base64_of(b: Seq<u8>) -> Seq<char>
    decreases b.len(),
{
    if b.len() == 0 {
        Seq::empty()
    } else if b.len() == 1 {
        base64_quad(b[0], 0, 0).subrange(0, 2) + "=="@
    } else if b.len() == 2 {
        base64_quad(b[0], b[1], 0).subrange(0, 3) + "="@
    } else {
        base64_quad(b[0], b[1], b[2]) + base64_of(b.subrange(3, b.len() as int))
    }
}

/// Relies on base64's general_purpose::STANDARD engine: the padded standard
/// base64 text of the bytes.
#[verifier::external_body]
fn encode_base64(b: &[u8]) -> (r: String)
    ensures
        r@ == base64_of(b@),
{
    base64::engine::general_purpose::STANDARD.encode(b)
}

/// Where a search for `search` is asked.
pub open spec fn search_address(search: Seq<char>) -> Seq<char> {
    "https://www.youtube.com/results?search_query="@ + url_encoded(search)
}

/// The address of the results page for `search`.
pub fn search_url(search: &str) -> (r: String)
    ensures
        r@ == search_address(search@),
{
    let mut out = "https://www.youtube.com/results?search_query=".to_owned();
    let q = encode_query(search);
    out.append(q.as_str());
    out
}

/// The pattern around the results data that a search page embeds.
pub open spec fn initial_data_pattern() -> Seq<char> {
    "var ytInitialData = (\\{.*?\\});"@
}

/// The results data embedded in a search page, as JSON text.
pub fn initial_data(page: &str) -> (r: Option<String>)
    ensures
        r matches Some(g) ==> first_group_of(initial_data_pattern(), page@) == Some(g@),
        r is None ==> first_group_of(initial_data_pattern(), page@) is None,
{
    first_group("var ytInitialData = (\\{.*?\\});", page)
}

/// The page that shows the video `id`.
pub open spec fn watch_address(id: Seq<char>) -> Seq<char> {
    "https://www.youtube.com/watch?v="@ + id
}

/// The medium-size thumbnail of the video `id`.
pub open spec fn thumbnail_address(id: Seq<char>) -> Seq<char> {
    "https://i.ytimg.com/vi/"@ + id + "/mqdefault.jpg"@
}

pub fn thumbnail_url(id: &str) -> (r: String)
    ensures
        r@ == thumbnail_address(id@),
{
    let mut out = "https://i.ytimg.com/vi/".to_owned();
    out.append(id);
    out.append("/mqdefault.jpg");
    out
}

/// The song for the video `id` titled `title`, its thumbnail inlined as a
/// JPEG data URL.
pub fn song_for(id: &str, title: &str, thumbnail: &[u8]) -> (r: Song)
    ensures
        r.url@ == watch_address(id@),
        r.title@ == title@,
        r.thumbnail_b64@ == "data:image/jpeg;base64,"@ + base64_of(thumbnail@),
{
    let mut url = "https://www.youtube.com/watch?v=".to_owned();
    url.append(id);
    let mut thumbnail_b64 = "data:image/jpeg;base64,".to_owned();
    let b = encode_base64(thumbnail);
    thumbnail_b64.append(b.as_str());
    Song { url, thumbnail_b64, title: title.to_owned() }
}

/// Why a search page gave no results.
#[derive(Clone, Copy, Debug, PartialEq, Eq, Structural)]
pub enum SearchError {
    NoInitialData,
    InvalidJson,
    NoVideoArray,
}

impl SearchError {
    pub fn message(&self) -> (r: &'static str)
        ensures
            r@ == match self {
                SearchError::NoInitialData => "Failed to extract initial data"@,
                SearchError::InvalidJson => "Failed to parse initial data"@,
                SearchError::NoVideoArray => "Failed to extract video array"@,
            },
    {
        match self {
            SearchError::NoInitialData => "Failed to extract initial data",
            SearchError::InvalidJson => "Failed to parse initial data",
            SearchError::NoVideoArray => "Failed to extract video array",
        }
    }
}

fn path<'a>(v: &'a Value, keys: &Vec<&str>) -> Option<&'a Value> {
    let mut cur = v;
    let mut i: usize = 0;
    while i < keys.len()
        decreases keys.len() - i,
    {
        cur = member(cur, keys[i])?;
        i = i + 1;
    }
    Some(cur)
}

fn first_element(v: &Value) -> (r: Option<&Value>) {
    match v.as_array() {
        Some(a) => if a.len() > 0 {
            Some(&a[0])
        } else {
            None
        },
        None => None,
    }
}

fn text_at(v: &Value, key: &str) -> (r: Option<String>) {
    match member(v, key) {
        Some(m) => match m.as_str() {
            Some(s) => Some(s.to_owned()),
            None => None,
        },
        None => None,
    }
}

/// The id and title of a search result, where it is a video.
fn video_of(item: &Value) -> Option<(String, String)> {
    let renderer = member(item, "videoRenderer")?;
    let id = text_at(renderer, "videoId")?;
    let runs = path(renderer, &vec!["title", "runs"])?;
    let run = first_element(runs)?;
    let title = text_at(run, "text")?;
    Some((id, title))
}

/// The videos, as id and title, that a search page lists, in order; other
/// results are skipped. Where the page holds no results data, the error
/// says so.
pub fn videos_in_page(page: &str) -> (r: Result<Vec<(String, String)>, SearchError>)
    ensures
        first_group_of(initial_data_pattern(), page@) is None <==> r == Err::<Vec<(String, String)>, SearchError>(SearchError::NoInitialData),
{
    let data = match initial_data(page) {
        Some(d) => d,
        None => return Err(SearchError::NoInitialData),
    };
    let json = match parse_json(data.as_str().as_bytes()) {
        Some(j) => j,
        None => return Err(SearchError::InvalidJson),
    };
    let outer = path(&json, &vec!["contents", "twoColumnSearchResultsRenderer", "primaryContents", "sectionListRenderer", "contents"]);
    let section = match outer {
        Some(o) => first_element(o),
        None => None,
    };
    let list = match section {
        Some(s) => path(s, &vec!["itemSectionRenderer", "contents"]),
        None => None,
    };
    let items = match list {
        Some(l) => l.as_array(),
        None => None,
    };
    let items = match items {
        Some(a) => a,
        None => return Err(SearchError::NoVideoArray),
    };
    let mut videos: Vec<(String, String)> = Vec::new();
    let mut i: usize = 0;
    while i < items.len()
        decreases items.len() - i,
    {
        if let Some(v) = video_of(&items[i]) {
            videos.push(v);
        }
        i = i + 1;
    }
    Ok(videos)
}

} // verus!
