use vstd::prelude::*;
use vstd::string::*;
use crate::errors::AppError;
use crate::strutil::{ends_with_spec, str_ends_with};

verus! {

/// The components of a parsed absolute URL: everything before the path
/// (scheme and authority), the path, and the raw query string (without the
/// leading `?`), if one is present.
#[derive(Debug)]
pub struct UrlParts {
    pub prefix: String,
    pub path: String,
    pub query: Option<String>,
}

/// Mathematical model of [`UrlParts`].
#[verifier::ext_equal]
pub struct UrlPartsView {
    pub prefix: Seq<char>,
    pub path: Seq<char>,
    pub query: Option<Seq<char>>,
}

/// The view of an optional string.
pub open spec fn opt_string_view(o: Option<String>) -> Option<Seq<char>> {
    match o {
        Option::None => Option::None,
        Option::Some(s) => Option::Some(s@),
    }
}

impl View for UrlParts {
    type V = UrlPartsView;

    open spec fn view(&self) -> UrlPartsView {
        UrlPartsView {
            prefix: self.prefix@,
            path: self.path@,
            query: opt_string_view(self.query),
        }
    }
}

/// A normalized listing request URL: the URL the listing API is queried at,
/// before any continuation token is appended.
#[derive(Debug)]
pub struct ListingRequestUrl {
    pub prefix: String,
    pub path: String,
    pub query: Option<String>,
}

/// Mathematical model of [`ListingRequestUrl`].
#[verifier::ext_equal]
pub struct ListingRequestUrlView {
    pub prefix: Seq<char>,
    pub path: Seq<char>,
    pub query: Option<Seq<char>>,
}

impl View for ListingRequestUrl {
    type V = ListingRequestUrlView;

    open spec fn view(&self) -> ListingRequestUrlView {
        ListingRequestUrlView {
            prefix: self.prefix@,
            path: self.path@,
            query: opt_string_view(self.query),
        }
    }
}

/// What the URL parser yields for a given input: the part before the path,
/// the path, and the query, or nothing when the input is not a valid
/// absolute URL.
pub uninterp spec fn parsed_url(s: Seq<char>) -> Option<(Seq<char>, Seq<char>, Option<Seq<char>>)>;

/// The parsed components as a [`UrlPartsView`].
pub open spec fn parts_of(t: (Seq<char>, Seq<char>, Option<Seq<char>>)) -> UrlPartsView {
    UrlPartsView { prefix: t.0, path: t.1, query: t.2 }
}

/// Relies on `url::Url::parse` and the accessors `Url::path`, `Url::query`
/// and slicing up to `url::Position::BeforePath`: splits an absolute URL
/// into the serialization before the path, the path, and the raw query.
#[verifier::external_body]
fn parse_url_components(s: &str) -> (r: Option<UrlParts>)
    ensures
        (r is Some) == (parsed_url(s@) is Some),
        r matches Some(p) ==> parsed_url(s@) matches Some(t) && p@ == parts_of(t),
{
    match url::Url::parse(s) {
        Ok(u) => Some(UrlParts {
            prefix: u[..url::Position::BeforePath].to_string(),
            path: u.path().to_string(),
            query: u.query().map(|q| q.to_string()),
        }),
        Err(_) => None,
    }
}

/// What form-urlencoding yields for a given input string.
pub uninterp spec fn form_encoded(s: Seq<char>) -> Seq<char>;

/// Whether a character passes form-urlencoding unchanged: ASCII
/// alphanumerics and `*`, `-`, `.`, `_`.
pub open spec fn form_unchanged_char(c: char) -> bool {
    c == '*' || c == '-' || c == '.' || c == '_'
        || ('0' as int) <= (c as int) <= ('9' as int)
        || ('A' as int) <= (c as int) <= ('Z' as int)
        || ('a' as int) <= (c as int) <= ('z' as int)
}

/// The hexadecimal digit `d` (0 to 15), uppercase.
pub open spec fn hex_digit(d: int) -> char {
    if d < 10 {
        crate::strutil::dec_digit(d)
    } else if d == 10 {
        'A'
    } else if d == 11 {
        'B'
    } else if d == 12 {
        'C'
    } else if d == 13 {
        'D'
    } else if d == 14 {
        'E'
    } else {
        'F'
    }
}

/// How one ASCII character is form-urlencoded: kept, `' '` turned into
/// `'+'`, anything else percent-encoded with uppercase hex digits.
pub open spec fn form_encode_char(c: char) -> Seq<char> {
    if form_unchanged_char(c) {
        seq![c]
    } else if c == ' ' {
        seq!['+']
    } else {
        seq!['%', hex_digit((c as int) / 16), hex_digit((c as int) % 16)]
    }
}

/// Form-urlencoding of a sequence of ASCII characters.
pub open spec fn form_encoded_ascii(s: Seq<char>) -> Seq<char>
    decreases s.len(),
{
    if s.len() == 0 {
        Seq::empty()
    } else {
        form_encode_char(s[0]) + form_encoded_ascii(s.drop_first())
    }
}

/// Whether every character of `s` is ASCII.
pub open spec fn all_ascii(s: Seq<char>) -> bool {
    forall|i: int| 0 <= i < s.len() ==> (#[trigger] s[i] as int) < 128
}

/// Relies on `form_urlencoded::byte_serialize`: form-urlencodes the UTF-8
/// bytes of a string. For an ASCII input each character is kept if it is
/// alphanumeric or `*`, `-`, `.`, `_`, a space becomes `+`, and every other
/// character becomes `%` followed by two uppercase hex digits, as the
/// crate's source shows.
#[verifier::external_body]
fn form_encode(s: &str) -> (r: String)
    ensures
        r@ == form_encoded(s@),
        all_ascii(s@) ==> r@ == form_encoded_ascii(s@),
{
    form_urlencoded::byte_serialize(s.as_bytes()).collect()
}

/// Whether a path already names the listing API endpoint.
pub open spec fn is_api_path(path: Seq<char>) -> bool {
    ends_with_spec(path, "/api"@) || ends_with_spec(path, "/api/"@)
}

/// The directory path a non-API URL's path stands for: the path itself,
/// with a trailing slash ensured.
pub open spec fn dir_path_spec(path: Seq<char>) -> Seq<char> {
    if ends_with_spec(path, "/"@) {
        path
    } else {
        path + "/"@
    }
}

/// A query string with one more `name=value` pair appended: the pair alone
/// when the query was absent or empty, else joined with `&`.
pub open spec fn join_query(q: Option<Seq<char>>, pair: Seq<char>) -> Seq<char> {
    match q {
        Option::None => pair,
        Option::Some(qs) => if qs.len() == 0 {
            pair
        } else {
            qs + "&"@ + pair
        },
    }
}

/// Normalization of a base URL into the listing request URL: a URL whose
/// path already ends in `/api` or `/api/` is kept as it is; any other path
/// is treated as a directory to list — the path is extended with `api/`
/// (after a trailing slash is ensured) and a `path` query pair carrying the
/// form-encoded directory is appended to the query.
pub open spec fn normalize_spec(u: UrlPartsView) -> ListingRequestUrlView {
    if is_api_path(u.path) {
        ListingRequestUrlView { prefix: u.prefix, path: u.path, query: u.query }
    } else {
        ListingRequestUrlView {
            prefix: u.prefix,
            path: dir_path_spec(u.path) + "api/"@,
            query: Option::Some(
                join_query(u.query, "path="@ + form_encoded(dir_path_spec(u.path))),
            ),
        }
    }
}

fn clone_opt_string(o: &Option<String>) -> (r: Option<String>)
    ensures
        opt_string_view(r) == opt_string_view(*o),
{
    match o {
        Option::None => Option::None,
        Option::Some(s) => Option::Some(s.clone()),
    }
}

fn join_query_exec(q: &Option<String>, pair: String) -> (r: String)
    ensures
        r@ == join_query(opt_string_view(*q), pair@),
{
    match q {
        Option::None => pair,
        Option::Some(qs) => {
            if qs.as_str().unicode_len() == 0 {
                pair
            } else {
                qs.clone().concat("&").concat(pair.as_str())
            }
        },
    }
}

/// Rewrites a parsed base URL into the normalized listing request URL.
pub fn normalize_listing_url(u: &UrlParts) -> (r: ListingRequestUrl)
    ensures
        r@ == normalize_spec(u@),
{
    if str_ends_with(u.path.as_str(), "/api") || str_ends_with(u.path.as_str(), "/api/") {
        ListingRequestUrl {
            prefix: u.prefix.clone(),
            path: u.path.clone(),
            query: clone_opt_string(&u.query),
        }
    } else {
        let dir = if str_ends_with(u.path.as_str(), "/") {
            u.path.clone()
        } else {
            u.path.clone().concat("/")
        };
        let pair = String::from_str("path=").concat(form_encode(dir.as_str()).as_str());
        let q = join_query_exec(&u.query, pair);
        ListingRequestUrl {
            prefix: u.prefix.clone(),
            path: dir.concat("api/"),
            query: Option::Some(q),
        }
    }
}

/// Parsing followed by normalization: what the whole request preparation
/// yields for a given base URL string.
pub open spec fn prepare_request_spec(s: Seq<char>) -> Result<ListingRequestUrlView, AppError> {
    match parsed_url(s) {
        Option::None => Result::Err(AppError::InvalidUrl),
        Option::Some(t) => Result::Ok(normalize_spec(parts_of(t))),
    }
}

/// Parses a base URL string and normalizes it into the listing request URL;
/// an input that is not a valid absolute URL is rejected as `InvalidUrl`.
pub fn prepare_request(s: &str) -> (r: Result<ListingRequestUrl, AppError>)
    ensures
        (match r {
            Result::Ok(u) => prepare_request_spec(s@) == Result::<
                ListingRequestUrlView,
                AppError,
            >::Ok(u@),
            Result::Err(e) => prepare_request_spec(s@) == Result::<
                ListingRequestUrlView,
                AppError,
            >::Err(e),
        }),
{
    match parse_url_components(s) {
        Option::None => Result::Err(AppError::InvalidUrl),
        Option::Some(p) => Result::Ok(normalize_listing_url(&p)),
    }
}

/// The view of an optional string slice.
pub open spec fn opt_str_view(o: Option<&str>) -> Option<Seq<char>> {
    match o {
        Option::None => Option::None,
        Option::Some(s) => Option::Some(s@),
    }
}

/// The request URL with a continuation token appended as a form-encoded
/// `next` query pair, when one is given.
pub open spec fn with_next_spec(u: ListingRequestUrlView, next: Option<Seq<char>>) -> ListingRequestUrlView {
    match next {
        Option::None => u,
        Option::Some(t) => ListingRequestUrlView {
            prefix: u.prefix,
            path: u.path,
            query: Option::Some(join_query(u.query, "next="@ + form_encoded(t))),
        },
    }
}

/// The string serialization of a request URL: prefix, path, and the query
/// after `?` when one is present.
pub open spec fn url_string_spec(u: ListingRequestUrlView) -> Seq<char> {
    match u.query {
        Option::None => u.prefix + u.path,
        Option::Some(qs) => u.prefix + u.path + "?"@ + qs,
    }
}

/// Builds the URL string one listing page is fetched from: the normalized
/// request URL, with the continuation token (if any) appended as a `next`
/// query pair.
pub fn fetch_url(u: &ListingRequestUrl, next: Option<&str>) -> (r: String)
    ensures
        r@ == url_string_spec(with_next_spec(u@, opt_str_view(next))),
{
    match next {
        Option::None => {
            match &u.query {
                Option::None => u.prefix.clone().concat(u.path.as_str()),
                Option::Some(qs) => u.prefix.clone().concat(u.path.as_str()).concat("?").concat(
                    qs.as_str(),
                ),
            }
        },
        Option::Some(t) => {
            let pair = String::from_str("next=").concat(form_encode(t).as_str());
            let q = join_query_exec(&u.query, pair);
            u.prefix.clone().concat(u.path.as_str()).concat("?").concat(q.as_str())
        },
    }
}

/// The query of a request URL, or the empty string when it has none.
pub open spec fn opt_or_empty(q: Option<Seq<char>>) -> Seq<char> {
    match q {
        Option::None => Seq::empty(),
        Option::Some(qs) => qs,
    }
}

/// The direct-download URL of one entry: the request URL's path with `raw/`
/// appended, and its query with the entry's name appended directly — no
/// separator and no further escaping between the query's `path` value and
/// the name.
pub open spec fn raw_file_url_spec(u: ListingRequestUrlView, name: Seq<char>) -> Seq<char> {
    u.prefix + u.path + "raw/"@ + "?"@ + opt_or_empty(u.query) + name
}

/// Builds the direct-download URL of the entry called `name`.
pub fn raw_file_url(u: &ListingRequestUrl, name: &str) -> (r: String)
    ensures
        r@ == raw_file_url_spec(u@, name@),
{
    let base = u.prefix.clone().concat(u.path.as_str()).concat("raw/").concat("?");
    match &u.query {
        Option::None => {
            proof {
                assert(base@ + name@ =~= raw_file_url_spec(u@, name@));
            }
            base.concat(name)
        },
        Option::Some(qs) => base.concat(qs.as_str()).concat(name),
    }
}

} // verus!
