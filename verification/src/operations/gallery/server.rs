//! The live gallery's HTTP handling: reading a request's line and headers,
//! routing it, and the responses. Sockets, threads and the JSON bodies of
//! the API are the caller's.
use crate::text::{cat, cat3, is_ws, split_char, str_eq, str_split_char, trim, u64_to_decimal, views};
use vstd::prelude::*;

verus! {

/// The gallery's assets, as served.
pub struct Assets {
    pub index_html: String,
    pub gallery_js: String,
    pub gallery_css: String,
    pub logo: Vec<u8>,
    pub favicon: Vec<u8>,
    pub font_dm_serif_400: Vec<u8>,
    pub font_dm_serif_400_italic: Vec<u8>,
    pub font_ibm_plex_mono_400: Vec<u8>,
    pub font_ibm_plex_mono_500: Vec<u8>,
}

// ---------------------------------------------------------------------------
// Reading a request.
// ---------------------------------------------------------------------------

/// `s` without its leading whitespace.
pub open spec fn skip_ws(s: Seq<char>) -> Seq<char>
    decreases s.len(),
{
    if s.len() > 0 && is_ws(s[0]) {
        skip_ws(s.drop_first())
    } else {
        s
    }
}

/// The longest prefix of `s` without whitespace.
pub open spec fn token_prefix(s: Seq<char>) -> Seq<char>
    decreases s.len(),
{
    if s.len() == 0 || is_ws(s[0]) {
        Seq::empty()
    } else {
        seq![s[0]] + token_prefix(s.drop_first())
    }
}

/// The first whitespace-separated word of `s` (empty when there is none),
/// and what follows it.
pub open spec fn first_word(s: Seq<char>) -> (Seq<char>, Seq<char>) {
    let t = skip_ws(s);
    let w = token_prefix(t);
    (w, t.skip(w.len() as int))
}

/// The method and the path (without query) of a request line: its first
/// two whitespace-separated words, the second cut at its first `?`.
pub open spec fn request_line_parts(line: Seq<char>) -> (Seq<char>, Seq<char>) {
    let (method, rest) = first_word(line);
    let (target, _) = first_word(rest);
    (method, split_char(target, '?')[0])
}

/// `token_prefix(s)` is a prefix of `s`.
proof fn lemma_token_prefix(s: Seq<char>)
    ensures
        token_prefix(s).len() <= s.len(),
        token_prefix(s) == s.subrange(0, token_prefix(s).len() as int),
    decreases s.len(),
{
    if s.len() > 0 && !is_ws(s[0]) {
        lemma_token_prefix(s.drop_first());
        assert(token_prefix(s) =~= s.subrange(0, token_prefix(s).len() as int));
    }
}

/// The first word of the characters `v` from `start` on, and where it ends.
fn first_word_at(v: &Vec<char>, start: usize) -> (res: (usize, usize))
    requires
        start <= v.len(),
    ensures
        start <= res.0 <= res.1 <= v.len(),
        v@.subrange(res.0 as int, res.1 as int) == first_word(v@.skip(start as int)).0,
        v@.skip(res.1 as int) == first_word(v@.skip(start as int)).1,
{
    let n = v.len();
    let mut i = start;
    assert(v@.skip(start as int).skip(0) =~= v@.skip(start as int));
    while i < n && crate::text::is_whitespace(v[i])
        invariant
            start <= i <= n,
            n == v.len(),
            skip_ws(v@.skip(start as int)) == skip_ws(v@.skip(i as int)),
        decreases n - i,
    {
        assert(v@.skip(i as int).drop_first() =~= v@.skip(i + 1));
        i = i + 1;
    }
    assert(skip_ws(v@.skip(i as int)) == v@.skip(i as int));
    let mut j = i;
    while j < n && !crate::text::is_whitespace(v[j])
        invariant
            i <= j <= n,
            n == v.len(),
            token_prefix(v@.skip(i as int)) == v@.subrange(i as int, j as int) + token_prefix(v@.skip(j as int)),
        decreases n - j,
    {
        assert(v@.skip(j as int).drop_first() =~= v@.skip(j + 1));
        assert(v@.subrange(i as int, j + 1) =~= v@.subrange(i as int, j as int) + seq![v@[j as int]]);
        j = j + 1;
    }
    assert(token_prefix(v@.skip(j as int)) =~= Seq::<char>::empty());
    assert(v@.subrange(i as int, j as int) + Seq::<char>::empty() =~= v@.subrange(i as int, j as int));
    assert(v@.skip(i as int).skip(j - i) =~= v@.skip(j as int));
    (i, j)
}

/// The method and the path (without query) of a request line.
pub fn parse_request_line(line: &str) -> (res: (String, String))
    ensures
        (res.0@, res.1@) == request_line_parts(line@),
{
    let v = crate::text::chars_of(line);
    let (a, b) = first_word_at(&v, 0);
    assert(v@.skip(0) =~= v@);
    let (c, d) = first_word_at(&v, b);
    let method = crate::text::string_of(&crate::text::slice_chars(&v, a, b));
    let target = crate::text::string_of(&crate::text::slice_chars(&v, c, d));
    let pieces = str_split_char(target.as_str(), '?');
    proof {
        crate::text::lemma_split_char_nonempty(target@, '?');
        assert(views(pieces@)[0] == pieces@[0]@);
    }
    let path = pieces[0].clone();
    (method, path)
}

/// A number's text without its optional leading `+`.
pub open spec fn unsigned_part(s: Seq<char>) -> Seq<char> {
    if s.len() > 1 && s[0] == '+' {
        s.drop_first()
    } else {
        s
    }
}

/// Every character of `d` is a decimal digit.
pub open spec fn all_digits(d: Seq<char>) -> bool {
    forall|i: int| 0 <= i < d.len() ==> '0' <= #[trigger] d[i] && d[i] <= '9'
}

/// The value of a decimal number as `usize`'s `FromStr` reads it: an
/// optional `+`, then at least one digit.
pub open spec fn decimal_value(s: Seq<char>) -> Option<nat> {
    let d = unsigned_part(s);
    if d.len() > 0 && all_digits(d) {
        Some(digits_value(d))
    } else {
        None
    }
}

/// The value of a string of decimal digits.
pub open spec fn digits_value(d: Seq<char>) -> nat
    decreases d.len(),
{
    if d.len() == 0 {
        0
    } else {
        digits_value(d.drop_last()) * 10 + ((d.last() as int) - ('0' as int)) as nat
    }
}

/// Reads a `usize`; `None` when the text is no number or the number does
/// not fit.
pub fn parse_usize(s: &str) -> (res: Option<usize>)
    ensures
        match decimal_value(s@) {
            Some(n) => if n <= usize::MAX {
                res == Some(n as usize)
            } else {
                res is None
            },
            None => res is None,
        },
{
    let v = crate::text::chars_of(s);
    let n = v.len();
    let start: usize = if n > 1 && v[0] == '+' { 1 } else { 0 };
    let ghost d = unsigned_part(s@);
    assert(d =~= v@.skip(start as int));
    if start == n {
        assert(d.len() == 0);
        return None;
    }
    let mut acc: usize = 0;
    let mut big = false;
    let mut i = start;
    while i < n
        invariant
            start <= i <= n,
            n == v.len(),
            d == v@.skip(start as int),
            v@ == s@,
            d == unsigned_part(s@),
            forall|k: int| start <= k < i ==> '0' <= #[trigger] v@[k] && v@[k] <= '9',
            !big ==> acc == digits_value(v@.subrange(start as int, i as int)),
            big ==> digits_value(v@.subrange(start as int, i as int)) > usize::MAX,
        decreases n - i,
    {
        let c = v[i];
        if !('0' <= c && c <= '9') {
            assert(d[i - start] == c);
            assert(!all_digits(d));
            return None;
        }
        let digit = (c as u32 - '0' as u32) as usize;
        assert(v@.subrange(start as int, i + 1).drop_last() =~= v@.subrange(start as int, i as int));
        let ghost prev = digits_value(v@.subrange(start as int, i as int));
        assert(digits_value(v@.subrange(start as int, i + 1)) == prev * 10 + digit);
        if !big {
            if acc > (usize::MAX - digit) / 10 {
                big = true;
                assert(prev * 10 + digit > usize::MAX) by (nonlinear_arith)
                    requires
                        prev == acc,
                        acc > (usize::MAX - digit) / 10,
                        digit <= 9,
                ;
            } else {
                assert(acc * 10 + digit <= usize::MAX) by (nonlinear_arith)
                    requires
                        acc <= (usize::MAX - digit) / 10,
                        digit <= 9,
                ;
                acc = acc * 10 + digit;
            }
        } else {
            assert(prev * 10 + digit > usize::MAX) by (nonlinear_arith)
                requires
                    prev > usize::MAX,
            ;
        }
        i = i + 1;
    }
    assert(v@.subrange(start as int, n as int) =~= d);
    if big {
        None
    } else {
        Some(acc)
    }
}

/// What a header line tells the reader.
#[derive(Clone, Copy, Debug, PartialEq, Eq, Structural)]
pub enum HeaderLine {
    /// The blank line that ends the headers.
    End,
    /// A `Content-Length` header, with its value (0 when unreadable).
    ContentLength(usize),
    /// Any other header.
    Other,
}

/// `s` without trailing `\r` and `\n` characters.
pub open spec fn trim_line_end(s: Seq<char>) -> Seq<char>
    decreases s.len(),
{
    if s.len() > 0 && (s.last() == '\r' || s.last() == '\n') {
        trim_line_end(s.drop_last())
    } else {
        s
    }
}

/// The index of the first `:` in `s`, if any.
pub open spec fn first_colon(s: Seq<char>) -> Option<int>
    decreases s.len(),
{
    if s.len() == 0 {
        None
    } else if s[0] == ':' {
        Some(0)
    } else {
        match first_colon(s.drop_first()) {
            Some(i) => Some(i + 1),
            None => None,
        }
    }
}

/// `c` lower-cased if it is an ASCII letter.
pub open spec fn ascii_lower(c: char) -> char {
    if 'A' <= c && c <= 'Z' {
        ((c as int) + 32) as char
    } else {
        c
    }
}

/// `a` and `b` are equal ignoring ASCII case.
pub open spec fn eq_ignore_ascii_case(a: Seq<char>, b: Seq<char>) -> bool {
    a.len() == b.len() && forall|i: int| 0 <= i < a.len() ==> ascii_lower(#[trigger] a[i]) == ascii_lower(b[i])
}

/// What a header line tells: a blank line (once `\r` and `\n` are cut)
/// ends the headers; `Content-Length: <n>` (name in any case, spaces around
/// name and value ignored) gives the body's length, 0 when unreadable.
pub open spec fn header_line(line: Seq<char>) -> HeaderLine {
    let t = trim_line_end(line);
    if t.len() == 0 {
        HeaderLine::End
    } else {
        match first_colon(t) {
            Some(k) => if eq_ignore_ascii_case(trim(t.subrange(0, k)), "content-length"@) {
                HeaderLine::ContentLength(match decimal_value(trim(t.skip(k + 1))) {
                    Some(n) => if n <= usize::MAX {
                        n as usize
                    } else {
                        0
                    },
                    None => 0,
                })
            } else {
                HeaderLine::Other
            },
            None => HeaderLine::Other,
        }
    }
}

/// What a header line tells the reader.
pub fn classify_header(line: &str) -> (res: HeaderLine)
    ensures
        res == header_line(line@),
{
    let v = crate::text::chars_of(line);
    let mut e = v.len();
    assert(v@.subrange(0, e as int) =~= v@);
    while e > 0 && (v[e - 1] == '\r' || v[e - 1] == '\n')
        invariant
            e <= v.len(),
            trim_line_end(v@) == trim_line_end(v@.subrange(0, e as int)),
        decreases e,
    {
        assert(v@.subrange(0, e as int).drop_last() =~= v@.subrange(0, e - 1));
        e = e - 1;
    }
    let ghost t = v@.subrange(0, e as int);
    assert(trim_line_end(t) == t);
    if e == 0 {
        return HeaderLine::End;
    }
    let mut k: usize = 0;
    assert(t.skip(0) =~= t);
    while k < e && v[k] != ':'
        invariant
            k <= e,
            e <= v.len(),
            t == v@.subrange(0, e as int),
            first_colon(t) == match first_colon(t.skip(k as int)) {
                Some(i) => Some(i + k),
                None => None,
            },
        decreases e - k,
    {
        assert(t.skip(k as int).drop_first() =~= t.skip(k + 1));
        k = k + 1;
    }
    if k == e {
        assert(t.skip(k as int).len() == 0);
        return HeaderLine::Other;
    }
    assert(t.skip(k as int)[0] == ':');
    let name = crate::text::string_of(&crate::text::slice_chars(&v, 0, k));
    let value = crate::text::string_of(&crate::text::slice_chars(&v, k + 1, e));
    assert(t.subrange(0, k as int) =~= name@);
    assert(t.skip(k + 1) =~= value@);
    let tn = crate::text::str_trim(name.as_str());
    let tv = crate::text::str_trim(value.as_str());
    let want = crate::text::chars_of("content-length");
    let got = crate::text::chars_of(tn.as_str());
    let mut same = got.len() == want.len();
    if same {
        let m = got.len();
        let mut i: usize = 0;
        while i < m && same
            invariant
                m == got.len(),
                m == want.len(),
                i <= m,
                forall|j: int| 0 <= j < i ==> ascii_lower(#[trigger] got@[j]) == ascii_lower(want@[j]),
                !same ==> i < m && ascii_lower(got@[i as int]) != ascii_lower(want@[i as int]),
            decreases m - i + (if same { 1int } else { 0int }),
        {
            let a = got[i];
            let b = want[i];
            let la = if 'A' <= a && a <= 'Z' { ((a as u32) + 32) as u8 as char } else { a };
            let lb = if 'A' <= b && b <= 'Z' { ((b as u32) + 32) as u8 as char } else { b };
            assert(la == ascii_lower(a));
            assert(lb == ascii_lower(b));
            if la != lb {
                same = false;
            } else {
                i = i + 1;
            }
        }
        if same {
            assert forall|j: int| 0 <= j < tn@.len() implies ascii_lower(#[trigger] tn@[j]) == ascii_lower("content-length"@[j]) by {
                assert(got@[j] == tn@[j]);
                assert(want@[j] == "content-length"@[j]);
            }
            assert(eq_ignore_ascii_case(tn@, "content-length"@));
        } else {
            assert(got@[i as int] == tn@[i as int]);
            assert(want@[i as int] == "content-length"@[i as int]);
            assert(!eq_ignore_ascii_case(tn@, "content-length"@));
        }
    }
    if !same {
        return HeaderLine::Other;
    }
    let len = match parse_usize(tv.as_str()) {
        Some(n) => n,
        None => 0,
    };
    HeaderLine::ContentLength(len)
}

// ---------------------------------------------------------------------------
// Routing and responses.
// ---------------------------------------------------------------------------

/// What a request asks for.
#[derive(Clone, Copy, Debug, PartialEq, Eq, Structural)]
pub enum Route {
    Index,
    Css,
    Js,
    Logo,
    Favicon,
    FontDmSerif400,
    FontDmSerif400Italic,
    FontIbmPlexMono400,
    FontIbmPlexMono500,
    /// The currently applied scheme.
    Current,
    /// Applying a scheme.
    Apply,
    NotFound,
    MethodNotAllowed,
}

/// What a request with `method` for `path` asks for.
pub open spec fn route_of(method: Seq<char>, path: Seq<char>) -> Route {
    if method == "GET"@ {
        if path == "/"@ || path == "/index.html"@ { Route::Index }
        else if path == "/assets/gallery.css"@ { Route::Css }
        else if path == "/assets/gallery.js"@ { Route::Js }
        else if path == "/assets/tinted-theming-logo.png"@ { Route::Logo }
        else if path == "/assets/favicon.png"@ { Route::Favicon }
        else if path == "/assets/fonts/dm-serif-display-400.woff2"@ { Route::FontDmSerif400 }
        else if path == "/assets/fonts/dm-serif-display-400-italic.woff2"@ { Route::FontDmSerif400Italic }
        else if path == "/assets/fonts/ibm-plex-mono-400.woff2"@ { Route::FontIbmPlexMono400 }
        else if path == "/assets/fonts/ibm-plex-mono-500.woff2"@ { Route::FontIbmPlexMono500 }
        else if path == "/api/current"@ { Route::Current }
        else { Route::NotFound }
    } else if method == "POST"@ && path == "/api/apply"@ {
        Route::Apply
    } else {
        Route::MethodNotAllowed
    }
}

/// Each asset route is taken by a `GET` for a file of that asset's type:
/// the stylesheet route by a `.css` path, the script route by a `.js`
/// path, the images by `.png` paths and the fonts by `.woff2` paths; and
/// the gallery's stylesheet and script paths reach their own routes.
pub proof fn law_asset_routes_match_file_types(method: Seq<char>, path: Seq<char>)
    ensures
        route_of(method, path) is Css ==> method == "GET"@ && crate::text::ends_with(path, ".css"@),
        route_of(method, path) is Js ==> method == "GET"@ && crate::text::ends_with(path, ".js"@),
        route_of(method, path) is Logo || route_of(method, path) is Favicon ==> crate::text::ends_with(path, ".png"@),
        route_of(method, path) is FontDmSerif400 || route_of(method, path) is FontDmSerif400Italic
            || route_of(method, path) is FontIbmPlexMono400 || route_of(method, path) is FontIbmPlexMono500
            ==> crate::text::ends_with(path, ".woff2"@),
        method == "GET"@ && path == "/assets/gallery.css"@ ==> route_of(method, path) is Css,
        method == "GET"@ && path == "/assets/gallery.js"@ ==> route_of(method, path) is Js,
{
    reveal_strlit("GET");
    reveal_strlit("POST");
    reveal_strlit("/");
    reveal_strlit("/index.html");
    reveal_strlit("/assets/gallery.css");
    reveal_strlit("/assets/gallery.js");
    reveal_strlit("/assets/tinted-theming-logo.png");
    reveal_strlit("/assets/favicon.png");
    reveal_strlit("/assets/fonts/dm-serif-display-400.woff2");
    reveal_strlit("/assets/fonts/dm-serif-display-400-italic.woff2");
    reveal_strlit("/assets/fonts/ibm-plex-mono-400.woff2");
    reveal_strlit("/assets/fonts/ibm-plex-mono-500.woff2");
    reveal_strlit("/api/current");
    reveal_strlit(".css");
    reveal_strlit(".js");
    reveal_strlit(".png");
    reveal_strlit(".woff2");
    assert("/assets/gallery.js"@.len() != "/assets/gallery.css"@.len());
    assert("/assets/gallery.js"@.len() != "/"@.len());
    assert("/assets/gallery.js"@.len() != "/index.html"@.len());
    assert("/assets/gallery.css"@.len() != "/"@.len());
    assert("/assets/gallery.css"@.len() != "/index.html"@.len());
    assert("/assets/gallery.css"@.subrange(15, 19) =~= ".css"@);
    assert("/assets/gallery.js"@.subrange(15, 18) =~= ".js"@);
    assert("/assets/tinted-theming-logo.png"@.subrange(27, 31) =~= ".png"@);
    assert("/assets/favicon.png"@.subrange(15, 19) =~= ".png"@);
    assert("/assets/fonts/dm-serif-display-400.woff2"@.subrange(34, 40) =~= ".woff2"@);
    assert("/assets/fonts/dm-serif-display-400-italic.woff2"@.subrange(41, 47) =~= ".woff2"@);
    assert("/assets/fonts/ibm-plex-mono-400.woff2"@.subrange(31, 37) =~= ".woff2"@);
    assert("/assets/fonts/ibm-plex-mono-500.woff2"@.subrange(31, 37) =~= ".woff2"@);
}

/// What a request with `method` for `path` asks for.
pub fn route(method: &str, path: &str) -> (res: Route)
    ensures
        res == route_of(method@, path@),
{
    if str_eq(method, "GET") {
        if str_eq(path, "/") || str_eq(path, "/index.html") { Route::Index }
        else if str_eq(path, "/assets/gallery.css") { Route::Css }
        else if str_eq(path, "/assets/gallery.js") { Route::Js }
        else if str_eq(path, "/assets/tinted-theming-logo.png") { Route::Logo }
        else if str_eq(path, "/assets/favicon.png") { Route::Favicon }
        else if str_eq(path, "/assets/fonts/dm-serif-display-400.woff2") { Route::FontDmSerif400 }
        else if str_eq(path, "/assets/fonts/dm-serif-display-400-italic.woff2") { Route::FontDmSerif400Italic }
        else if str_eq(path, "/assets/fonts/ibm-plex-mono-400.woff2") { Route::FontIbmPlexMono400 }
        else if str_eq(path, "/assets/fonts/ibm-plex-mono-500.woff2") { Route::FontIbmPlexMono500 }
        else if str_eq(path, "/api/current") { Route::Current }
        else { Route::NotFound }
    } else if str_eq(method, "POST") && str_eq(path, "/api/apply") {
        Route::Apply
    } else {
        Route::MethodNotAllowed
    }
}

/// A response's body.
pub enum Body {
    Text(String),
    Bytes(Vec<u8>),
}

/// A response: status line text, content type and body.
pub struct Response {
    pub status: String,
    pub content_type: String,
    pub body: Body,
}

/// `r` has status `status`, content type `content_type` and the text body
/// `body`.
pub open spec fn text_response(r: Response, status: Seq<char>, content_type: Seq<char>, body: Seq<char>) -> bool {
    &&& r.status@ == status
    &&& r.content_type@ == content_type
    &&& r.body matches Body::Text(t) && t@ == body
}

/// `r` has status `200 OK`, content type `content_type` and the bytes
/// `body`.
pub open spec fn bytes_response(r: Response, content_type: Seq<char>, body: Seq<u8>) -> bool {
    &&& r.status@ == "200 OK"@
    &&& r.content_type@ == content_type
    &&& r.body matches Body::Bytes(b) && b@ == body
}

impl Response {
    pub fn html(body: String) -> (res: Response)
        ensures
            text_response(res, "200 OK"@, "text/html; charset=utf-8"@, body@),
    {
        Response { status: "200 OK".to_string(), content_type: "text/html; charset=utf-8".to_string(), body: Body::Text(body) }
    }

    pub fn css(body: &str) -> (res: Response)
        ensures
            text_response(res, "200 OK"@, "text/css; charset=utf-8"@, body@),
    {
        Response { status: "200 OK".to_string(), content_type: "text/css; charset=utf-8".to_string(), body: Body::Text(body.to_string()) }
    }

    pub fn js(body: String) -> (res: Response)
        ensures
            text_response(res, "200 OK"@, "text/javascript; charset=utf-8"@, body@),
    {
        Response { status: "200 OK".to_string(), content_type: "text/javascript; charset=utf-8".to_string(), body: Body::Text(body) }
    }

    pub fn png(body: &Vec<u8>) -> (res: Response)
        ensures
            bytes_response(res, "image/png"@, body@),
    {
        Response { status: "200 OK".to_string(), content_type: "image/png".to_string(), body: Body::Bytes(body.clone()) }
    }

    pub fn font(body: &Vec<u8>) -> (res: Response)
        ensures
            bytes_response(res, "font/woff2"@, body@),
    {
        Response { status: "200 OK".to_string(), content_type: "font/woff2".to_string(), body: Body::Bytes(body.clone()) }
    }

    /// A JSON response with status `status` and the JSON text `body`.
    pub fn json(status: &str, body: String) -> (res: Response)
        ensures
            text_response(res, status@, "application/json; charset=utf-8"@, body@),
    {
        Response { status: status.to_string(), content_type: "application/json; charset=utf-8".to_string(), body: Body::Text(body) }
    }

    pub fn not_found() -> (res: Response)
        ensures
            text_response(res, "404 Not Found"@, "text/plain; charset=utf-8"@, "Not found"@),
    {
        Response { status: "404 Not Found".to_string(), content_type: "text/plain; charset=utf-8".to_string(), body: Body::Text("Not found".to_string()) }
    }

    pub fn method_not_allowed() -> (res: Response)
        ensures
            text_response(res, "405 Method Not Allowed"@, "text/plain; charset=utf-8"@, "Method not allowed"@),
    {
        Response { status: "405 Method Not Allowed".to_string(), content_type: "text/plain; charset=utf-8".to_string(), body: Body::Text("Method not allowed".to_string()) }
    }
}

/// The response to a request for an asset, or to an unknown path or
/// method; `None` for the API routes, whose answers need this machine's
/// state.
pub fn asset_response(r: Route, assets: &Assets) -> (res: Option<Response>)
    ensures
        match r {
            Route::Index => res matches Some(x) && text_response(x, "200 OK"@, "text/html; charset=utf-8"@, assets.index_html@),
            Route::Css => res matches Some(x) && text_response(x, "200 OK"@, "text/css; charset=utf-8"@, assets.gallery_css@),
            Route::Js => res matches Some(x) && text_response(x, "200 OK"@, "text/javascript; charset=utf-8"@, assets.gallery_js@),
            Route::Logo => res matches Some(x) && bytes_response(x, "image/png"@, assets.logo@),
            Route::Favicon => res matches Some(x) && bytes_response(x, "image/png"@, assets.favicon@),
            Route::FontDmSerif400 => res matches Some(x) && bytes_response(x, "font/woff2"@, assets.font_dm_serif_400@),
            Route::FontDmSerif400Italic => res matches Some(x) && bytes_response(x, "font/woff2"@, assets.font_dm_serif_400_italic@),
            Route::FontIbmPlexMono400 => res matches Some(x) && bytes_response(x, "font/woff2"@, assets.font_ibm_plex_mono_400@),
            Route::FontIbmPlexMono500 => res matches Some(x) && bytes_response(x, "font/woff2"@, assets.font_ibm_plex_mono_500@),
            Route::Current | Route::Apply => res is None,
            Route::NotFound => res matches Some(x) && text_response(x, "404 Not Found"@, "text/plain; charset=utf-8"@, "Not found"@),
            Route::MethodNotAllowed => res matches Some(x) && text_response(x, "405 Method Not Allowed"@, "text/plain; charset=utf-8"@, "Method not allowed"@),
        },
{
    match r {
        Route::Index => Some(Response::html(assets.index_html.clone())),
        Route::Css => Some(Response::css(assets.gallery_css.as_str())),
        Route::Js => Some(Response::js(assets.gallery_js.clone())),
        Route::Logo => Some(Response::png(&assets.logo)),
        Route::Favicon => Some(Response::png(&assets.favicon)),
        Route::FontDmSerif400 => Some(Response::font(&assets.font_dm_serif_400)),
        Route::FontDmSerif400Italic => Some(Response::font(&assets.font_dm_serif_400_italic)),
        Route::FontIbmPlexMono400 => Some(Response::font(&assets.font_ibm_plex_mono_400)),
        Route::FontIbmPlexMono500 => Some(Response::font(&assets.font_ibm_plex_mono_500)),
        Route::Current | Route::Apply => None,
        Route::NotFound => Some(Response::not_found()),
        Route::MethodNotAllowed => Some(Response::method_not_allowed()),
    }
}

/// The head of a response with status `status`, content type
/// `content_type` and a body of `len` bytes.
pub fn response_head(status: &str, content_type: &str, len: usize) -> (res: String)
    ensures
        res@ == "HTTP/1.1 "@ + status@ + "\r\nContent-Type: "@ + content_type@ + "\r\nContent-Length: "@
            + crate::text::decimal(len as nat) + "\r\nConnection: close\r\nCache-Control: no-store\r\n\r\n"@,
{
    let mut s = cat3("HTTP/1.1 ", status, "\r\nContent-Type: ");
    s.append(content_type);
    s.append("\r\nContent-Length: ");
    s.append(u64_to_decimal(len as u64).as_str());
    s.append("\r\nConnection: close\r\nCache-Control: no-store\r\n\r\n");
    s
}

/// The scheme the current-scheme API reports: the applied scheme's name,
/// trimmed, or none when it is blank.
pub fn current_scheme_report(current: &str) -> (res: Option<String>)
    ensures
        trim(current@).len() == 0 ==> res is None,
        trim(current@).len() > 0 ==> (res matches Some(s) && s@ == trim(current@)),
{
    let t = crate::text::str_trim(current);
    if t.as_str().is_empty() {
        None
    } else {
        Some(t)
    }
}

} // verus!
