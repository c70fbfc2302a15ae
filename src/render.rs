use vstd::prelude::*;

verus! {

/// The HTTP status of a rendered read.
pub const STATUS_OK: u16 = 200;

/// The HTTP status of every status page whose detail is not the server-error sentinel.
pub const STATUS_BAD_REQUEST: u16 = 400;

/// The HTTP status of a status page whose detail is the server-error sentinel.
pub const STATUS_INTERNAL_SERVER_ERROR: u16 = 500;

/// The JSON text of a string literal, quotes and escapes included, as
/// serde_json writes it.
pub uninterp spec fn json_string_literal(s: Seq<char>) -> Seq<char>;

/// Relies on `serde_json::to_string` applied to a `str`: it writes the string
/// as a JSON literal into a `Vec`, which cannot fail (a `str` serializes
/// without error and holds no map), and the text depends on `s` alone.
#[verifier::external_body]
pub(crate) fn json_quote(s: &str) -> (r: String)
    ensures
        r@ == json_string_literal(s@),
{
    serde_json::to_string(s).unwrap_or_default()
}

/// `p` occurs in `s` as a contiguous run of characters.
pub open spec fn has_substring(s: Seq<char>, p: Seq<char>) -> bool {
    exists|i: int| 0 <= i && i + p.len() <= s.len() && #[trigger] s.subrange(i, i + p.len()) == p
}

/// Whether `p` stands in `s` from character `at` on.
fn matches_at(s: &str, p: &str, at: usize) -> (r: bool)
    requires
        at + p@.len() <= s@.len(),
    ensures
        r == (s@.subrange(at as int, at + p@.len()) == p@),
{
    let n: usize = s.unicode_len();
    let m: usize = p.unicode_len();
    let mut j: usize = 0;
    while j < m
        invariant
            j <= m,
            m == p@.len(),
            n == s@.len(),
            at + m <= s@.len(),
            forall|t: int| 0 <= t < j ==> s@[at + t] == p@[t],
        decreases m - j,
    {
        if s.get_char(at + j) != p.get_char(j) {
            assert(s@.subrange(at as int, at + m)[j as int] != p@[j as int]);
            return false;
        }
        j = j + 1;
    }
    assert(s@.subrange(at as int, at + m) =~= p@);
    true
}

/// Whether the text `p` occurs in `s`.
pub fn text_contains(s: &str, p: &str) -> (r: bool)
    ensures
        r == has_substring(s@, p@),
{
    let n: usize = s.unicode_len();
    let m: usize = p.unicode_len();
    if m > n {
        return false;
    }
    let mut i: usize = 0;
    loop
        invariant
            n == s@.len(),
            m == p@.len(),
            m <= n,
            i <= n - m,
            forall|k: int| 0 <= k < i ==> #[trigger] s@.subrange(k, k + m) != p@,
        ensures
            forall|k: int| 0 <= k <= n - m ==> #[trigger] s@.subrange(k, k + m) != p@,
        decreases n - m - i,
    {
        if matches_at(s, p, i) {
            return true;
        }
        if i == n - m {
            break;
        }
        i = i + 1;
    }
    assert forall|k: int| 0 <= k && k + p@.len() <= s@.len() implies #[trigger] s@.subrange(
        k,
        k + p@.len(),
    ) != p@ by {
        assert(k <= n - m);
    }
    false
}

/// Whether `a` and `b` hold the same characters.
pub fn text_eq(a: &str, b: &str) -> (r: bool)
    ensures
        r == (a@ == b@),
{
    if a.unicode_len() != b.unicode_len() {
        return false;
    }
    let r = matches_at(a, b, 0);
    assert(a@.subrange(0, b@.len() as int) == a@);
    r
}

/// The body shape chosen by content negotiation.
#[derive(Clone, Copy, Debug, PartialEq, Eq, Structural)]
pub enum BodyFormat {
    Html,
    Json,
}

/// The client asks for JSON when its accepted media type mentions "json".
pub open spec fn expects_json(accept: Seq<char>) -> bool {
    has_substring(accept, "json"@)
}

/// Picks the body shape from the value of the request's `Accept` header
/// (empty when the header is absent or not visible text).
pub fn negotiate_format(accept: &str) -> (r: BodyFormat)
    ensures
        r == (if expects_json(accept@) { BodyFormat::Json } else { BodyFormat::Html }),
{
    if text_contains(accept, "json") {
        BodyFormat::Json
    } else {
        BodyFormat::Html
    }
}

/// The detail text that marks a failure of the server rather than of the request.
pub open spec fn server_error_detail() -> Seq<char> {
    "internal server error"@
}

/// The status code of a status page: a server error exactly when the detail
/// is the server-error sentinel, a client error otherwise.
pub open spec fn status_code_of(extra_info: Seq<char>) -> u16 {
    if extra_info == server_error_detail() {
        STATUS_INTERNAL_SERVER_ERROR
    } else {
        STATUS_BAD_REQUEST
    }
}

/// The HTML status document that embeds a message and its detail.
pub open spec fn html_status_text(status_msg: Seq<char>, extra_info: Seq<char>) -> Seq<char> {
    "<!DOCTYPE html>\n                <html>\n                    <h1> "@ + status_msg
        + " </h1>\n                    <p1> "@ + extra_info
        + " </p1>\n                </html>\n            "@
}

/// Renders the HTML status document for a message and its detail.
pub fn html_status_page(status_msg: &str, extra_info: &str) -> (r: String)
    ensures
        r@ == html_status_text(status_msg@, extra_info@),
{
    let mut page = String::from_str("<!DOCTYPE html>\n                <html>\n                    <h1> ");
    page.append(status_msg);
    page.append(" </h1>\n                    <p1> ");
    page.append(extra_info);
    page.append(" </p1>\n                </html>\n            ");
    page
}

/// The status envelope sent to clients that accept JSON.
#[derive(Clone, Debug)]
pub struct StatusData {
    pub status_msg: String,
    pub error: Option<String>,
}

/// The mathematical value of a status envelope.
pub struct StatusDataView {
    pub status_msg: Seq<char>,
    pub error: Option<Seq<char>>,
}

impl View for StatusData {
    type V = StatusDataView;

    open spec fn view(&self) -> StatusDataView {
        StatusDataView {
            status_msg: self.status_msg@,
            error: match self.error {
                Some(e) => Some(e@),
                None => None,
            },
        }
    }
}

/// The JSON text of an envelope: `{"status_msg":...,"error":...}`, with
/// `null` for an absent error.
pub open spec fn status_json_text(d: StatusDataView) -> Seq<char> {
    "{\"status_msg\":"@ + json_string_literal(d.status_msg) + ",\"error\":"@ + match d.error {
        Some(e) => json_string_literal(e),
        None => "null"@,
    } + "}"@
}

/// Builds the status envelope of a message and an optional error detail.
pub fn json_status_response(status_msg: String, error: Option<String>) -> (r: StatusData)
    ensures
        r@.status_msg == status_msg@,
        r@.error == (match error {
            Some(e) => Some(e@),
            None => None::<Seq<char>>,
        }),
{
    StatusData { status_msg, error }
}

impl StatusData {
    /// The envelope as compact JSON text, fields in declaration order.
    pub fn to_json(&self) -> (r: String)
        ensures
            r@ == status_json_text(self@),
    {
        let mut text = String::from_str("{\"status_msg\":");
        let msg = json_quote(self.status_msg.as_str());
        text.append(msg.as_str());
        text.append(",\"error\":");
        match &self.error {
            Some(e) => {
                let q = json_quote(e.as_str());
                text.append(q.as_str());
            },
            None => {
                text.append("null");
            },
        }
        text.append("}");
        text
    }
}

/// A complete HTTP response: status code, body shape and body text.
#[derive(Clone, Debug)]
pub struct Reply {
    pub status: u16,
    pub format: BodyFormat,
    pub body: String,
}

/// The mathematical value of a response.
pub struct ReplyView {
    pub status: u16,
    pub format: BodyFormat,
    pub body: Seq<char>,
}

impl View for Reply {
    type V = ReplyView;

    open spec fn view(&self) -> ReplyView {
        ReplyView { status: self.status, format: self.format, body: self.body@ }
    }
}

/// The envelope of a message and its detail: an empty detail means no error.
pub open spec fn status_envelope(status_msg: Seq<char>, extra_info: Seq<char>) -> StatusDataView {
    StatusDataView {
        status_msg,
        error: if extra_info.len() == 0 { None } else { Some(extra_info) },
    }
}

/// The status response of a message and its detail for a given `Accept` value.
pub open spec fn status_reply(
    status_msg: Seq<char>,
    extra_info: Seq<char>,
    accept: Seq<char>,
) -> ReplyView {
    if expects_json(accept) {
        ReplyView {
            status: status_code_of(extra_info),
            format: BodyFormat::Json,
            body: status_json_text(status_envelope(status_msg, extra_info)),
        }
    } else {
        ReplyView {
            status: status_code_of(extra_info),
            format: BodyFormat::Html,
            body: html_status_text(status_msg, extra_info),
        }
    }
}

/// Renders a status response: the status code follows the detail, the body
/// shape follows the `Accept` value.
pub fn gen_status_response(status_msg: &str, extra_info: &str, accept: &str) -> (r: Reply)
    ensures
        r@ == status_reply(status_msg@, extra_info@, accept@),
{
    let status = if text_eq(extra_info, "internal server error") {
        STATUS_INTERNAL_SERVER_ERROR
    } else {
        STATUS_BAD_REQUEST
    };
    match negotiate_format(accept) {
        BodyFormat::Json => {
            let error = if extra_info.unicode_len() == 0 {
                None
            } else {
                Some(String::from_str(extra_info))
            };
            let data = json_status_response(String::from_str(status_msg), error);
            Reply { status, format: BodyFormat::Json, body: data.to_json() }
        },
        BodyFormat::Html => {
            Reply { status, format: BodyFormat::Html, body: html_status_page(status_msg, extra_info) }
        },
    }
}

} // verus!
