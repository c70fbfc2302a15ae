use vstd::prelude::*;
use crate::render::{json_quote, json_string_literal, negotiate_format, expects_json, BodyFormat, Reply, ReplyView, STATUS_OK};
use crate::sanitize::{escaped, sanitize_user_input};

verus! {

/// The static page served at the root.
pub open spec fn root_page_text() -> Seq<char> {
    "<!DOCTYPE html>\n        <html>\n            <h1> Hello, World! </h1>\n        </html>"@
}

/// Renders the static page served at the root.
pub fn root_page() -> (r: String)
    ensures
        r@ == root_page_text(),
{
    String::from_str("<!DOCTYPE html>\n        <html>\n            <h1> Hello, World! </h1>\n        </html>")
}

/// The greeting of a name: for JSON, a JSON string that holds the text of an
/// object `{"hello": "<name>"}` with the name as given; otherwise an HTML
/// page with the name sanitized.
pub open spec fn hello_reply(name: Seq<char>, accept: Seq<char>) -> ReplyView {
    if expects_json(accept) {
        ReplyView {
            status: STATUS_OK,
            format: BodyFormat::Json,
            body: json_string_literal("{\"hello\": \""@ + name + "\"}"@),
        }
    } else {
        ReplyView {
            status: STATUS_OK,
            format: BodyFormat::Html,
            body: "<!DOCTYPE html>\n                <html>\n                    <h1> Hello, "@ + escaped(name)
                + " </h1>\n                </html>\n            "@,
        }
    }
}

/// Greets a name in the negotiated format.
pub fn hello(name: &str, accept: &str) -> (r: Reply)
    ensures
        r@ == hello_reply(name@, accept@),
{
    match negotiate_format(accept) {
        BodyFormat::Json => {
            let mut text = String::from_str("{\"hello\": \"");
            text.append(name);
            text.append("\"}");
            Reply { status: STATUS_OK, format: BodyFormat::Json, body: json_quote(text.as_str()) }
        },
        BodyFormat::Html => {
            let mut n = String::from_str(name);
            sanitize_user_input(&mut n);
            let mut page = String::from_str("<!DOCTYPE html>\n                <html>\n                    <h1> Hello, ");
            page.append(n.as_str());
            page.append(" </h1>\n                </html>\n            ");
            Reply { status: STATUS_OK, format: BodyFormat::Html, body: page }
        },
    }
}

} // verus!
