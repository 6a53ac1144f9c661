//! Info about the HTTP transfer

use vstd::prelude::*;

use crate::text::{starts_with, trim, trimmed};

verus! {

/// Information regarding the HTTP transfer
#[derive(Debug, Clone)]
pub struct HTTP {
    /// The external ip address (v4 or v6)
    pub ip: String,
    /// Duration of the HTTP call
    pub transfer_time: std::time::Duration,
    /// Number of redirections encountered
    pub redirect_count: u32,
    /// HTTP content type returned
    pub content_type: String,
    /// HTTP response code returned
    pub response_code: u32,
    /// All HTTP response headers
    pub headers: Vec<String>,
    /// Effective URL that was visited
    pub url: String,
    /// HTTP body
    pub body: String,
}

/// The characters of a list of strings.
pub open spec fn line_views(lines: Seq<String>) -> Seq<Seq<char>> {
    lines.map_values(|l: String| l@)
}

/// The header lines kept after one more line of the response came in.
///
/// The line is trimmed. A status line, which begins with `HTTP/`, opens a new
/// response: the lines of the one before, left over from a redirect, go. An
/// empty line is not kept.
pub open spec fn with_header(headers: Seq<Seq<char>>, line: Seq<char>) -> Seq<Seq<char>> {
    let header = trimmed(line);
    let kept = if "HTTP/"@.is_prefix_of(header) {
        Seq::empty()
    } else {
        headers
    };
    if header.len() == 0 {
        kept
    } else {
        kept.push(header)
    }
}

/// The text of an optional value, empty where there is none.
pub open spec fn text_or_empty(text: Option<&str>) -> Seq<char> {
    match text {
        Some(text) => text@,
        None => Seq::empty(),
    }
}

impl HTTP {
    /// Takes one line of the response headers into the list: see
    /// [`with_header`].
    pub fn push_header(headers: &mut Vec<String>, line: &str)
        ensures
            line_views(final(headers)@) == with_header(line_views(old(headers)@), line@),
    {
        let header = trim(line).to_string();

        // clear list on redirects
        if starts_with(header.as_str(), "HTTP/") {
            headers.clear();
            assert(line_views(headers@) == Seq::<Seq<char>>::empty());
        }

        if header.as_str().unicode_len() != 0 {
            let ghost kept = line_views(headers@);
            headers.push(header);
            assert(line_views(headers@) == kept.push(header@));
        }
    }

    /// The record of a finished transfer. The address, the content type and
    /// the effective URL are empty where the transfer gave none.
    pub fn new(
        ip: Option<&str>,
        transfer_time: std::time::Duration,
        redirect_count: u32,
        content_type: Option<&str>,
        response_code: u32,
        url: Option<&str>,
        headers: Vec<String>,
        body: String,
    ) -> (r: Self)
        ensures
            r.ip@ == text_or_empty(ip),
            r.transfer_time == transfer_time,
            r.redirect_count == redirect_count,
            r.content_type@ == text_or_empty(content_type),
            r.response_code == response_code,
            r.url@ == text_or_empty(url),
            r.headers == headers,
            r.body == body,
    {
        HTTP {
            ip: or_empty(ip),
            transfer_time,
            redirect_count,
            content_type: or_empty(content_type),
            response_code,
            headers,
            url: or_empty(url),
            body,
        }
    }
}

/// The text as a string, empty where there is none.
fn or_empty(text: Option<&str>) -> (r: String)
    ensures
        r@ == text_or_empty(text),
{
    match text {
        Some(text) => text.to_string(),
        None => String::new(),
    }
}

} // verus!
