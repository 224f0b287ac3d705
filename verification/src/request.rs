//! Shaping the one request the tool makes and the report it prints.
//!
//! The request is a GET of a fixed Notion page: the URL interpolates a fixed
//! page identifier into a fixed API host template, and two headers go with
//! it, a bearer-token `Authorization` value and a fixed `Notion-Version`
//! value. The report is a `Status <code>` line followed by the raw response
//! body; the status code is rendered in decimal here, verified digit by
//! digit.

use vstd::prelude::*;
use vstd::string::StringExecFns;

verus! {

/// The fixed API host template that the page identifier is appended to.
pub open spec fn page_url_prefix() -> Seq<char> {
    "https://api.notion.com/v1/pages/"@
}

/// The fixed identifier of the one page the tool fetches.
pub open spec fn notion_page_id() -> Seq<char> {
    "2a2a1865b18781fca571e00c54ef8006"@
}

/// The fixed value of the `Notion-Version` header.
pub open spec fn notion_version() -> Seq<char> {
    "2025-09-03"@
}

/// The URL for a page: the fixed template with the identifier appended.
pub open spec fn page_url_of(page_id: Seq<char>) -> Seq<char> {
    page_url_prefix() + page_id
}

/// The `Authorization` header value: the `Bearer` scheme with the key.
pub open spec fn bearer_value_of(key: Seq<char>) -> Seq<char> {
    "Bearer "@ + key
}

/// Builds the URL for the fixed Notion page.
pub fn notion_page_url() -> (u: String)
    ensures
        u@ == page_url_of(notion_page_id()),
{
    String::from_str("https://api.notion.com/v1/pages/").concat(
        "2a2a1865b18781fca571e00c54ef8006",
    )
}

/// Builds the `Authorization` header value carrying the API key.
pub fn bearer_header_value(key: &str) -> (h: String)
    ensures
        h@ == bearer_value_of(key@),
{
    String::from_str("Bearer ").concat(key)
}

/// Builds the fixed `Notion-Version` header value.
pub fn notion_version_header() -> (h: String)
    ensures
        h@ == notion_version(),
{
    String::from_str("2025-09-03")
}

/// The character for one decimal digit.
pub open spec fn decimal_digit(d: nat) -> char {
    if d == 0 {
        '0'
    } else if d == 1 {
        '1'
    } else if d == 2 {
        '2'
    } else if d == 3 {
        '3'
    } else if d == 4 {
        '4'
    } else if d == 5 {
        '5'
    } else if d == 6 {
        '6'
    } else if d == 7 {
        '7'
    } else if d == 8 {
        '8'
    } else {
        '9'
    }
}

/// The decimal rendering of a number: most significant digit first, no
/// leading zero except for the number zero itself.
pub open spec fn decimal_of(n: nat) -> Seq<char>
    decreases n,
{
    if n < 10 {
        seq![decimal_digit(n)]
    } else {
        decimal_of(n / 10).push(decimal_digit(n % 10))
    }
}

/// The one-character string for a decimal digit.
fn digit_str(d: u16) -> (s: &'static str)
    requires
        d < 10,
    ensures
        s@ =~= seq![decimal_digit(d as nat)],
{
    proof {
        reveal_strlit("0");
        reveal_strlit("1");
        reveal_strlit("2");
        reveal_strlit("3");
        reveal_strlit("4");
        reveal_strlit("5");
        reveal_strlit("6");
        reveal_strlit("7");
        reveal_strlit("8");
        reveal_strlit("9");
    }
    match d {
        0 => "0",
        1 => "1",
        2 => "2",
        3 => "3",
        4 => "4",
        5 => "5",
        6 => "6",
        7 => "7",
        8 => "8",
        _ => "9",
    }
}

/// Renders a status code in decimal.
pub fn u16_decimal(n: u16) -> (s: String)
    ensures
        s@ == decimal_of(n as nat),
    decreases n,
{
    if n < 10 {
        String::from_str(digit_str(n))
    } else {
        u16_decimal(n / 10).concat(digit_str(n % 10))
    }
}

/// The report's first line for a given status code.
pub open spec fn status_line_of(code: nat) -> Seq<char> {
    "Status "@ + decimal_of(code)
}

/// Builds the `Status <code>` line of the report.
pub fn status_line(code: u16) -> (s: String)
    ensures
        s@ == status_line_of(code as nat),
{
    let digits = u16_decimal(code);
    String::from_str("Status ").concat(digits.as_str())
}

} // verus!
