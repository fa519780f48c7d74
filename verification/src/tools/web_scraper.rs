//! The error taxonomy and result shapes of the web-scraping tool. The
//! scraping itself — HTTP, HTML parsing, a headless browser — happens at the
//! process edge; the runtime only carries these plain values.

use vstd::prelude::*;
use vstd::string::{StrSliceExecFns, StringExecFns};

use crate::strutil::{spec_u64_digits, u64_to_string};

verus! {

/// Why a scrape failed.
#[derive(Debug)]
pub enum ScraperError {
    NetworkError,
    ParseError,
    TimeoutError,
    FileTooLargeError,
    InitializationError,
    ContextError,
    LaunchError,
    PageError,
    ScriptError,
    Other(String),
    UnknownError,
}

/// The rendered message of each scraper error.
pub open spec fn spec_scraper_error_message(e: ScraperError) -> Seq<char> {
    match e {
        ScraperError::NetworkError => "Network error occurred."@,
        ScraperError::ParseError => "Error occurred while parsing data."@,
        ScraperError::TimeoutError => "Request timed out."@,
        ScraperError::FileTooLargeError => "File size is too large."@,
        ScraperError::InitializationError => "Failed to initialize the browser engine."@,
        ScraperError::ContextError => "Failed to create a browser context."@,
        ScraperError::LaunchError => "Failed to launch the browser."@,
        ScraperError::PageError => "Failed to create a browser page."@,
        ScraperError::ScriptError => "Failed to add a browser script."@,
        ScraperError::Other(msg) => msg@,
        ScraperError::UnknownError => "An unknown error occurred."@,
    }
}

impl ScraperError {
    /// A short diagnostic line for the caller.
    pub fn to_message(&self) -> (r: String)
        ensures
            r@ == spec_scraper_error_message(*self),
    {
        match self {
            ScraperError::NetworkError => String::from_str("Network error occurred."),
            ScraperError::ParseError => String::from_str("Error occurred while parsing data."),
            ScraperError::TimeoutError => String::from_str("Request timed out."),
            ScraperError::FileTooLargeError => String::from_str("File size is too large."),
            ScraperError::InitializationError => String::from_str(
                "Failed to initialize the browser engine.",
            ),
            ScraperError::ContextError => String::from_str("Failed to create a browser context."),
            ScraperError::LaunchError => String::from_str("Failed to launch the browser."),
            ScraperError::PageError => String::from_str("Failed to create a browser page."),
            ScraperError::ScriptError => String::from_str("Failed to add a browser script."),
            ScraperError::Other(msg) => msg.clone(),
            ScraperError::UnknownError => String::from_str("An unknown error occurred."),
        }
    }
}

/// One extracted element: its text and, for anchors, the link target.
#[derive(Debug)]
pub struct ScrapedItem {
    pub text: String,
    pub link: Option<String>,
}

impl View for ScrapedItem {
    type V = (Seq<char>, Option<Seq<char>>);

    open spec fn view(&self) -> (Seq<char>, Option<Seq<char>>) {
        (
            self.text@,
            match &self.link {
                Some(l) => Some(l@),
                None => None,
            },
        )
    }
}

impl DeepView for ScrapedItem {
    type V = (Seq<char>, Option<Seq<char>>);

    open spec fn deep_view(&self) -> (Seq<char>, Option<Seq<char>>) {
        self.view()
    }
}

/// Everything one scrape extracted, in document order.
#[derive(Debug)]
pub struct ScrapedData {
    pub items: Vec<ScrapedItem>,
}

/// The scraped elements flattened into one text: each element's text, a
/// separating space, and — for anchors — the link target in parentheses.
pub open spec fn spec_combined_text(items: Seq<(Seq<char>, Option<Seq<char>>)>) -> Seq<char>
    decreases items.len(),
{
    if items.len() == 0 {
        Seq::empty()
    } else {
        spec_combined_text(items.drop_last()) + items.last().0 + " "@ + (match items.last().1 {
            Some(l) => "("@ + l + ")"@,
            None => Seq::empty(),
        })
    }
}

/// The window of scraped content one tool reply carries: the flattened text
/// from `seek_pos` on, at most `len` characters of it, with the count of
/// characters still remaining after the window.
pub fn compress_content(content: &ScrapedData, seek_pos: usize, len: usize) -> (r: String)
    ensures
        ({
            let combined = spec_combined_text(content.items.deep_view());
            if seek_pos >= combined.len() {
                r@ == "...<0 characters remaining>"@
            } else {
                let end = if len <= combined.len() - seek_pos {
                    seek_pos + len
                } else {
                    combined.len() as int
                };
                r@ == combined.subrange(seek_pos as int, end) + "...<"@ + spec_u64_digits(
                    (combined.len() - end) as u64,
                ) + " characters remaining>"@
            }
        }),
{
    let mut combined = String::new();
    let n = content.items.len();
    for i in 0..n
        invariant
            n == content.items@.len(),
            combined@ == spec_combined_text(content.items.deep_view().take(i as int)),
    {
        proof {
            assert(content.items.deep_view().take(i + 1).drop_last()
                =~= content.items.deep_view().take(i as int));
            assert(content.items.deep_view().take(i + 1).last()
                == content.items.deep_view()[i as int]);
        }
        combined.append(content.items[i].text.as_str());
        combined.append(" ");
        match &content.items[i].link {
            Some(l) => {
                combined.append("(");
                combined.append(l.as_str());
                combined.append(")");
            },
            None => {},
        }
    }
    proof {
        assert(content.items.deep_view().take(n as int) =~= content.items.deep_view());
    }
    let total = combined.as_str().unicode_len();
    if seek_pos >= total {
        return String::from_str("...<0 characters remaining>");
    }
    let end = if len <= total - seek_pos {
        seek_pos + len
    } else {
        total
    };
    let sliced = combined.as_str().substring_char(seek_pos, end);
    let mut r = String::from_str(sliced);
    r.append("...<");
    let digits = u64_to_string((total - end) as u64);
    r.append(digits.as_str());
    r.append(" characters remaining>");
    r
}

} // verus!
