//! The shapes scraped web content is reduced to before the model sees it.

use vstd::prelude::*;

verus! {

/// One extracted element: its text and, for anchors, the link target.
#[derive(Debug)]
pub struct ScrapedItem {
    pub text: String,
    pub link: Option<String>,
}

/// Everything one scrape extracted, in document order.
#[derive(Debug)]
pub struct ScrapedData {
    pub items: Vec<ScrapedItem>,
}

} // verus!
