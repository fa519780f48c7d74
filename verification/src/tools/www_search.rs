//! The result shape of a web search. Querying and HTML extraction happen at
//! the process edge; the runtime only carries these plain values.

use vstd::prelude::*;

verus! {

/// One search hit: the result's title and the link it points at.
#[derive(Debug)]
pub struct BingSearchResult {
    pub title: String,
    pub link: String,
}

} // verus!
