//! Tools owned by the persona's brain: its in-memory store and the shapes
//! scraped web content is reduced to.

pub mod memory;
pub mod web_scraper;
