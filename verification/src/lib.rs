//! Verified core of a scraper for the CaptainFact fact-checking platform.
//!
//! The library holds the data model received from the CaptainFact API, the
//! conversions of that data into database records, the requests sent on the
//! CaptainFact websocket, the decisions taken while scraping (paging, retries,
//! the order in which comments are stored) and the pure parts of the small web
//! front-end that lists the scraped videos and speakers.
pub mod data;
pub mod errors;
pub mod model;
pub mod request;
pub mod scrape;
pub mod sorting;
pub mod time;
pub mod web;
