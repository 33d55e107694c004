//! Parsing and normalisation of weather feeds for a collection-day dashboard: an RSS/Atom feed
//! of Environment Canada is read into one weather record, with the decisions of fetching with
//! retries, the display text of forecasts, and the collection-day rules beside it.

pub mod text;
pub mod numbers;
pub mod model;
pub mod icon;
pub mod forecast;
pub mod current;
pub mod feed;
pub mod retry;
pub mod display;
pub mod bins;
pub mod props;
pub mod mock;
pub mod json;
pub mod geomet;
