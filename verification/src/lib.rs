use vstd::prelude::*;

pub mod cached_scraper_db;
pub mod config;
pub mod dlsite;
pub mod dlsite_scraper;
pub mod json_value;
pub mod renamer;
pub mod scaner;
pub mod text;
pub mod work_metadata;

verus! {
} // verus!
