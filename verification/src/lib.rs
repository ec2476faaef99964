//! Resumable, polite crawler core for serialized web fiction: two sites,
//! one canonical book, and the decisions of the writers that turn a book
//! into a file.

pub mod cli;
pub mod config;
pub mod epub;
pub mod formats;
pub mod model;
pub mod scraper;
pub mod text;

pub use epub::{EpubError, EpubVersion};
pub use formats::{FormatError, OutputFormat};
pub use scraper::{
    resolve_site, EmptyChapterBehavior, PoliteClient, PoliteClientBuilder, ScrapeOptions,
    ScraperError, Site,
};
