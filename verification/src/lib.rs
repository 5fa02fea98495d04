//! Turns a web article into a self-contained e-book.
//!
//! The crate holds the decisions of the conversion: which address an image
//! reference stands for, under which name a fetched payload is stored, what
//! the packaged document contains, and in which order the outside work is
//! done. Network, file system and the extractor process are left to the
//! caller, which is told what to do one step at a time.

pub mod article;
pub mod document;
pub mod failure;
pub mod fetcher;
pub mod pipeline;
pub mod resolver;
pub mod web_url;

pub use article::Article;
pub use document::assemble;
pub use document::Document;
pub use document::StoredImage;
pub use failure::Failure;
pub use failure::ReferenceFault;
pub use failure::RequiredField;
pub use fetcher::Downloader;
pub use fetcher::FetchMode;
pub use fetcher::Payload;
pub use fetcher::StoreOrder;
pub use pipeline::Action;
pub use pipeline::Conversion;
pub use pipeline::Event;
pub use pipeline::Outcome;
pub use pipeline::Stage;
pub use resolver::resolve_images;
pub use web_url::PageUrl;
pub use web_url::UrlRejection;
