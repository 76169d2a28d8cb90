//! A source file fetcher: given a module specifier it produces the decoded
//! source text with its media type, mediating between local files, data URLs,
//! blob objects and remote HTTP, with an in-memory and a persistent cache.

pub mod auth_tokens;
pub mod cache_setting;
pub mod content_type;
pub mod data_url;
pub mod decode;
pub mod error;
pub mod fetch_once;
pub mod file;
pub mod file_cache;
pub mod file_fetcher;
pub mod freshness;
pub mod headers;
pub mod http_cache;
pub mod media_type;
pub mod permissions;
pub mod remote;
pub mod specifier;
pub mod string_map;
pub mod text;
pub mod worker;

pub use cache_setting::CacheSetting;
pub use content_type::map_content_type;
pub use data_url::get_source_from_data_url;
pub use decode::get_source_from_bytes;
pub use file::File;
pub use file_fetcher::{FetchOptions, FileFetcher};
pub use specifier::Specifier;
