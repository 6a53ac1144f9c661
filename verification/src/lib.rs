//! Structured information about a web page: title, description, language,
//! canonical URL, feed, meta table, Opengraph objects, Schema.org records,
//! visible text and links, gathered in one walk over the parsed document.

pub mod dom;
pub mod html;
pub mod http;
pub mod json;
pub mod opengraph;
pub mod options;
pub mod parser;
pub mod resolver;
pub mod schema_org;
pub mod string_map;
pub mod text;
pub mod visible_text;

pub use html::{Link, HTML};
pub use http::HTTP;
pub use opengraph::{Opengraph, OpengraphObject};
pub use options::WebpageOptions;
pub use schema_org::SchemaOrg;
