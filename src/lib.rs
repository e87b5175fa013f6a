//! Theme layer of a static-site generator: decodes front matter into typed
//! site and page metadata, and composes that metadata with pre-rendered
//! content into HTML pages and feed fragments.

pub mod error;
pub mod link;
pub mod markup;
pub mod meta;
pub mod person;
pub mod render_laws;
pub mod renderer;
pub mod text;
pub mod yaml;

pub use error::{invert, DecodeError};
pub use link::{parse_links, Link};
pub use markup::{Markup, Token};
pub use meta::{parse_person, EntryMeta, LayoutMeta, SourceMeta};
pub use person::{Key, Person};
pub use renderer::{Date, Index, IndexEntry, MyGazetta, Page, PageMeta, Paginate, Site};
pub use text::{is_blank, slugify};
pub use yaml::{Mapping, Yaml};
