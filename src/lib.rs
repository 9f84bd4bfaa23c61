//! A request document for a streaming service's tariffs and gifts: its schema,
//! its field codecs, and its decoding from and encoding to a generic document tree.
pub mod date_tag;
pub mod decode;
pub mod duration;
pub mod encode;
pub mod field;
pub mod ident;
pub mod laws;
pub mod node;
pub mod schema;
