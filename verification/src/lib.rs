//! A publishing backend core: renders structured post content into a
//! front-matter-prefixed markdown document, classifies multipart upload
//! fields, and plans a single commit of the result either to a remote
//! content API or to local storage.

pub mod demux;
pub mod jsonfmt;
pub mod models;
pub mod numfmt;
pub mod paths;
pub mod publish;
pub mod render;
