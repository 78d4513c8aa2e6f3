//! Verified decoders for the binary asset formats of a terrain and 3D
//! simulation engine. The centre is a lazy, resolution-indexed reader of
//! compiled models (ODOL): the header is decoded once, and each level of
//! detail is decoded on request from the byte range that the header records.


pub mod error;
pub mod codec;
pub mod enums;
pub mod index_array;
pub mod versions;
pub mod lod;
pub mod body;
pub mod model;
pub mod odol;
pub mod reader;
pub mod paa;
pub mod laws;
