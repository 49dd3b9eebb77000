//! On-demand image transformation gateway: the request-to-cached-artifact
//! pipeline.
//!
//! A request names an image and what is to be done to it. The library reads
//! and checks the request ([`query`], [`auth`], [`request`]), derives the key
//! of the transformed image in the cache ([`canonical`], [`cache_key`]),
//! decides the course of the request between cache, storage, face detection
//! and image library ([`flow`]), and says what the image library is asked
//! for ([`transform`], [`geometry`]). The storage, the face detection and
//! the image library themselves work outside the library.

pub mod auth;
pub mod cache_key;
pub mod canonical;
pub mod decimal;
pub mod digest;
pub mod errors;
pub mod flow;
pub mod format;
pub mod geometry;
pub mod params;
pub mod query;
pub mod ratio;
pub mod request;
pub mod response;
pub mod settings;
pub mod text;
pub mod transform;
