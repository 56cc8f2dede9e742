//! Verification and decoding of signed bearer tokens (JWT-style), with key
//! resolution from a fixed secret, a static key set, or a fetched JWKS
//! document.
//!
//! The crate is organised leaf-first: `exceptions` holds the error taxonomy,
//! `json` a model of JSON documents, `codec` the trusted byte-level codecs,
//! `b64tools` the base64url spellings of UUID values, `schemas` the data
//! shapes (keys, header, claims, configuration), `jwks` the key-set fetcher
//! logic and cache, and `resolver` the token verifier and the configuration
//! resolver.

pub mod b64tools;
pub mod codec;
pub mod exceptions;
pub mod json;
pub mod jwks;
pub mod resolver;
pub mod schemas;
