//! Verified core of a streaming HTTP sink: an immutable request template is
//! built once from configuration; for every incoming record a concrete request
//! is derived from it (query parameters extracted from the record's fields,
//! body set to the record text) and the outcome of the send is classified,
//! without the carried template ever being mutated.

pub mod params;
pub mod sink;
pub mod strutil;
pub mod template;
