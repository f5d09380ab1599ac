//! Card-creation domain service.
//!
//! Converts an untrusted, flatly-typed card request into a validated,
//! fully-populated card record, or rejects it with a precise field-level
//! error. Field validation rules, entity construction through injected
//! identity/time/number generators, and the first-failure-wins validation
//! pipeline are all verified; the HTTP transport around them is not part
//! of this library.

pub mod checks;
pub mod domain;
pub mod instant;
pub mod protocol;
pub mod text;
