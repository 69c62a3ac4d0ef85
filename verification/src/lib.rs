//! Weather lookups for a named place, from one of two weather services.
//!
//! The library holds the pure part of a weather client: which request to make for a
//! stored credential, how a status code is judged, how each service's answer becomes
//! one common [`providers::Weather`], and how a wind direction is drawn. All of it is
//! verified. Reading files, talking to the network and arithmetic on measured values
//! are left to the program around it.
//!
//! - `cli`: the provider choice, the requested date and its parsing.
//! - `configure`: the credential record built from what the user typed.
//! - `error`: the error kinds.
//! - `get`: request planning, status checks and the wind direction symbol.
//! - `measure`: measured quantities, carried but never computed with.
//! - `providers`: the credential record, the two services and the normalisation.
//! - `text`: decimal rendering and trimming, on sequences of characters.

pub mod cli;
pub mod configure;
pub mod error;
pub mod get;
pub mod measure;
pub mod providers;
pub mod text;
