//! Argument construction for a segmenting media transcoder: each profile
//! decides whether it can serve a request and, if so, produces the exact
//! ordered argument list for the external engine.

pub mod context;
pub mod error;
pub mod profiles;
pub mod text;
