//! A typed extraction and dispatch core.
//!
//! A dispatcher owns an ordered collection of service units.  Each unit binds
//! one handler to the knowledge of how to rebuild that handler's parameter
//! list from a raw request: every declared parameter type has an extractor, a
//! pure, fallible conversion from the request payload to a typed value.  At
//! dispatch time the units run in registration order; a unit whose extraction
//! fails is skipped, and its failure never disturbs the units around it.

pub mod dispatcher;
pub mod extract;
pub mod handler;
pub mod laws;
pub mod parse;
pub mod request;
pub mod value;

pub use dispatcher::App;
pub use dispatcher::ServiceWrapper;
pub use extract::ComposeError;
pub use extract::extract;
pub use extract::extract_params;
pub use handler::Handler;
pub use handler::RecordingHandler;
pub use parse::ExtractError;
pub use parse::parse_u32;
pub use parse::parse_u64;
pub use request::Request;
pub use value::ParamTy;
pub use value::Value;
pub use value::ValueView;
