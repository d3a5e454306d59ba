//! The action algebra under the names a configuration uses for its parts.

pub use crate::combinator::Action as Combinator;
pub use crate::http::Action as Http;
pub use crate::pipeline::action::{ConfigActionMap, ControlFlow, PipelineAction, Reference};
pub use crate::validator::Action as Validator;
