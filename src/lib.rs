//! Pipeline execution engine for situational load generation: typed actions,
//! validators and combinators over HTTP responses, a script bridge, and the
//! per-grunt state machine that runs a persona's action sequence.

pub mod config_duration;
pub mod text;
pub mod pipe_contents;
pub mod combinator;
pub mod http;
pub mod pipeline;
pub mod pipeline_action;
pub mod validator;
pub mod lua;
pub mod persona;
pub mod grunt;
pub mod situation;
