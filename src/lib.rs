//! A multi-provider language-model runner: model identifiers, provider
//! identities, executor routing, cost estimation and stream relaying.
pub mod error;
pub mod strings;
pub mod env;
pub mod provider;
pub mod model_id;
pub mod runner;
pub mod costs;
pub mod stream;
pub mod node;
pub mod messages;
