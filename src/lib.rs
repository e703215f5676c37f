//! Browser automation and product extraction: the action vocabulary, the
//! task-plan engine, the extraction tool server and the tool-calling loop.
pub mod text;
pub mod json;
pub mod types;
pub mod codec;
pub mod engine;
pub mod html;
pub mod product;
pub mod server;
pub mod conversation;
pub mod planner;
pub mod executor;
pub mod registry;
