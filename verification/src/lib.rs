//! The logic of an inline AI edit: a selected snippet is sent to the `pi`
//! command with a request, the proposed replacement is reviewed, and it is
//! applied to the document or discarded.

pub mod chat;
pub mod display;
pub mod edit;
pub mod json;
pub mod laws;
pub mod layout;
pub mod model;
pub mod process;
pub mod reader;
pub mod request;
pub mod response;
pub mod screen;
pub mod slot;
pub mod text;
