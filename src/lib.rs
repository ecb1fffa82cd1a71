//! Object inspection and view composition: values wrapped into objects carry
//! the views registered for their type, views compute their content on demand,
//! and a session-scoped registry keeps inspected objects alive for a remote client.
pub mod capability;
pub mod computation;
pub mod extensions;
pub mod object;
pub mod render;
pub mod server;
pub mod session;
pub mod specification;
pub mod text;
pub mod value;
pub mod views;
