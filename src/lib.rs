//! The verified core of a real-time shader host: the byte layout of the
//! per-frame shader parameters, the lifecycle of a rendering session, and the
//! event-driven controller that sequences configuration, uniform updates and
//! frame submission.
pub mod uniform;
pub mod session;
pub mod controller;
pub mod format;
