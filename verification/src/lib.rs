//! Verified core of a marketplace runtime for untrusted web applications:
//! a policy/permission registry deciding what an app may do, a per-app
//! sandbox enforcing those decisions and holding app-scoped state, and a
//! protocol bridge carrying structured requests between sandboxes and
//! out-of-process services.

pub mod bridge;
pub mod client;
pub mod codec;
pub mod folders;
pub mod logging;
pub mod registry;
pub mod sandbox;
pub mod textutil;
pub mod updater;
