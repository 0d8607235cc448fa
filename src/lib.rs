//! Lookup bridge between the host's user-identity lookups and a remote
//! identity authority: wire-to-local record mapping, the login-daemon
//! ancestry hint sent with name lookups, and the mapping of replies to the
//! outcomes the host understands.
pub mod ancestry;
pub mod bridge;
pub mod record;
