//! Verified decision logic of the Android JNI bridge to a VNC server: the
//! checks on what Java hands over, the routing of server events to Java
//! callbacks, client lookups, the bridge's own state machine and the native
//! method registration sequence.

pub mod params;
pub mod callbacks;
pub mod clients;
pub mod session;
pub mod natives;
pub mod registration;
