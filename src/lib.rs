//! Request-authorization filter logic: the field decoder, the configuration
//! store of the root context, and the per-request authorization state machine.
pub mod decode;
pub mod proxy;
