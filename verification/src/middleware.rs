//! Middleware layers that wrap a transport.

pub mod yup_oauth2;
