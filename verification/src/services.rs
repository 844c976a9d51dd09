//! The operations on an attempt: what a caller asks for, applied to the
//! record that the caller has loaded and will store.

pub mod simulado_service;
