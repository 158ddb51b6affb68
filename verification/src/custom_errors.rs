//! Error kinds shared by every operation of the lending core.

pub mod app_error;
