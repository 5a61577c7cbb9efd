//! Second-factor login driver: issues a remote challenge, delivers it by push
//! notification or by a code rendered for the terminal, polls for a signed
//! response, and validates it before granting access.

pub mod config;
pub mod driver;
pub mod matrix;
pub mod presence;
pub mod qr_term;
