//! Central-role BLE session core: device registry, scan controller,
//! connection session, notification routing and adapter event handling,
//! expressed as verified state transitions that an async driver performs.
use vstd::prelude::*;

pub mod address;
pub mod batch;
pub mod error;
pub mod handler;
pub mod laws;
pub mod models;
pub mod registry;
pub mod text;

pub use error::Error;
pub use handler::Handler;

verus! {

/// Whether the platform lets the application use BLE. Desktop platforms
/// need no runtime permission, so the answer is always yes there.
pub fn check_permissions() -> (r: Result<bool, Error>)
    ensures
        r == Ok::<bool, Error>(true),
{
    Ok(true)
}

} // verus!
