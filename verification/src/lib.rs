//! A verified session and firmware-transfer core for a wireless peripheral.
//!
//! The library models one logical session with a peripheral reached over a
//! short-range radio link: discovery filtering, the connect/disconnect state
//! machine with its per-role characteristic bindings, battery bookkeeping,
//! and the chunked firmware-transfer protocol with its progress reports.
//! The radio link and the host shell are collaborators outside the library:
//! a caller performs each radio operation and hands its outcome back to the
//! decision functions here, which are verified for every possible outcome.

pub mod ids;
pub mod errors;
pub mod discovery;
pub mod session;
pub mod transfer;
