//! Verified core of a safe interface to the LimeSuite SDR library.
//!
//! The library's own decisions (how a status code of a LimeSuite call becomes
//! a `Result`, how names and lists coming back from the device are decoded
//! and filtered, how the public enumerations map to the C values) are proved
//! here. The calls into `libLimeSuite` themselves are made by the caller,
//! which hands the raw replies to the functions of this crate.

pub mod bindings;
pub mod error;
pub mod text;
pub mod device;
