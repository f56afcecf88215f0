//! Bounded sample accumulation and capture-session control for a live
//! system-audio source.
//!
//! Samples are carried as IEEE-754 single-precision bit patterns (`u32`),
//! so the library moves and selects them exactly; the conversion from the
//! platform's native encodings happens where the platform hands them over.
pub mod ring;
pub mod snapshot;
pub mod session;
pub mod device;
pub mod planes;
