//! A single-writer, multi-reader cell built on double buffering: two copies of
//! the value, an operation log, and an epoch-based quiescence tracker let
//! readers observe a consistent published value while the writer mutates its
//! private copy and publishes in batches.

pub mod cell;
pub mod handles;
pub mod epoch;
pub mod ops;

pub use cell::Cell;

pub use epoch::Epoch;
pub use epoch::Side;
pub use epoch::Tracker;
pub use ops::Dup;
pub use ops::Op;
pub use handles::ReadGuard;
pub use handles::ReadHandle;
pub use handles::WriteHandle;
pub use handles::new;
