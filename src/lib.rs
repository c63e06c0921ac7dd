//! Driver-compatibility core: canonical error codes, device records, the
//! process-scoped device registry and the driver facade (`init`,
//! `get_version`, `device`), over a pluggable vendor backend.
pub mod backend;
pub mod device;
pub mod driver;
pub mod name;
pub mod state;
pub mod status;
