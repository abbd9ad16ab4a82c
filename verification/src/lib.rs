//! Turns a captured web page into a picture that carries a QR code of the
//! page's address in its bottom-right corner.
//!
//! The crate holds everything between the browser and the disk: it checks the
//! arguments, decodes the captured screenshot, renders the QR symbol, lays it
//! over the screenshot and encodes the result. Driving the browser and
//! writing the file are left to the caller.
//!
//! - [`validate`] checks the URL and the output path.
//! - [`paths`] and [`format`] read the extension of the output path.
//! - [`raster`] holds pictures and lays one over another.
//! - [`pipeline`] runs the stages in order and reports the first that fails.
//! - [`error`] names the failures.
//! - [`backend`] holds the calls into other crates, whose contracts are
//!   assumed.

pub mod backend;
pub mod error;
pub mod format;
pub mod paths;
pub mod pipeline;
pub mod raster;
pub mod validate;
