//! Capture a piece of writing in an editor and file it into a note
//! collection (a "garden") under a name taken from its own heading.

pub mod error;
pub mod naming;
pub mod negotiate;
pub mod session;
pub mod title;

pub use error::GardenVarietyError;
pub use title::title_from_content;
