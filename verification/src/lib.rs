//! Extraction of the application icon from an Android package.
//!
//! The core is [`resolve::resolve`]: given an opened package and what its
//! manifest says, it decides which bytes are the icon. Launcher bitmaps are
//! preferred by density, from the highest down, and by path within a density;
//! the manifest's icon is the fallback, and an XML descriptor is never taken.

pub mod archive;
pub mod bytes;
pub mod density;
pub mod extract;
pub mod manifest;
pub mod resolve;
pub mod scan;
