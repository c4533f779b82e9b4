//! Names, paths and file errors for the controller's storage card, and the
//! port arithmetic of its ADI devices, with their behaviour proved.

pub mod fs_str;
pub mod path;
pub mod fs;
pub mod adi;
