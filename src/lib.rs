//! Conversion between binary game archives (SARC), directory trees and ZIP
//! containers, and listing of an archive's contents.
use vstd::prelude::*;

pub mod codec;
pub mod convert;
pub mod error;
pub mod laws;
pub mod listing;
pub mod model;
pub mod text;

verus! {

/// The converter between binary archives, directory trees and ZIP
/// containers; its operations are the free functions of this crate.
pub struct SarcConverter;

} // verus!
