//! Guest-side logic of a sandboxed module that calls capabilities of its host.
//!
//! `boundary` holds the two-phase call protocol: the length handed over with a
//! request, the receive capacity taken from the host's reported size, and the
//! clamped, recoverable interpretation of what the host wrote back. `http`
//! describes structured requests for the host's `http` capability, `marshal`
//! derives and encodes the structured result, and `json` and `text` hold the
//! encoding and character-level helpers they share.
use vstd::prelude::*;

pub mod boundary;
pub mod http;
pub mod json;
pub mod marshal;
pub mod text;

pub use marshal::{ProcessResult, process_complex_types_json};
pub use text::say;

verus! {

} // verus!
