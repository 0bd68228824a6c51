//! Progress of an upload, as reported to the user interface.
use vstd::prelude::*;

verus! {

#[derive(Debug, Clone, Copy, PartialEq, Eq, Structural)]
pub enum Progress {
    Starting,
    Compressing,
    Uploading,
}

} // verus!
