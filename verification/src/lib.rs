//! Core of a push-to-talk transcription pipeline: audio capture sessions,
//! sample-rate conversion planning, recognizer loading with a software
//! fallback, and the tri-state controller that sequences them.
//!
//! Everything here is pure logic over plain values. Device I/O, the FFT
//! resampler, the speech engine and the GUI shell live outside the library
//! and talk to it through the functions defined in these modules.

use vstd::prelude::*;

pub mod audio;
pub mod config;
pub mod resample;
pub mod gpu;
pub mod state;
pub mod transcribe;

verus! {

/// The view of an optional value: `Some` becomes the inner view.
pub open spec fn opt_view<T: View>(o: Option<T>) -> Option<T::V> {
    match o {
        Some(x) => Some(x@),
        None => None,
    }
}

/// The view of a result: each side becomes its inner view.
pub open spec fn result_view<T: View, E: View>(r: Result<T, E>) -> Result<T::V, E::V> {
    match r {
        Ok(t) => Ok(t@),
        Err(e) => Err(e@),
    }
}

/// Character-for-character equality of two strings.
pub(crate) fn str_eq(a: &str, b: &str) -> (r: bool)
    ensures
        r == (a@ == b@),
{
    a.to_owned() == b.to_owned()
}

} // verus!
