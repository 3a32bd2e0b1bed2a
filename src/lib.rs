//! Loading camera RAW files through a native decoding session.
//!
//! The native library is reached from the application side; this crate holds
//! the decisions of a load (path validation, status checks, buffer checks and
//! the release discipline of the native handle) as a verified state machine.

mod lifecycle;
mod loader;
mod pixels;

pub use loader::{
    assemble, begin, buffer_fits, release_pending, transition, DecodeReport, LoadAction, LoadError,
    LoadEvent, LoadState,
};
pub use lifecycle::{
    handles_obtained, is_run, lemma_decode_failure, lemma_finished_image_wf, lemma_open_failure,
    lemma_release_balance, lemma_successful_load, releases,
};
pub use pixels::{image_dimensions, image_samples, invert_sample, ImageResult, RgbPixels, libraw_data_t, libraw_image_sizes_t};
