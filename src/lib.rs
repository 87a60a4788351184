//! Audio analysis core of a music visualizer: the integer and structural
//! parts of the pipeline that turns decoded PCM into per-frame frequency bars,
//! and the state that answers the renderer's per-frame queries.

pub mod audio;
pub mod bands;
pub mod bins;
pub mod percentile;
pub mod segment;
pub mod state;
