//! Host-side driver logic for a USB vector-laser display: the sample wire
//! format, the control command protocol, batching for the bulk endpoint,
//! animation sequencing and endpoint discovery.

pub mod animation;
pub mod device;
pub mod protocol;
pub mod sample;
pub mod stream;

pub use animation::{Animation, Frame};
pub use device::OpenError;
pub use protocol::{Buf, BusError};
pub use sample::{LaserdockSample, SampleView, XY, XY_MAX};
pub use stream::{batches, encode_samples};

use vstd::prelude::*;

verus! {

/// Largest transfer the device's endpoints take at once, in bytes.
pub const BYTES_PER_BATCH: usize = 64;

/// Size of one sample's wire record, in bytes.
pub const SAMPLE_SIZE: usize = 8;

/// Samples that fit in one transfer.
pub const SAMPLES_PER_BATCH: usize = BYTES_PER_BATCH / SAMPLE_SIZE;

} // verus!
