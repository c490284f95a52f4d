//! Raw camera image ingestion: container detection, TIFF/Exif metadata,
//! Sony ARW decoders, Bayer demosaic planning and orientation correction.
use vstd::prelude::*;

pub mod endian;
pub mod ifd;
pub mod exif;
pub mod tags;
pub mod tiff;
pub mod sony_decoder;
pub mod bitstream;
pub mod demosaic;
pub mod transform;
pub mod load;

verus! {

} // verus!
