//! Surface pools, stage parameters, bitstream handling and the frame-by-frame
//! driver of a two-stage (video processing, then encode) media pipeline.
#![allow(non_camel_case_types)]
#![allow(non_snake_case)]

pub mod bitstream;
pub mod constants;
pub mod driver;
pub mod params;
pub mod pool;
pub mod types;
pub mod utils;
