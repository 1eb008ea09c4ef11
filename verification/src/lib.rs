//! Client-side model of one image-compression job.

use vstd::prelude::*;

pub mod address;
pub mod client;
pub mod convert;
pub mod decode;
pub mod error;
pub mod http;
pub mod laws;
pub mod operations;
pub mod resize;
pub mod result;
pub mod source;
pub mod text;
pub mod tinify;
pub mod transform;

