use vstd::prelude::*;
use crate::api::{Api, PixelFormat};

verus! {

/// A framebuffer configuration chosen on a display: the API it serves and
/// the format of its pixels.
#[derive(Clone, Copy, Debug, PartialEq, Eq)]
pub struct Config {
    pub api: Api,
    pub pixel_format: PixelFormat,
}

} // verus!
