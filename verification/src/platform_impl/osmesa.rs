use vstd::prelude::*;
use crate::api::Api;

verus! {

/// An off-screen context rendered by OSMesa: the address of its
/// `OSMesaContext` object.
#[derive(Clone, Copy, Debug, PartialEq, Eq)]
pub struct OsMesaContext {
    pub handle: usize,
    pub api: Api,
}

} // verus!
