use vstd::prelude::*;
use vstd::slice::slice_to_vec;
use vstd::string::StringSliceAdditionalSpecFns;

verus! {

/// A reference to an upstream cluster, as the bytes that the host takes
/// for it.
#[derive(Debug, Clone)]
pub struct Upstream(pub Vec<u8>);

impl Upstream {
    /// The reference that names no cluster.
    pub fn empty() -> (r: Upstream)
        ensures
            r.0@ == Seq::<u8>::empty(),
    {
        Upstream(Vec::new())
    }

    /// The reference whose bytes are those of `value`.
    pub fn from_name(value: &str) -> (r: Upstream)
        ensures
            r.0@ == value.spec_bytes(),
    {
        Upstream(slice_to_vec(value.as_bytes()))
    }
}

impl Default for Upstream {
    fn default() -> (r: Upstream)
        ensures
            r.0@ == Seq::<u8>::empty(),
    {
        Upstream(Vec::new())
    }
}

impl From<Vec<u8>> for Upstream {
    fn from(value: Vec<u8>) -> (r: Upstream) {
        Upstream(value)
    }
}

impl vstd::std_specs::convert::FromSpecImpl<Vec<u8>> for Upstream {
    open spec fn obeys_from_spec() -> bool {
        true
    }

    open spec fn from_spec(value: Vec<u8>) -> Upstream {
        Upstream(value)
    }
}

} // verus!
