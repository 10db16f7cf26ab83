use vstd::prelude::*;

verus! {

/// Encoded bytes handed back by the engine.
#[derive(Clone, Debug)]
pub struct VipsOutput(pub Option<Vec<u8>>);

/// The bytes of an output; one that holds none yields none.
pub open spec fn output_bytes(o: VipsOutput) -> Seq<u8> {
    match o.0 {
        Some(b) => b@,
        None => Seq::empty(),
    }
}

impl From<Vec<u8>> for VipsOutput {
    fn from(buf: Vec<u8>) -> (r: Self) {
        VipsOutput(Some(buf))
    }
}

impl vstd::std_specs::convert::FromSpecImpl<Vec<u8>> for VipsOutput {
    open spec fn obeys_from_spec() -> bool {
        true
    }

    open spec fn from_spec(buf: Vec<u8>) -> Self {
        VipsOutput(Some(buf))
    }
}

impl VipsOutput {
    /// The bytes held.
    pub fn into_bytes(self) -> (r: Vec<u8>)
        ensures
            r@ == output_bytes(self),
    {
        match self.0 {
            Some(b) => b,
            None => Vec::new(),
        }
    }
}

} // verus!
