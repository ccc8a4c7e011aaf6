use vstd::prelude::*;

verus! {

/// An append-only sink for finished battle lines. The engine flushes a
/// batch of lines into it per discrete action; what the sink does with
/// them is its own business.
pub trait MessageOutput {
    fn output(&mut self, message: &str);
}

} // verus!
