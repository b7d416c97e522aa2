use vstd::prelude::*;

verus! {

/// What one inference run hands back: the activations of the output
/// layer, in neuron order.
#[derive(Clone, Debug, PartialEq)]
pub struct RunResults<U> {
    pub output: Vec<U>,
}

impl<U> RunResults<U> {
    /// The output activations.
    pub fn output(&self) -> (r: &Vec<U>)
        ensures
            r == &self.output,
    {
        &self.output
    }
}

} // verus!
