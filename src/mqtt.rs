use vstd::prelude::*;

verus! {

/// A message received on the control-plane subscription.
#[derive(Debug, Clone)]
pub struct ResponseMqtt {
    pub topic: String,
    pub message: String,
}

} // verus!
