//! Who wrote a message.

use vstd::prelude::*;

verus! {

/// The author of a message: a person, or the model.
#[derive(Clone, Copy, Debug, PartialEq, Eq)]
pub enum MessageType {
    HumanMessage,
    AIMessage,
}

} // verus!
