use vstd::prelude::*;

verus! {

/// The kind of an agent message as stored.
#[derive(Debug, Clone, Copy, PartialEq, Eq, Structural)]
pub enum MessageType {
    User,
    Step,
    Assistant,
}

/// The stored label of a message kind.
pub open spec fn label_of(t: MessageType) -> Seq<char> {
    match t {
        MessageType::User => "user"@,
        MessageType::Step => "step"@,
        MessageType::Assistant => "assistant"@,
    }
}

impl MessageType {
    /// The stored label of this message kind.
    pub fn as_str(&self) -> (r: &'static str)
        ensures
            r@ == label_of(*self),
    {
        match self {
            MessageType::User => "user",
            MessageType::Step => "step",
            MessageType::Assistant => "assistant",
        }
    }
}

} // verus!
