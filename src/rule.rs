use vstd::prelude::*;

verus! {

/// What a rule decides for a packet; a jump or a goto names the target chain.
#[derive(Debug, Clone)]
pub enum Verdict {
    Accept,
    Drop,
    Queue,
    Continue,
    Return,
    Jump(String),
    Goto(String),
}

} // verus!
