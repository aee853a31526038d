//! Doubly linked list nodes.
use vstd::prelude::*;
use crate::types::Addr;

verus! {

/// A node of a zsh linked list.
#[derive(Clone, Copy, Debug)]
pub struct linknode {
    pub next: Addr,
    pub prev: Addr,
    pub dat: Addr,
}

impl linknode {
    /// The `next` link of the node; null at the end of the list.
    pub fn nextnode(&self) -> (r: Addr)
        ensures
            r == self.next,
    {
        self.next
    }

    /// The `prev` link of the node.
    pub fn prevnode(&self) -> (r: Addr)
        ensures
            r == self.prev,
    {
        self.prev
    }
}

} // verus!
