//! The kernel heap: a free list of memory regions, each headed by a node that records
//! where the region starts and how large it is.
use vstd::prelude::*;

verus! {

/// A free region: its start address, its size, and the next free region.
#[allow(dead_code)]
struct AllocatorNode {
    start: usize,
    size: usize,
    next: Option<Box<AllocatorNode>>,
}

/// The free regions of a list, in order, as (start, size) pairs.
spec fn regions_of(node: Option<Box<AllocatorNode>>) -> Seq<(usize, usize)>
    decreases node,
{
    match node {
        None => Seq::empty(),
        Some(n) => seq![(n.start, n.size)] + regions_of(n.next),
    }
}

#[allow(dead_code)]
impl AllocatorNode {
    /// A region of `size` bytes at `start`, with no successor.
    fn new(start: usize, size: usize) -> (r: Self)
        ensures
            r.start == start,
            r.size == size,
            r.next is None,
    {
        AllocatorNode { start, size, next: None }
    }

    fn start_addr(&self) -> (r: usize)
        ensures
            r == self.start,
    {
        self.start
    }

    /// The address just past the region.
    fn end_addr(&self) -> (r: usize)
        requires
            self.start + self.size <= usize::MAX,
        ensures
            r == self.start + self.size,
    {
        self.start_addr() + self.size
    }
}

/// The kernel heap allocator.
pub struct Allocator {
    head: AllocatorNode,
}

impl View for Allocator {
    /// The free regions after the list head, as (start, size) pairs.
    type V = Seq<(usize, usize)>;

    closed spec fn view(&self) -> Seq<(usize, usize)> {
        regions_of(self.head.next)
    }
}

impl Allocator {
    /// An allocator with no free memory: a head node of size zero and nothing after it.
    pub fn new() -> (r: Self)
        ensures
            r@ == Seq::<(usize, usize)>::empty(),
            r.head_size() == 0,
    {
        Allocator { head: AllocatorNode::new(0, 0) }
    }

    /// Size of the region the list head records.
    pub closed spec fn head_size(&self) -> usize {
        self.head.size
    }
}

} // verus!
