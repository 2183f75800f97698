use vstd::prelude::*;
use crate::geometry::FracPoint;
use crate::node::NodeId;

verus! {

/// What a connection carries: the output port it leaves from, counted on the
/// node it starts at, and the input port it arrives at, counted on the node
/// it ends at.
#[derive(Clone, Copy, Debug, PartialEq, Eq, Structural)]
pub struct Edge {
    pub start: usize,
    pub end: usize,
}

impl Edge {
    pub fn new(start: usize, end: usize) -> (edge: Edge)
        ensures
            edge.start == start,
            edge.end == end,
    {
        Edge { start, end }
    }
}

/// A connection: from output port `edge.start` of node `source` to input
/// port `edge.end` of node `target`.
#[derive(Clone, Copy, Debug, PartialEq, Eq, Structural)]
pub struct Link {
    pub source: NodeId,
    pub target: NodeId,
    pub edge: Edge,
}

/// A connection as the graph store holds it: between the places at which it
/// holds the two nodes.
#[derive(Clone, Copy, Debug, PartialEq, Eq, Structural)]
pub struct Wire {
    pub source: u32,
    pub target: u32,
    pub edge: Edge,
}

impl Wire {
    /// Whether the wire starts or ends at the node held at `index`.
    pub open spec fn touches(self, index: u32) -> bool {
        self.source == index || self.target == index
    }
}

impl Link {
    /// The link as the store holds it.
    pub open spec fn wire(self) -> Wire {
        Wire { source: self.source.index, target: self.target.index, edge: self.edge }
    }
}

/// The link from output port `output` of `source` to input port `input` of
/// `target`.
pub open spec fn link_of(source: NodeId, output: usize, target: NodeId, input: usize) -> Link {
    Link { source, target, edge: Edge { start: output, end: input } }
}

/// A line to draw, from `start_pos` to `end_pos`.
#[derive(Clone, Copy, Debug, PartialEq, Eq, Structural)]
pub struct Connection {
    pub start_pos: FracPoint,
    pub end_pos: FracPoint,
}

} // verus!
