use vstd::prelude::*;
use vstd::set_lib::lemma_int_range;
use vstd::set_lib::lemma_set_subset_finite;
use vstd::set_lib::set_int_range;
use crate::edge::link_of;
use crate::edge::Connection;
use crate::edge::Edge;
use crate::edge::Link;
use crate::edge::Wire;
use crate::geometry::Point;
use crate::geometry::PointerEvent;
use crate::graph::CurrentlyDragging;
use crate::graph::CurrentlyDraggingProps;
use crate::graph::DraggingIndex;
use crate::graph::NodeDragInfo;
use crate::node::Node;
use crate::node::NodeId;
use crate::store::wires_clear_of;

verus! {

/// The editor's state as a mathematical value: the nodes, each under the
/// place at which the graph holds it, the connections under their edge
/// indices, the gesture in progress (`None` while idle), and the serial
/// number that the next new node gets.
#[verifier::ext_equal]
pub struct GraphModel {
    pub nodes: Map<u32, Node>,
    pub wires: Map<u32, Wire>,
    pub dragging: Option<CurrentlyDragging>,
    pub next_serial: u64,
}

/// Where the anchor of a node goes that was taken hold of at `offset` from
/// its origin, when the pointer is where `evt` reports it.
pub open spec fn dragged_to(evt: PointerEvent, offset: Point) -> Point {
    Point { x: (evt.page_x - offset.x) as i64, y: (evt.page_y - offset.y) as i64 }
}

/// A set of places is finite: there are only so many of them.
pub proof fn lemma_places_are_finite(places: Set<u32>)
    ensures
        places.finite(),
{
    let range = set_int_range(0, 0x1_0000_0000);
    let all = range.map(|i: int| i as u32);
    lemma_int_range(0, 0x1_0000_0000);
    range.lemma_map_finite(|i: int| i as u32);
    assert forall|v: u32| places.contains(v) implies all.contains(v) by {
        assert(range.contains(v as int) && v == (v as int) as u32);
    }
    lemma_set_subset_finite(all, places);
}

impl GraphModel {
    /// The graph holds the node that `id` names: the node at the place that
    /// the identifier gives carries this very identifier.
    pub open spec fn has(self, id: NodeId) -> bool {
        self.nodes.contains_key(id.index) && self.nodes[id.index].id == id
    }

    /// The node that `id` names.
    pub open spec fn node(self, id: NodeId) -> Node {
        self.nodes[id.index]
    }

    /// The connection under the edge index `e`, between the identifiers of
    /// the nodes it joins.
    pub open spec fn link(self, e: u32) -> Link {
        Link {
            source: self.nodes[self.wires[e].source].id,
            target: self.nodes[self.wires[e].target].id,
            edge: self.wires[e].edge,
        }
    }

    /// Both ends of the link are nodes of the graph, and its two port indices
    /// are ports that those nodes have.
    pub open spec fn joins(self, link: Link) -> bool {
        &&& self.has(link.source)
        &&& self.has(link.target)
        &&& link.edge.start < self.node(link.source).outputs.len()
        &&& link.edge.end < self.node(link.target).inputs.len()
    }

    /// Both ends of the wire are places at which a node is held, and its two
    /// port indices are ports that those nodes have.
    pub open spec fn wire_joins(self, wire: Wire) -> bool {
        &&& self.nodes.contains_key(wire.source)
        &&& self.nodes.contains_key(wire.target)
        &&& wire.edge.start < self.nodes[wire.source].outputs.len()
        &&& wire.edge.end < self.nodes[wire.target].inputs.len()
    }

    /// Every node carries an identifier that gives its own place and a serial
    /// number below the next one, and is well formed; every connection joins
    /// ports of nodes that are there; and a node being moved was taken hold
    /// of at an offset that a pointer can report.
    pub open spec fn wf(self) -> bool {
        &&& forall|i: u32|
            self.nodes.contains_key(i) ==> (#[trigger] self.nodes[i]).id.index == i
                && self.nodes[i].id.serial < self.next_serial && self.nodes[i].wf()
        &&& forall|e: u32| self.wires.contains_key(e) ==> self.wire_joins(#[trigger] self.wires[e])
        &&& self.dragging matches Some(CurrentlyDragging::Node(info))
            ==> info.element_offset.in_pointer_range()
    }

    /// The graph with `node` stored under the identifier `id`, which the
    /// stored node carries. The serial number of `id` is used up.
    pub open spec fn with_node(self, id: NodeId, node: Node) -> GraphModel {
        GraphModel {
            nodes: self.nodes.insert(id.index, Node { id: id, ..node }),
            next_serial: (id.serial + 1) as u64,
            ..self
        }
    }

    /// The graph with `link` stored under the edge index `e`.
    pub open spec fn with_link(self, e: u32, link: Link) -> GraphModel {
        GraphModel { wires: self.wires.insert(e, link.wire()), ..self }
    }

    /// The graph without the node that `id` names and without the
    /// connections that start or end at it. Everything else keeps its
    /// identifier. Where `id` names no node, nothing changes.
    pub open spec fn without_node(self, id: NodeId) -> GraphModel {
        if self.has(id) {
            GraphModel {
                nodes: self.nodes.remove(id.index),
                wires: wires_clear_of(self.wires, id.index),
                ..self
            }
        } else {
            self
        }
    }

    /// `ids` holds the identifier of every node, each once, in rising order
    /// of the places at which the nodes are held.
    pub open spec fn lists_nodes(self, ids: Seq<NodeId>) -> bool {
        &&& forall|i: int, j: int| 0 <= i < j < ids.len() ==> ids[i].index < ids[j].index
        &&& forall|k: int| 0 <= k < ids.len() ==> self.has(#[trigger] ids[k])
        &&& forall|i: u32| self.nodes.contains_key(i) ==> ids.contains(self.nodes[i].id)
    }

    /// `list` holds every connection with its edge index, each once, in
    /// rising order of the indices.
    pub open spec fn lists_links(self, list: Seq<(u32, Link)>) -> bool {
        &&& forall|i: int, j: int| 0 <= i < j < list.len() ==> list[i].0 < list[j].0
        &&& forall|k: int|
            0 <= k < list.len() ==> self.wires.contains_key((#[trigger] list[k]).0) && self.link(
                list[k].0,
            ) == list[k].1
        &&& forall|e: u32|
            self.wires.contains_key(e) ==> exists|k: int|
                0 <= k < list.len() && (#[trigger] list[k]).0 == e
    }

    /// `line` runs from the output port at which the wire starts to the
    /// input port at which it ends.
    pub open spec fn draws(self, wire: Wire, line: Connection) -> bool {
        &&& line.start_pos@ == self.nodes[wire.source].port_pos_spec(
            DraggingIndex::Output(wire.edge.start),
        )
        &&& line.end_pos@ == self.nodes[wire.target].port_pos_spec(
            DraggingIndex::Input(wire.edge.end),
        )
    }

    /// `lines` holds one line for every connection, with the connection's
    /// edge index, in rising order of the indices.
    pub open spec fn lists_lines(self, lines: Seq<(u32, Connection)>) -> bool {
        &&& forall|i: int, j: int| 0 <= i < j < lines.len() ==> lines[i].0 < lines[j].0
        &&& forall|k: int|
            0 <= k < lines.len() ==> self.wires.contains_key((#[trigger] lines[k]).0)
                && self.draws(self.wires[lines[k].0], lines[k].1)
        &&& forall|e: u32|
            self.wires.contains_key(e) ==> exists|k: int|
                0 <= k < lines.len() && (#[trigger] lines[k]).0 == e
    }

    /// `line` is the line to show for the connection being drawn: from the
    /// port it started at to the cursor. There is none without such a
    /// gesture, or when the node or the port it started at is gone.
    pub open spec fn previews(self, line: Option<Connection>) -> bool {
        match self.dragging {
            Some(CurrentlyDragging::Connection(props)) => if self.has(props.from) && self.node(
                props.from,
            ).has_port(props.index) {
                &&& line is Some
                &&& line->0.start_pos@ == self.node(props.from).port_pos_spec(props.index)
                &&& line->0.end_pos@ == (props.to.x as int, props.to.y as int, 1int)
            } else {
                line is None
            },
            _ => line is None,
        }
    }

    /// Another edge index is still free.
    pub open spec fn has_room(self) -> bool {
        self.wires.dom().len() < u32::MAX
    }

    /// Another node can be added: a place and a serial number are left.
    pub open spec fn has_room_for_node(self) -> bool {
        self.nodes.dom().len() < u32::MAX && self.next_serial < u64::MAX
    }

    pub open spec fn is_idle(self) -> bool {
        self.dragging is None
    }

    pub open spec fn is_dragging_node(self) -> bool {
        self.dragging matches Some(CurrentlyDragging::Node(_))
    }

    pub open spec fn is_dragging_connection(self) -> bool {
        self.dragging matches Some(CurrentlyDragging::Connection(_))
    }

    /// The state with the gesture ended.
    pub open spec fn cleared(self) -> GraphModel {
        GraphModel { dragging: None, ..self }
    }

    /// The state after `node` was taken hold of to be moved.
    pub open spec fn grabbed(self, evt: PointerEvent, node: NodeId) -> GraphModel {
        GraphModel {
            dragging: Some(
                CurrentlyDragging::Node(NodeDragInfo { element_offset: evt.element(), node }),
            ),
            ..self
        }
    }

    /// The state after a connection was started at `port` of `node`.
    pub open spec fn wiring(self, evt: PointerEvent, node: NodeId, port: DraggingIndex) -> GraphModel {
        GraphModel {
            dragging: Some(
                CurrentlyDragging::Connection(
                    CurrentlyDraggingProps { from: node, index: port, to: evt.page() },
                ),
            ),
            ..self
        }
    }

    /// The port that a press on the body of `node` at `p` takes hold of: the
    /// nearest port of the node, if it is within the snap distance.
    pub open spec fn port_under(self, node: NodeId, p: (int, int)) -> Option<DraggingIndex> {
        if self.has(node) {
            self.node(node).port_under_spec(p)
        } else {
            None
        }
    }

    /// The state after a press on the body of `node`: a connection starts
    /// from the port under the pointer, or else the node is taken hold of.
    pub open spec fn pressed(self, evt: PointerEvent, node: NodeId) -> GraphModel {
        match self.port_under(node, evt.page()@) {
            Some(port) => self.wiring(evt, node, port),
            None => self.grabbed(evt, node),
        }
    }

    /// The state after the pointer moved: a connection's cursor follows the
    /// pointer, a node that is held follows it at the offset it was taken
    /// hold of, and without a gesture nothing changes.
    pub open spec fn moved(self, evt: PointerEvent) -> GraphModel {
        match self.dragging {
            Some(CurrentlyDragging::Connection(props)) => GraphModel {
                dragging: Some(
                    CurrentlyDragging::Connection(
                        CurrentlyDraggingProps { to: evt.page(), ..props },
                    ),
                ),
                ..self
            },
            Some(CurrentlyDragging::Node(info)) => if self.has(info.node) {
                GraphModel {
                    nodes: self.nodes.insert(
                        info.node.index,
                        Node {
                            position: dragged_to(evt, info.element_offset),
                            ..self.node(info.node)
                        },
                    ),
                    ..self
                }
            } else {
                self
            },
            None => self,
        }
    }

    /// The state after the pointer moved through `moves`, one after the other.
    pub open spec fn moved_all(self, moves: Seq<PointerEvent>) -> GraphModel
        decreases moves.len(),
    {
        if moves.len() == 0 {
            self
        } else {
            self.moved_all(moves.drop_last()).moved(moves.last())
        }
    }

    /// `link` if it joins ports that are there.
    pub open spec fn checked(self, link: Link) -> Option<Link> {
        if self.joins(link) {
            Some(link)
        } else {
            None
        }
    }

    /// The link that a connection drawn from `props` makes with port `port`
    /// of `node`: from the output to the input, if one of the two ports is
    /// an output and the other an input.
    pub open spec fn link_between(
        self,
        props: CurrentlyDraggingProps,
        node: NodeId,
        port: DraggingIndex,
    ) -> Option<Link> {
        match (props.index, port) {
            (DraggingIndex::Output(start), DraggingIndex::Input(end)) => self.checked(
                Link { source: props.from, target: node, edge: Edge { start, end } },
            ),
            (DraggingIndex::Input(end), DraggingIndex::Output(start)) => self.checked(
                Link { source: node, target: props.from, edge: Edge { start, end } },
            ),
            _ => None,
        }
    }

    /// The port of `node` that a connection drawn from `props` and let go at
    /// `p` snaps to: the nearest port of the other direction, if it is within
    /// the snap distance.
    pub open spec fn snap_port(self, props: CurrentlyDraggingProps, node: NodeId, p: (int, int)) -> Option<
        DraggingIndex,
    > {
        if self.has(node) {
            let nearest = match props.index {
                DraggingIndex::Output(_) => match self.node(node).nearest_input_spec(p) {
                    Some(i) => Some(DraggingIndex::Input(i)),
                    None => None,
                },
                DraggingIndex::Input(_) => match self.node(node).nearest_output_spec(p) {
                    Some(i) => Some(DraggingIndex::Output(i)),
                    None => None,
                },
            };
            match nearest {
                Some(port) => if self.node(node).snaps_spec(port, p) {
                    Some(port)
                } else {
                    None
                },
                None => None,
            }
        } else {
            None
        }
    }

    /// The link that letting go over the body of `node` at `p` commits, if
    /// any.
    pub open spec fn snap_link(self, node: NodeId, p: (int, int)) -> Option<Link> {
        match self.dragging {
            Some(CurrentlyDragging::Connection(props)) => match self.snap_port(props, node, p) {
                Some(port) => self.link_between(props, node, port),
                None => None,
            },
            _ => None,
        }
    }

    /// The link that letting go on the marker of port `port` of `node`
    /// commits, if any.
    pub open spec fn port_link(self, node: NodeId, port: DraggingIndex) -> Option<Link> {
        match self.dragging {
            Some(CurrentlyDragging::Connection(props)) => self.link_between(props, node, port),
            _ => None,
        }
    }

    /// The state after the gesture ended with `link` stored under the edge
    /// index `e`.
    pub open spec fn committed(self, e: u32, link: Link) -> GraphModel {
        GraphModel { wires: self.wires.insert(e, link.wire()), dragging: None, ..self }
    }

    /// How the end of a gesture that is to commit `link` leads from `self`
    /// to `after`. `made` is the index of the new edge. An edge is made
    /// exactly when there is a link to commit and an index left for it;
    /// the gesture is over either way.
    pub open spec fn ends_in(self, link: Option<Link>, made: Option<u32>, after: GraphModel) -> bool {
        match made {
            Some(e) => {
                &&& link is Some
                &&& self.has_room()
                &&& !self.wires.contains_key(e)
                &&& after == self.committed(e, link->0)
            },
            None => {
                &&& link is None || !self.has_room()
                &&& after == self.cleared()
            },
        }
    }
}

impl GraphModel {
    /// At every moment the editor is in exactly one of its three states:
    /// idle, moving a node, or drawing a connection.
    pub proof fn lemma_exactly_one_state(self)
        ensures
            self.is_idle() || self.is_dragging_node() || self.is_dragging_connection(),
            !(self.is_idle() && self.is_dragging_node()),
            !(self.is_idle() && self.is_dragging_connection()),
            !(self.is_dragging_node() && self.is_dragging_connection()),
    {
    }

    /// Ending the gesture leads to the idle state from every state, changes
    /// nothing when the editor is idle already, and changes nothing more
    /// when done again.
    pub proof fn lemma_clear_reaches_idle(self)
        ensures
            self.cleared().is_idle(),
            self.is_idle() ==> self.cleared() == self,
            self.cleared().cleared() == self.cleared(),
            self.cleared().nodes == self.nodes,
            self.cleared().wires == self.wires,
    {
    }

    /// No identifier is ever used a second time. The identifier that a new
    /// node gets names no node before, and neither does any identifier with
    /// its serial number or a later one; adding the node uses the serial
    /// number up and leaves every other identifier naming what it named.
    pub proof fn lemma_identifiers_are_not_reused(self, added: NodeId, node: Node, other: NodeId)
        requires
            self.wf(),
            self.has_room_for_node(),
            added.serial == self.next_serial,
            !self.nodes.contains_key(added.index),
            node.wf(),
        ensures
            other.serial >= self.next_serial ==> !self.has(other),
            !self.has(added),
            self.with_node(added, node).wf(),
            self.with_node(added, node).has(added),
            self.with_node(added, node).next_serial == self.next_serial + 1,
            other != added ==> self.with_node(added, node).has(other) == self.has(other),
    {
    }

    /// While a node is held, it follows the pointer at the offset at which
    /// it was taken hold of: after any number of moves its anchor is the
    /// pointer's last place on the page minus that offset. The offset, the
    /// node's other fields, the other nodes and the connections stay as they
    /// were.
    pub proof fn lemma_drag_follows_pointer(
        self,
        grab: PointerEvent,
        node: NodeId,
        moves: Seq<PointerEvent>,
    )
        requires
            self.has(node),
        ensures
            self.grabbed(grab, node).moved_all(moves).dragging == self.grabbed(grab, node).dragging,
            self.grabbed(grab, node).moved_all(moves).wires == self.wires,
            moves.len() == 0 ==> self.grabbed(grab, node).moved_all(moves).nodes == self.nodes,
            moves.len() > 0 ==> self.grabbed(grab, node).moved_all(moves).nodes
                == self.nodes.insert(
                node.index,
                Node { position: dragged_to(moves.last(), grab.element()), ..self.node(node) },
            ),
            moves.len() > 0 ==> self.grabbed(grab, node).moved_all(moves).node(node).position@ == (
                moves.last().page_x - grab.element_x,
                moves.last().page_y - grab.element_y,
            ),
        decreases moves.len(),
    {
        if moves.len() > 0 {
            self.lemma_drag_follows_pointer(grab, node, moves.drop_last());
            let before = self.grabbed(grab, node).moved_all(moves.drop_last());
            let after = before.moved(moves.last());
            assert(before.has(node));
            assert(after.nodes =~= self.nodes.insert(
                node.index,
                Node { position: dragged_to(moves.last(), grab.element()), ..self.node(node) },
            ));
        }
    }

    /// A connection that is let go over the body of a node is committed when
    /// the nearest port of the other direction, `port`, is within the snap
    /// distance of the pointer, and is dropped when it is not. Committing
    /// adds exactly one connection, from the output port to the input port,
    /// whichever of the two the connection was started at, and takes nothing
    /// away. The editor is idle afterwards either way.
    pub proof fn lemma_release_commits(
        self,
        props: CurrentlyDraggingProps,
        node: NodeId,
        port: DraggingIndex,
        p: (int, int),
        made: Option<u32>,
        after: GraphModel,
    )
        requires
            self.dragging == Some(CurrentlyDragging::Connection(props)),
            self.has(props.from),
            self.node(props.from).has_port(props.index),
            self.has(node),
            match (props.index, port) {
                (DraggingIndex::Output(_), DraggingIndex::Input(i)) => self.node(
                    node,
                ).is_nearest_input(i, p),
                (DraggingIndex::Input(_), DraggingIndex::Output(i)) => self.node(
                    node,
                ).is_nearest_output(i, p),
                _ => false,
            },
            self.has_room(),
            self.ends_in(self.snap_link(node, p), made, after),
        ensures
            after.is_idle(),
            after.nodes == self.nodes,
            self.node(node).snaps_spec(port, p) ==> {
                &&& made is Some
                &&& !self.wires.contains_key(made->0)
                &&& after.wires == self.wires.insert(made->0, after.wires[made->0])
                &&& after.wires.dom().len() == self.wires.dom().len() + 1
                &&& props.index is Output ==> after.link(made->0) == link_of(
                    props.from,
                    props.index.position() as usize,
                    node,
                    port.position() as usize,
                )
                &&& props.index is Input ==> after.link(made->0) == link_of(
                    node,
                    port.position() as usize,
                    props.from,
                    props.index.position() as usize,
                )
            },
            !self.node(node).snaps_spec(port, p) ==> {
                &&& made is None
                &&& after.wires == self.wires
            },
    {
        lemma_places_are_finite(self.wires.dom());
        match (props.index, port) {
            (DraggingIndex::Output(_), DraggingIndex::Input(i)) => {
                self.node(node).lemma_nearest_input_unique(i, p);
            },
            (DraggingIndex::Input(_), DraggingIndex::Output(i)) => {
                self.node(node).lemma_nearest_output_unique(i, p);
            },
            _ => {},
        }
    }

    /// Over a node without a port of the other direction a connection is
    /// dropped: nothing is added, and the editor is idle afterwards.
    pub proof fn lemma_release_without_port(
        self,
        props: CurrentlyDraggingProps,
        node: NodeId,
        p: (int, int),
        made: Option<u32>,
        after: GraphModel,
    )
        requires
            self.dragging == Some(CurrentlyDragging::Connection(props)),
            self.has(node),
            match props.index {
                DraggingIndex::Output(_) => self.node(node).inputs.len() == 0,
                DraggingIndex::Input(_) => self.node(node).outputs.len() == 0,
            },
            self.ends_in(self.snap_link(node, p), made, after),
        ensures
            made is None,
            after == self.cleared(),
    {
    }
}

} // verus!
