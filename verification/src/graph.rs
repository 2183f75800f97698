use vstd::prelude::*;
use petgraph::stable_graph::StableGraph;
use petgraph::Directed;
use crate::edge::link_of;
use crate::edge::Connection;
use crate::edge::Edge;
use crate::edge::Link;
use crate::edge::Wire;
use crate::focus::toggled;
use crate::focus::FocusState;
use crate::geometry::FracPoint;
use crate::geometry::Point;
use crate::geometry::PointerEvent;
use crate::model::lemma_places_are_finite;
use crate::model::GraphModel;
use crate::node::Node;
use crate::node::NodeId;
use crate::store::graph_add_edge;
use crate::store::graph_add_node;
use crate::store::graph_edge_count;
use crate::store::graph_new;
use crate::store::graph_node;
use crate::store::graph_node_count;
use crate::store::graph_node_ids;
use crate::store::graph_node_mut;
use crate::store::graph_nodes;
use crate::store::graph_remove_node;
use crate::store::graph_wire_list;
use crate::store::graph_wires;

verus! {

/// A port of a node: its direction and its place in that direction's list.
#[derive(Clone, Copy, Debug, PartialEq, Eq, Structural)]
pub enum DraggingIndex {
    Input(usize),
    Output(usize),
}

/// A node being moved: which node, and where inside it the pointer took hold.
#[derive(Clone, Copy, PartialEq, Eq, Structural)]
pub struct NodeDragInfo {
    pub element_offset: Point,
    pub node: NodeId,
}

/// A connection being drawn: the port it started from and the live cursor.
#[derive(Clone, Copy, PartialEq, Eq, Structural)]
pub struct CurrentlyDraggingProps {
    pub from: NodeId,
    pub index: DraggingIndex,
    pub to: Point,
}

/// The gesture in progress.
#[derive(Clone, Copy, PartialEq, Eq, Structural)]
pub enum CurrentlyDragging {
    Node(NodeDragInfo),
    Connection(CurrentlyDraggingProps),
}

impl DraggingIndex {
    /// Whether the port is an output.
    pub open spec fn is_output(self) -> bool {
        self is Output
    }

    /// The port's place in its own list.
    pub open spec fn position(self) -> int {
        match self {
            DraggingIndex::Input(i) => i as int,
            DraggingIndex::Output(i) => i as int,
        }
    }
}

impl DraggingIndex {
    /// Whether `self` is looked at before `other` when a node's ports are
    /// searched: inputs first, then outputs, each list from its start.
    pub open spec fn comes_before(self, other: DraggingIndex) -> bool {
        match (self, other) {
            (DraggingIndex::Input(i), DraggingIndex::Input(j)) => i < j,
            (DraggingIndex::Input(_), DraggingIndex::Output(_)) => true,
            (DraggingIndex::Output(_), DraggingIndex::Input(_)) => false,
            (DraggingIndex::Output(i), DraggingIndex::Output(j)) => i < j,
        }
    }
}

impl CurrentlyDragging {
    /// The short name of the gesture's kind.
    pub fn label(&self) -> (name: &'static str)
        ensures
            name@ == (match *self {
                CurrentlyDragging::Node(_) => "Node"@,
                CurrentlyDragging::Connection(_) => "Connection"@,
            }),
    {
        match self {
            CurrentlyDragging::Node(_) => "Node",
            CurrentlyDragging::Connection(_) => "Connection",
        }
    }
}

/// The graph store, the one gesture that may be in progress on it, and the
/// serial number that the next new node gets.
pub struct VisualGraphInner {
    pub graph: StableGraph<Node, Edge, Directed, u32>,
    pub currently_dragging: Option<CurrentlyDragging>,
    pub next_serial: u64,
}

/// The editing surface: what the pointer's events act on.
pub struct VisualGraph {
    pub inner: VisualGraphInner,
}

impl View for VisualGraphInner {
    type V = GraphModel;

    open spec fn view(&self) -> GraphModel {
        GraphModel {
            nodes: graph_nodes(self.graph),
            wires: graph_wires(self.graph),
            dragging: self.currently_dragging,
            next_serial: self.next_serial,
        }
    }
}

impl View for VisualGraph {
    type V = GraphModel;

    open spec fn view(&self) -> GraphModel {
        self.inner@
    }
}

impl VisualGraph {
    /// An empty graph with no gesture in progress.
    pub fn new() -> (graph: VisualGraph)
        ensures
            graph@.wf(),
            graph@.nodes == Map::<u32, Node>::empty(),
            graph@.wires == Map::<u32, Wire>::empty(),
            graph@.is_idle(),
            graph@.next_serial == 0,
    {
        let graph = VisualGraph {
            inner: VisualGraphInner { graph: graph_new(), currently_dragging: None, next_serial: 0 },
        };
        assert(graph@.nodes =~= Map::<u32, Node>::empty());
        assert(graph@.wires =~= Map::<u32, Wire>::empty());
        graph
    }

    /// Tests whether the graph is well formed. A graph that was made by
    /// `new` and changed only by the functions of this type is.
    pub fn is_wf(&self) -> (ok: bool)
        ensures
            ok == self@.wf(),
    {
        match self.inner.currently_dragging {
            Some(CurrentlyDragging::Node(info)) => {
                let offset: Point = info.element_offset;
                if offset.x < i32::MIN as i64 || offset.x > i32::MAX as i64 || offset.y
                    < i32::MIN as i64 || offset.y > i32::MAX as i64 {
                    return false;
                }
            },
            _ => {},
        }
        let places = graph_node_ids(&self.inner.graph);
        let mut k: usize = 0;
        while k < places.len()
            invariant
                k <= places.len(),
                forall|i: int|
                    0 <= i < places@.len() ==> self@.nodes.contains_key(#[trigger] places@[i]),
                forall|i: int|
                    0 <= i < k ==> (#[trigger] self@.nodes[places@[i]]).id.index == places@[i]
                        && self@.nodes[places@[i]].id.serial < self@.next_serial
                        && self@.nodes[places@[i]].wf(),
            decreases places.len() - k,
        {
            let place: u32 = places[k];
            let node = graph_node(&self.inner.graph, place).unwrap();
            if node.id.index != place || node.id.serial >= self.inner.next_serial || !node.is_wf() {
                return false;
            }
            k = k + 1;
        }
        assert forall|i: u32| self@.nodes.contains_key(i) implies (#[trigger] self@.nodes[i]).id.index
            == i && self@.nodes[i].id.serial < self@.next_serial && self@.nodes[i].wf() by {
            assert(places@.contains(i));
            let k = choose|k: int| 0 <= k < places@.len() && places@[k] == i;
            assert(self@.nodes[places@[k]].wf());
        }
        let wires = graph_wire_list(&self.inner.graph);
        let mut k: usize = 0;
        while k < wires.len()
            invariant
                k <= wires.len(),
                forall|i: int|
                    0 <= i < wires@.len() ==> self@.wires.contains_key((#[trigger] wires@[i]).0)
                        && self@.wires[wires@[i].0] == wires@[i].1,
                forall|i: int| 0 <= i < k ==> self@.wire_joins((#[trigger] wires@[i]).1),
            decreases wires.len() - k,
        {
            let (e, wire) = wires[k];
            let joined: bool = match (
                graph_node(&self.inner.graph, wire.source),
                graph_node(&self.inner.graph, wire.target),
            ) {
                (Some(source), Some(target)) => wire.edge.start < source.outputs.len()
                    && wire.edge.end < target.inputs.len(),
                _ => false,
            };
            if !joined {
                assert(self@.wires.contains_key(wires@[k as int].0));
                assert(!self@.wire_joins(self@.wires[e]));
                return false;
            }
            k = k + 1;
        }
        assert forall|e: u32| self@.wires.contains_key(e) implies self@.wire_joins(
            #[trigger] self@.wires[e],
        ) by {
            let i = choose|i: int| 0 <= i < wires@.len() && (#[trigger] wires@[i]).0 == e;
            assert(self@.wire_joins(wires@[i].1));
        }
        true
    }

    /// Ends the gesture, whatever it was.
    pub fn clear_dragging(&mut self)
        ensures
            final(self)@ == old(self)@.cleared(),
            final(self)@.is_idle(),
            old(self)@.wf() ==> final(self)@.wf(),
    {
        self.inner.currently_dragging = None;
    }

    /// The pointer entered the surface. With no button held the gesture is
    /// over: the button was let go where the surface could not see it.
    pub fn mouse_enter(&mut self, evt: &PointerEvent)
        ensures
            final(self)@ == (if evt.held_buttons == 0 {
                old(self)@.cleared()
            } else {
                old(self)@
            }),
            old(self)@.wf() ==> final(self)@.wf(),
    {
        if evt.no_buttons_held() {
            self.clear_dragging();
        }
    }

    /// The node that `id` names, if the graph holds it.
    pub fn node(&self, id: NodeId) -> (node: Option<&Node>)
        ensures
            (node is Some) == self@.has(id),
            node is Some ==> *node->0 == self@.node(id),
    {
        match graph_node(&self.inner.graph, id.index) {
            Some(node) => if node.id == id {
                Some(node)
            } else {
                None
            },
            None => None,
        }
    }

    /// The pointer moved.
    pub fn update_mouse(&mut self, evt: &PointerEvent)
        requires
            old(self)@.wf(),
        ensures
            final(self)@ == old(self)@.moved(*evt),
            final(self)@.wf(),
    {
        match self.inner.currently_dragging {
            Some(CurrentlyDragging::Connection(props)) => {
                self.inner.currently_dragging = Some(
                    CurrentlyDragging::Connection(
                        CurrentlyDraggingProps {
                            from: props.from,
                            index: props.index,
                            to: evt.page_coordinates(),
                        },
                    ),
                );
            },
            Some(CurrentlyDragging::Node(info)) => {
                if self.node(info.node).is_some() {
                    let node = graph_node_mut(&mut self.inner.graph, info.node.index);
                    node.position = Point {
                        x: evt.page_x as i64 - info.element_offset.x,
                        y: evt.page_y as i64 - info.element_offset.y,
                    };
                }
            },
            None => {},
        }
    }

    /// Takes hold of `node` to move it. The pointer's place inside the node
    /// is kept, so that the node does not jump when the pointer moves.
    pub fn start_dragging_node(&mut self, evt: &PointerEvent, node: NodeId)
        ensures
            final(self)@ == old(self)@.grabbed(*evt, node),
            old(self)@.wf() ==> final(self)@.wf(),
    {
        self.inner.currently_dragging = Some(
            CurrentlyDragging::Node(
                NodeDragInfo { node, element_offset: evt.element_coordinates() },
            ),
        );
    }

    /// Starts a connection at `port` of `node`, with the cursor at the
    /// pointer.
    pub fn start_dragging_connection(&mut self, evt: &PointerEvent, node: NodeId, port: DraggingIndex)
        ensures
            final(self)@ == old(self)@.wiring(*evt, node, port),
            old(self)@.wf() ==> final(self)@.wf(),
    {
        self.inner.currently_dragging = Some(
            CurrentlyDragging::Connection(
                CurrentlyDraggingProps { from: node, index: port, to: evt.page_coordinates() },
            ),
        );
    }

    /// Stores `node` under an identifier that was never handed out before,
    /// which it returns and writes into the stored node. `None`, with
    /// nothing changed, only when no identifier is left.
    pub fn add_node(&mut self, node: Node) -> (id: Option<NodeId>)
        requires
            old(self)@.wf(),
            node.wf(),
        ensures
            match id {
                Some(id) => {
                    &&& old(self)@.has_room_for_node()
                    &&& id.serial == old(self)@.next_serial
                    &&& !old(self)@.nodes.contains_key(id.index)
                    &&& final(self)@ == old(self)@.with_node(id, node)
                },
                None => !old(self)@.has_room_for_node() && final(self)@ == old(self)@,
            },
            final(self)@.wf(),
    {
        if graph_node_count(&self.inner.graph) >= u32::MAX as usize || self.inner.next_serial
            == u64::MAX {
            return None;
        }
        proof {
            lemma_places_are_finite(self@.nodes.dom());
        }
        let index: u32 = graph_add_node(&mut self.inner.graph, node);
        let id = NodeId { index, serial: self.inner.next_serial };
        let stored = graph_node_mut(&mut self.inner.graph, index);
        stored.id = id;
        self.inner.next_serial = self.inner.next_serial + 1;
        assert(self@.nodes =~= old(self)@.with_node(id, node).nodes);
        Some(id)
    }

    /// Whether both ends of `link` are nodes of the graph that have the
    /// ports it names.
    pub fn can_join(&self, link: Link) -> (ok: bool)
        ensures
            ok == self@.joins(link),
    {
        match (self.node(link.source), self.node(link.target)) {
            (Some(source), Some(target)) => link.edge.start < source.outputs.len() && link.edge.end
                < target.inputs.len(),
            _ => false,
        }
    }

    /// Stores a connection from output port `output` of `source` to input
    /// port `input` of `target` and returns its edge index. A connection that
    /// is there already is stored once more. `None`, with nothing changed,
    /// only when no edge index is left.
    pub fn add_edge(&mut self, source: NodeId, output: usize, target: NodeId, input: usize) -> (e:
        Option<u32>)
        requires
            old(self)@.wf(),
            old(self)@.joins(link_of(source, output, target, input)),
        ensures
            match e {
                Some(e) => old(self)@.has_room() && !old(self)@.wires.contains_key(e) && final(self)@
                    == old(self)@.with_link(e, link_of(source, output, target, input)) && final(self)@.link(e) == link_of(source, output, target, input),
                None => !old(self)@.has_room() && final(self)@ == old(self)@,
            },
            final(self)@.wf(),
    {
        if graph_edge_count(&self.inner.graph) >= u32::MAX as usize {
            return None;
        }
        proof {
            lemma_places_are_finite(self@.wires.dom());
        }
        let e: u32 = graph_add_edge(
            &mut self.inner.graph,
            source.index,
            target.index,
            Edge::new(output, input),
        );
        Some(e)
    }

    /// Takes the node that `id` names out of the graph, with every
    /// connection that starts or ends at it, and returns it. The gesture in
    /// progress is left as it is: one that still names the node does nothing
    /// more to the graph, since the identifier names no node again.
    pub fn remove_node(&mut self, id: NodeId) -> (removed: Option<Node>)
        requires
            old(self)@.wf(),
        ensures
            (removed is Some) == old(self)@.has(id),
            removed is Some ==> removed->0 == old(self)@.node(id),
            final(self)@ == old(self)@.without_node(id),
            final(self)@.wf(),
    {
        if self.node(id).is_none() {
            return None;
        }
        let removed = graph_remove_node(&mut self.inner.graph, id.index);
        proof {
            let before = old(self)@;
            assert forall|e: u32| self@.wires.contains_key(e) implies self@.wire_joins(
                #[trigger] self@.wires[e],
            ) by {
                assert(before.wire_joins(before.wires[e]));
            }
        }
        removed
    }

    /// The identifiers of all nodes, in rising order of the places at which
    /// the graph holds them.
    pub fn node_ids(&self) -> (ids: Vec<NodeId>)
        requires
            self@.wf(),
        ensures
            self@.lists_nodes(ids@),
    {
        let places = graph_node_ids(&self.inner.graph);
        let mut ids: Vec<NodeId> = Vec::new();
        let mut k: usize = 0;
        while k < places.len()
            invariant
                self@.wf(),
                k <= places.len(),
                ids@.len() == k,
                forall|i: int, j: int| 0 <= i < j < places@.len() ==> places@[i] < places@[j],
                forall|i: int|
                    0 <= i < places@.len() ==> self@.nodes.contains_key(#[trigger] places@[i]),
                forall|i: int|
                    0 <= i < k ==> (#[trigger] ids@[i]) == self@.nodes[places@[i]].id,
            decreases places.len() - k,
        {
            let place: u32 = places[k];
            let node = graph_node(&self.inner.graph, place).unwrap();
            ids.push(node.id);
            k = k + 1;
        }
        proof {
            assert forall|i: int, j: int| 0 <= i < j < ids@.len() implies ids@[i].index
                < ids@[j].index by {
                assert(self@.nodes[places@[i]].id.index == places@[i]);
                assert(self@.nodes[places@[j]].id.index == places@[j]);
            }
            assert forall|i: u32| self@.nodes.contains_key(i) implies ids@.contains(
                self@.nodes[i].id,
            ) by {
                assert(places@.contains(i));
                let k = choose|k: int| 0 <= k < places@.len() && places@[k] == i;
                assert(ids@[k] == self@.nodes[i].id);
            }
        }
        ids
    }

    /// All connections with their edge indices, in rising order of the
    /// indices.
    pub fn links(&self) -> (list: Vec<(u32, Link)>)
        requires
            self@.wf(),
        ensures
            self@.lists_links(list@),
    {
        let wires = graph_wire_list(&self.inner.graph);
        let mut list: Vec<(u32, Link)> = Vec::new();
        let mut k: usize = 0;
        while k < wires.len()
            invariant
                self@.wf(),
                k <= wires.len(),
                list@.len() == k,
                forall|i: int|
                    0 <= i < wires@.len() ==> self@.wires.contains_key((#[trigger] wires@[i]).0)
                        && self@.wires[wires@[i].0] == wires@[i].1,
                forall|i: int|
                    0 <= i < k ==> (#[trigger] list@[i]).0 == wires@[i].0 && list@[i].1
                        == self@.link(wires@[i].0),
            decreases wires.len() - k,
        {
            let (e, wire) = wires[k];
            assert(self@.wires.contains_key(wires@[k as int].0));
            assert(self@.wire_joins(self@.wires[e]));
            let source = graph_node(&self.inner.graph, wire.source).unwrap();
            let target = graph_node(&self.inner.graph, wire.target).unwrap();
            list.push((e, Link { source: source.id, target: target.id, edge: wire.edge }));
            k = k + 1;
        }
        proof {
            assert forall|e: u32| self@.wires.contains_key(e) implies exists|i: int|
                0 <= i < list@.len() && (#[trigger] list@[i]).0 == e by {
                let i = choose|i: int| 0 <= i < wires@.len() && (#[trigger] wires@[i]).0 == e;
                assert(list@[i].0 == e);
            }
        }
        list
    }

    /// The button went down on the body of `node`. Close enough to a port a
    /// connection starts from that port; anywhere else the node is taken hold
    /// of.
    pub fn node_mouse_down(&mut self, evt: &PointerEvent, node: NodeId)
        requires
            old(self)@.wf(),
        ensures
            final(self)@ == old(self)@.pressed(*evt, node),
            final(self)@.wf(),
    {
        let p: Point = evt.page_coordinates();
        let hit: Option<DraggingIndex> = match self.node(node) {
            Some(under) => under.port_under(p),
            None => None,
        };
        match hit {
            Some(port) => self.start_dragging_connection(evt, node, port),
            None => self.start_dragging_node(evt, node),
        }
    }

    /// The link between the port a connection is drawn from and `port` of
    /// `node`, if one of the two is an output, the other an input, and both
    /// are there.
    pub fn link_between(&self, props: CurrentlyDraggingProps, node: NodeId, port: DraggingIndex) -> (link:
        Option<Link>)
        ensures
            link == self@.link_between(props, node, port),
    {
        let link: Link = match (props.index, port) {
            (DraggingIndex::Output(start), DraggingIndex::Input(end)) => Link {
                source: props.from,
                target: node,
                edge: Edge::new(start, end),
            },
            (DraggingIndex::Input(end), DraggingIndex::Output(start)) => Link {
                source: node,
                target: props.from,
                edge: Edge::new(start, end),
            },
            _ => {
                return None;
            },
        };
        if self.can_join(link) {
            Some(link)
        } else {
            None
        }
    }

    /// The port of `node` that a connection drawn from `props` snaps to when
    /// it is let go at `p`.
    pub fn snap_port(&self, props: CurrentlyDraggingProps, node: NodeId, p: Point) -> (port: Option<
        DraggingIndex,
    >)
        requires
            self@.wf(),
            p.in_range(),
        ensures
            port == self@.snap_port(props, node, p@),
    {
        match self.node(node) {
            Some(under) => {
                let nearest: Option<DraggingIndex> = match props.index {
                    DraggingIndex::Output(_) => match under.nearest_input(p) {
                        Some(i) => Some(DraggingIndex::Input(i)),
                        None => None,
                    },
                    DraggingIndex::Input(_) => match under.nearest_output(p) {
                        Some(i) => Some(DraggingIndex::Output(i)),
                        None => None,
                    },
                };
                match nearest {
                    Some(port) => if under.snaps(port, p) {
                        Some(port)
                    } else {
                        None
                    },
                    None => None,
                }
            },
            None => None,
        }
    }

    /// The link that letting go over the body of `node` at `p` would commit.
    pub fn snap_link(&self, node: NodeId, p: Point) -> (link: Option<Link>)
        requires
            self@.wf(),
            p.in_range(),
        ensures
            link == self@.snap_link(node, p@),
    {
        match self.inner.currently_dragging {
            Some(CurrentlyDragging::Connection(props)) => match self.snap_port(props, node, p) {
                Some(port) => self.link_between(props, node, port),
                None => None,
            },
            _ => None,
        }
    }

    /// Ends the gesture, storing `link` if there is one and an edge index
    /// is left for it.
    fn finish(&mut self, link: Option<Link>) -> (made: Option<u32>)
        requires
            old(self)@.wf(),
            link is Some ==> old(self)@.joins(link->0),
        ensures
            old(self)@.ends_in(link, made, final(self)@),
            final(self)@.wf(),
    {
        proof {
            lemma_places_are_finite(self@.wires.dom());
        }
        let made: Option<u32> = match link {
            Some(link) => if graph_edge_count(&self.inner.graph) < u32::MAX as usize {
                Some(
                    graph_add_edge(
                        &mut self.inner.graph,
                        link.source.index,
                        link.target.index,
                        link.edge,
                    ),
                )
            } else {
                None
            },
            None => None,
        };
        self.inner.currently_dragging = None;
        made
    }

    /// The button was let go over the body of `node`. A connection being
    /// drawn is committed if the nearest port of the other direction is
    /// within the snap distance, and dropped if not; the gesture is over
    /// either way, and the click moves the focus. Returns the index of the
    /// new edge.
    pub fn node_mouse_up(&mut self, evt: &PointerEvent, node: NodeId, focus: &mut FocusState) -> (made:
        Option<u32>)
        requires
            old(self)@.wf(),
        ensures
            old(self)@.ends_in(old(self)@.snap_link(node, evt.page()@), made, final(self)@),
            final(focus).currently_focused == toggled(old(focus).currently_focused, node),
            final(self)@.wf(),
    {
        let link = self.snap_link(node, evt.page_coordinates());
        let made = self.finish(link);
        focus.toggle(node);
        made
    }

    /// The button was let go on the marker of `port` of `node`. A connection
    /// being drawn from a port of the other direction is committed between
    /// the two ports; the gesture is over either way. Returns the index of
    /// the new edge.
    pub fn port_mouse_up(&mut self, node: NodeId, port: DraggingIndex) -> (made: Option<u32>)
        requires
            old(self)@.wf(),
        ensures
            old(self)@.ends_in(old(self)@.port_link(node, port), made, final(self)@),
            final(self)@.wf(),
    {
        let link: Option<Link> = match self.inner.currently_dragging {
            Some(CurrentlyDragging::Connection(props)) => self.link_between(props, node, port),
            _ => None,
        };
        self.finish(link)
    }

    /// One line for every connection, with its edge index, in rising order
    /// of the indices. Each line starts at the output port and ends at the
    /// input port, where those ports are now.
    pub fn connections(&self) -> (lines: Vec<(u32, Connection)>)
        requires
            self@.wf(),
        ensures
            self@.lists_lines(lines@),
    {
        let wires = graph_wire_list(&self.inner.graph);
        let mut lines: Vec<(u32, Connection)> = Vec::new();
        let mut k: usize = 0;
        while k < wires.len()
            invariant
                self@.wf(),
                k <= wires.len(),
                lines@.len() == k,
                forall|i: int|
                    0 <= i < wires@.len() ==> self@.wires.contains_key((#[trigger] wires@[i]).0)
                        && self@.wires[wires@[i].0] == wires@[i].1,
                forall|i: int|
                    0 <= i < k ==> (#[trigger] lines@[i]).0 == wires@[i].0 && self@.draws(
                        wires@[i].1,
                        lines@[i].1,
                    ),
            decreases wires.len() - k,
        {
            let (e, wire) = wires[k];
            assert(self@.wires.contains_key(wires@[k as int].0));
            assert(self@.wire_joins(self@.wires[e]));
            let source = graph_node(&self.inner.graph, wire.source).unwrap();
            let target = graph_node(&self.inner.graph, wire.target).unwrap();
            let line = Connection {
                start_pos: source.output_pos(wire.edge.start),
                end_pos: target.input_pos(wire.edge.end),
            };
            lines.push((e, line));
            k = k + 1;
        }
        proof {
            assert forall|e: u32| self@.wires.contains_key(e) implies exists|i: int|
                0 <= i < lines@.len() && (#[trigger] lines@[i]).0 == e by {
                let i = choose|i: int| 0 <= i < wires@.len() && (#[trigger] wires@[i]).0 == e;
                assert(lines@[i].0 == e);
            }
        }
        lines
    }

    /// The line to show for the connection being drawn, from the port it
    /// started at to the cursor.
    pub fn dragging_connection(&self) -> (line: Option<Connection>)
        requires
            self@.wf(),
        ensures
            self@.previews(line),
    {
        match self.inner.currently_dragging {
            Some(CurrentlyDragging::Connection(props)) => match self.node(props.from) {
                Some(from) => {
                    let there: bool = match props.index {
                        DraggingIndex::Input(i) => i < from.inputs.len(),
                        DraggingIndex::Output(i) => i < from.outputs.len(),
                    };
                    if there {
                        Some(
                            Connection {
                                start_pos: from.port_pos(props.index),
                                end_pos: FracPoint::whole(props.to),
                            },
                        )
                    } else {
                        None
                    }
                },
                None => None,
            },
            _ => None,
        }
    }
}

} // verus!
