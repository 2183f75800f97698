use flow_graph::edge::Connection;
use flow_graph::edge::Edge;
use flow_graph::edge::Link;
use flow_graph::focus::FocusState;
use flow_graph::geometry::FracPoint;
use flow_graph::geometry::Point;
use flow_graph::geometry::PointerEvent;
use flow_graph::graph::CurrentlyDragging;
use flow_graph::graph::CurrentlyDraggingProps;
use flow_graph::graph::DraggingIndex;
use flow_graph::graph::NodeDragInfo;
use flow_graph::graph::VisualGraph;
use flow_graph::node::Node;
use flow_graph::node::NodeId;
use flow_graph::node::Port;

fn ports(count: usize) -> Vec<Port> {
    let mut list: Vec<Port> = Vec::new();
    let mut i: usize = 0;
    while i < count {
        list.push(Port { payload: Vec::new() });
        i += 1;
    }
    list
}

fn sized(x: i64, y: i64, width: u32, height: u32, inputs: usize, outputs: usize) -> Node {
    Node::new(
        Vec::new(),
        String::from("n"),
        String::from("d"),
        Point::new(x, y),
        width,
        height,
        ports(inputs),
        ports(outputs),
    )
}

fn node_at(x: i64, y: i64, inputs: usize, outputs: usize) -> Node {
    sized(x, y, 80, 40, inputs, outputs)
}

fn press(page_x: i32, page_y: i32, element_x: i32, element_y: i32) -> PointerEvent {
    PointerEvent::new(page_x, page_y, element_x, element_y, 1)
}

fn at(page_x: i32, page_y: i32) -> PointerEvent {
    PointerEvent::new(page_x, page_y, 0, 0, 1)
}

fn frac(x: i128, y: i128, den: i128) -> FracPoint {
    FracPoint { x, y, den }
}

/// Node A at (100,100) with one output and node B at (300,100) with one input.
fn two_nodes() -> (VisualGraph, NodeId, NodeId) {
    let mut graph = VisualGraph::new();
    let a = graph.add_node(node_at(100, 100, 0, 1)).unwrap();
    let b = graph.add_node(node_at(300, 100, 1, 0)).unwrap();
    (graph, a, b)
}

fn link(source: NodeId, start: usize, target: NodeId, end: usize) -> Link {
    Link { source, target, edge: Edge::new(start, end) }
}

fn holding(node: NodeId, x: i64, y: i64) -> Option<CurrentlyDragging> {
    Some(CurrentlyDragging::Node(NodeDragInfo { element_offset: Point::new(x, y), node }))
}

fn drawing(from: NodeId, index: DraggingIndex, x: i64, y: i64) -> Option<CurrentlyDragging> {
    Some(CurrentlyDragging::Connection(CurrentlyDraggingProps { from, index, to: Point::new(x, y) }))
}

#[test]
fn a_new_graph_is_empty_and_idle() {
    let graph = VisualGraph::new();
    assert!(graph.is_wf());
    assert!(graph.node_ids().is_empty());
    assert!(graph.links().is_empty());
    assert!(graph.connections().is_empty());
    assert!(graph.inner.currently_dragging == None);
    assert_eq!(graph.inner.next_serial, 0);
    assert_eq!(graph.dragging_connection(), None);
    assert!(graph.node(NodeId { index: 0, serial: 0 }).is_none());
}

#[test]
fn added_nodes_get_distinct_identifiers_and_carry_them() {
    let mut graph = VisualGraph::new();
    let a = graph.add_node(node_at(1, 2, 0, 1)).unwrap();
    let b = graph.add_node(node_at(3, 4, 1, 0)).unwrap();
    let c = graph.add_node(node_at(5, 6, 2, 2)).unwrap();
    assert_eq!(a.serial, 0);
    assert_eq!(b.serial, 1);
    assert_eq!(c.serial, 2);
    assert_ne!(a.index, b.index);
    assert_ne!(a.index, c.index);
    assert_ne!(b.index, c.index);
    assert_eq!(graph.inner.next_serial, 3);
    assert_eq!(graph.node(a).unwrap().id, a);
    assert_eq!(graph.node(b).unwrap().id, b);
    assert_eq!(graph.node(c).unwrap().id, c);
    assert_eq!(graph.node(a).unwrap().position, Point::new(1, 2));
    assert_eq!(graph.node(b).unwrap().position, Point::new(3, 4));
    assert_eq!(graph.node(c).unwrap().inputs.len(), 2);
    let mut expected = vec![a, b, c];
    expected.sort_by_key(|id| id.index);
    assert_eq!(graph.node_ids(), expected);
    assert!(graph.is_wf());
}

#[test]
fn add_node_overwrites_the_identifier_given() {
    let mut graph = VisualGraph::new();
    let mut node = node_at(0, 0, 0, 0);
    node.id = NodeId { index: 77, serial: 77 };
    let first = graph.add_node(node_at(0, 0, 0, 0)).unwrap();
    let second = graph.add_node(node).unwrap();
    assert_ne!(first, second);
    assert_eq!(second.serial, 1);
    assert_eq!(graph.node(second).unwrap().id, second);
    assert!(graph.node(NodeId { index: 77, serial: 77 }).is_none());
}

#[test]
fn an_identifier_is_not_used_a_second_time() {
    let (mut graph, a, b) = two_nodes();
    graph.start_dragging_node(&press(110, 110, 10, 10), a);
    let mut focus = FocusState::new();
    focus.toggle(a);
    graph.remove_node(a).unwrap();
    let c = graph.add_node(node_at(7, 7, 0, 0)).unwrap();
    assert_ne!(c, a);
    assert_ne!(c, b);
    assert_eq!(c.serial, 2);
    assert!(graph.node(a).is_none());
    assert_eq!(graph.node(c).unwrap().id, c);
    graph.update_mouse(&at(500, 500));
    assert_eq!(graph.node(c).unwrap().position, Point::new(7, 7));
    assert_eq!(graph.node(b).unwrap().position, Point::new(300, 100));
    assert!(!focus.is_focused(c));
    assert_eq!(graph.node_ids().len(), 2);
    assert!(graph.is_wf());
}

#[test]
fn add_edge_stores_the_link() {
    let (mut graph, a, b) = two_nodes();
    let e: u32 = graph.add_edge(a, 0, b, 0).unwrap();
    assert_eq!(graph.links(), vec![(e, link(a, 0, b, 0))]);
    assert!(graph.is_wf());
}

#[test]
fn the_same_connection_can_be_stored_twice() {
    let (mut graph, a, b) = two_nodes();
    let first: u32 = graph.add_edge(a, 0, b, 0).unwrap();
    let second: u32 = graph.add_edge(a, 0, b, 0).unwrap();
    assert_ne!(first, second);
    let links = graph.links();
    assert_eq!(links.len(), 2);
    assert!(links[0].0 < links[1].0);
    assert_eq!(links[0].1, link(a, 0, b, 0));
    assert_eq!(links[1].1, link(a, 0, b, 0));
}

#[test]
fn can_join_tests_nodes_and_ports() {
    let (graph, a, b) = two_nodes();
    assert!(graph.can_join(link(a, 0, b, 0)));
    assert!(!graph.can_join(link(b, 0, a, 0)));
    assert!(!graph.can_join(link(a, 1, b, 0)));
    assert!(!graph.can_join(link(a, 0, b, 1)));
    assert!(!graph.can_join(link(a, 0, NodeId { index: 1000, serial: 0 }, 0)));
    assert!(!graph.can_join(link(NodeId { index: a.index, serial: 99 }, 0, b, 0)));
}

#[test]
fn removing_a_node_removes_its_connections_and_nothing_else() {
    let mut graph = VisualGraph::new();
    let a = graph.add_node(node_at(0, 0, 1, 1)).unwrap();
    let b = graph.add_node(node_at(200, 0, 1, 1)).unwrap();
    let c = graph.add_node(node_at(400, 0, 1, 1)).unwrap();
    let ab: u32 = graph.add_edge(a, 0, b, 0).unwrap();
    let bc: u32 = graph.add_edge(b, 0, c, 0).unwrap();
    let ca: u32 = graph.add_edge(c, 0, a, 0).unwrap();
    let removed = graph.remove_node(b).unwrap();
    assert_eq!(removed.id, b);
    assert_eq!(removed.position, Point::new(200, 0));
    assert!(graph.node(b).is_none());
    assert_eq!(graph.node(a).unwrap().id, a);
    assert_eq!(graph.node(c).unwrap().id, c);
    assert_eq!(graph.node(c).unwrap().position, Point::new(400, 0));
    let mut expected = vec![a, c];
    expected.sort_by_key(|id| id.index);
    assert_eq!(graph.node_ids(), expected);
    assert_eq!(graph.links(), vec![(ca, link(c, 0, a, 0))]);
    assert_ne!(ab, ca);
    assert_ne!(bc, ca);
    assert!(graph.is_wf());
}

#[test]
fn removing_a_node_that_is_not_there_changes_nothing() {
    let (mut graph, a, b) = two_nodes();
    let e: u32 = graph.add_edge(a, 0, b, 0).unwrap();
    assert!(graph.remove_node(NodeId { index: 1000, serial: 0 }).is_none());
    assert!(graph.remove_node(NodeId { index: a.index, serial: 50 }).is_none());
    assert_eq!(graph.node_ids().len(), 2);
    assert_eq!(graph.links(), vec![(e, link(a, 0, b, 0))]);
}

#[test]
fn a_graph_changed_behind_the_library_is_found_out() {
    let (mut graph, a, _b) = two_nodes();
    assert!(graph.is_wf());
    graph.inner.next_serial = 1;
    assert!(!graph.is_wf());
    graph.inner.next_serial = 2;
    assert!(graph.is_wf());
    graph.inner.currently_dragging = holding(a, 1 << 40, 0);
    assert!(!graph.is_wf());
}

#[test]
fn connection_snaps_to_a_near_input() {
    let (mut graph, a, b) = two_nodes();
    assert_eq!(graph.node(a).unwrap().output_pos(0), frac(179 * 2, 120 * 2, 2));
    assert_eq!(graph.node(b).unwrap().input_pos(0), frac(299 * 2, 120 * 2, 2));
    let mut focus = FocusState::new();
    graph.start_dragging_connection(&at(179, 120), a, DraggingIndex::Output(0));
    graph.update_mouse(&at(300, 120));
    assert!(graph.inner.currently_dragging == drawing(a, DraggingIndex::Output(0), 300, 120));
    let made = graph.node_mouse_up(&at(300, 120), b, &mut focus);
    let e: u32 = made.unwrap();
    assert_eq!(graph.links(), vec![(e, link(a, 0, b, 0))]);
    assert!(graph.inner.currently_dragging == None);
}

#[test]
fn connection_let_go_far_from_the_input_is_dropped() {
    let (mut graph, a, b) = two_nodes();
    let mut focus = FocusState::new();
    graph.start_dragging_connection(&at(179, 120), a, DraggingIndex::Output(0));
    graph.update_mouse(&at(250, 120));
    let made = graph.node_mouse_up(&at(250, 120), b, &mut focus);
    assert_eq!(made, None);
    assert!(graph.links().is_empty());
    assert!(graph.inner.currently_dragging == None);
}

#[test]
fn connection_at_exactly_the_snap_distance_is_dropped() {
    let (mut graph, a, b) = two_nodes();
    let mut focus = FocusState::new();
    graph.start_dragging_connection(&at(179, 120), a, DraggingIndex::Output(0));
    assert_eq!(graph.node_mouse_up(&at(314, 120), b, &mut focus), None);
    assert!(graph.links().is_empty());
    graph.start_dragging_connection(&at(179, 120), a, DraggingIndex::Output(0));
    assert!(graph.node_mouse_up(&at(313, 120), b, &mut focus).is_some());
    assert_eq!(graph.links().len(), 1);
}

#[test]
fn connection_snaps_by_the_exact_row_of_the_port() {
    let mut graph = VisualGraph::new();
    let a = graph.add_node(node_at(100, 100, 0, 1)).unwrap();
    let low = graph.add_node(sized(0, 0, 10, 1, 1, 0)).unwrap();
    let mut focus = FocusState::new();
    graph.start_dragging_connection(&at(179, 120), a, DraggingIndex::Output(0));
    assert_eq!(graph.node_mouse_up(&at(-1, 16), low, &mut focus), None);
    graph.start_dragging_connection(&at(179, 120), a, DraggingIndex::Output(0));
    let e: u32 = graph.node_mouse_up(&at(-1, 15), low, &mut focus).unwrap();
    assert_eq!(graph.links(), vec![(e, link(a, 0, low, 0))]);
}

#[test]
fn connection_drawn_from_an_input_runs_from_the_output() {
    let (mut graph, a, b) = two_nodes();
    let mut focus = FocusState::new();
    graph.start_dragging_connection(&at(299, 120), b, DraggingIndex::Input(0));
    let e: u32 = graph.node_mouse_up(&at(180, 121), a, &mut focus).unwrap();
    assert_eq!(graph.links(), vec![(e, link(a, 0, b, 0))]);
    assert!(graph.inner.currently_dragging == None);
}

#[test]
fn connection_takes_the_nearest_of_several_inputs() {
    let mut graph = VisualGraph::new();
    let a = graph.add_node(node_at(0, 0, 0, 2)).unwrap();
    let b = graph.add_node(node_at(300, 100, 3, 0)).unwrap();
    let mut focus = FocusState::new();
    assert_eq!(graph.node(b).unwrap().input_pos(2), frac(299 * 4, 130 * 4, 4));
    graph.start_dragging_connection(&at(0, 0), a, DraggingIndex::Output(1));
    let e: u32 = graph.node_mouse_up(&at(301, 128), b, &mut focus).unwrap();
    assert_eq!(graph.links(), vec![(e, link(a, 1, b, 2))]);
}

#[test]
fn connection_over_a_node_without_inputs_is_dropped() {
    let (mut graph, a, _b) = two_nodes();
    let c = graph.add_node(node_at(500, 100, 0, 1)).unwrap();
    let mut focus = FocusState::new();
    graph.start_dragging_connection(&at(179, 120), a, DraggingIndex::Output(0));
    assert_eq!(graph.node_mouse_up(&at(579, 120), c, &mut focus), None);
    assert!(graph.links().is_empty());
    assert!(graph.inner.currently_dragging == None);
}

#[test]
fn connection_does_not_snap_to_a_port_of_its_own_direction() {
    let mut graph = VisualGraph::new();
    let a = graph.add_node(node_at(100, 100, 0, 1)).unwrap();
    let c = graph.add_node(node_at(500, 100, 1, 1)).unwrap();
    let mut focus = FocusState::new();
    graph.start_dragging_connection(&at(179, 120), a, DraggingIndex::Output(0));
    assert_eq!(graph.node(c).unwrap().output_pos(0), frac(579 * 2, 120 * 2, 2));
    assert_eq!(graph.node_mouse_up(&at(579, 120), c, &mut focus), None);
    assert!(graph.links().is_empty());
}

#[test]
fn letting_go_over_a_node_while_idle_adds_nothing() {
    let (mut graph, _a, b) = two_nodes();
    let mut focus = FocusState::new();
    assert_eq!(graph.node_mouse_up(&at(299, 120), b, &mut focus), None);
    assert!(graph.links().is_empty());
    assert!(graph.inner.currently_dragging == None);
    assert_eq!(focus.currently_focused, Some(b));
}

#[test]
fn snap_link_tells_what_would_be_committed() {
    let (mut graph, a, b) = two_nodes();
    assert_eq!(graph.snap_link(b, Point::new(300, 120)), None);
    graph.start_dragging_connection(&at(179, 120), a, DraggingIndex::Output(0));
    assert_eq!(graph.snap_link(b, Point::new(300, 120)), Some(link(a, 0, b, 0)));
    assert_eq!(graph.snap_link(b, Point::new(250, 120)), None);
    assert_eq!(graph.snap_link(NodeId { index: 1000, serial: 0 }, Point::new(300, 120)), None);
    assert!(graph.links().is_empty());
}

#[test]
fn snap_port_is_the_near_port_of_the_other_direction() {
    let (graph, a, b) = two_nodes();
    let from_output =
        CurrentlyDraggingProps { from: a, index: DraggingIndex::Output(0), to: Point::new(0, 0) };
    let from_input =
        CurrentlyDraggingProps { from: b, index: DraggingIndex::Input(0), to: Point::new(0, 0) };
    assert_eq!(
        graph.snap_port(from_output, b, Point::new(300, 120)),
        Some(DraggingIndex::Input(0))
    );
    assert_eq!(graph.snap_port(from_output, b, Point::new(320, 120)), None);
    assert_eq!(graph.snap_port(from_output, a, Point::new(179, 120)), None);
    assert_eq!(
        graph.snap_port(from_input, a, Point::new(179, 120)),
        Some(DraggingIndex::Output(0))
    );
}

#[test]
fn link_between_pairs_an_output_with_an_input() {
    let (graph, a, b) = two_nodes();
    let from_output =
        CurrentlyDraggingProps { from: a, index: DraggingIndex::Output(0), to: Point::new(0, 0) };
    let from_input =
        CurrentlyDraggingProps { from: b, index: DraggingIndex::Input(0), to: Point::new(0, 0) };
    assert_eq!(graph.link_between(from_output, b, DraggingIndex::Input(0)), Some(link(a, 0, b, 0)));
    assert_eq!(graph.link_between(from_input, a, DraggingIndex::Output(0)), Some(link(a, 0, b, 0)));
    assert_eq!(graph.link_between(from_output, b, DraggingIndex::Output(0)), None);
    assert_eq!(graph.link_between(from_input, a, DraggingIndex::Input(0)), None);
    assert_eq!(graph.link_between(from_output, b, DraggingIndex::Input(1)), None);
}

#[test]
fn press_far_from_every_port_moves_the_node() {
    let (mut graph, a, _b) = two_nodes();
    graph.node_mouse_down(&press(140, 120, 40, 20), a);
    assert!(graph.inner.currently_dragging == holding(a, 40, 20));
    graph.update_mouse(&at(140, 120));
    assert_eq!(graph.node(a).unwrap().position, Point::new(100, 100));
    graph.update_mouse(&at(147, 115));
    assert_eq!(graph.node(a).unwrap().position, Point::new(107, 95));
    graph.update_mouse(&at(-60, 1020));
    assert_eq!(graph.node(a).unwrap().position, Point::new(-100, 1000));
    assert!(graph.inner.currently_dragging == holding(a, 40, 20));
    let mut focus = FocusState::new();
    assert_eq!(graph.node_mouse_up(&at(-60, 1020), a, &mut focus), None);
    assert!(graph.inner.currently_dragging == None);
    assert_eq!(graph.node(a).unwrap().position, Point::new(-100, 1000));
    assert_eq!(focus.currently_focused, Some(a));
}

#[test]
fn moving_a_node_keeps_its_other_fields_and_the_other_nodes() {
    let (mut graph, a, b) = two_nodes();
    let e: u32 = graph.add_edge(a, 0, b, 0).unwrap();
    graph.start_dragging_node(&press(110, 110, 10, 10), a);
    graph.update_mouse(&at(510, 610));
    let moved = graph.node(a).unwrap();
    assert_eq!(moved.position, Point::new(500, 600));
    assert_eq!(moved.id, a);
    assert_eq!(moved.width, 80);
    assert_eq!(moved.height, 40);
    assert_eq!(moved.inputs.len(), 0);
    assert_eq!(moved.outputs.len(), 1);
    assert_eq!(moved.name, "n");
    assert_eq!(graph.node(b).unwrap().position, Point::new(300, 100));
    assert_eq!(graph.links(), vec![(e, link(a, 0, b, 0))]);
    assert!(graph.is_wf());
}

#[test]
fn moving_a_node_at_the_limits_of_the_pointer() {
    let (mut graph, a, _b) = two_nodes();
    graph.start_dragging_node(&press(0, 0, i32::MIN, i32::MAX), a);
    graph.update_mouse(&at(i32::MAX, i32::MIN));
    assert_eq!(graph.node(a).unwrap().position, Point::new(4294967295, -4294967295));
    assert!(graph.node(a).unwrap().is_wf());
    assert!(graph.is_wf());
}

#[test]
fn press_near_a_port_starts_a_connection() {
    let (mut graph, a, b) = two_nodes();
    graph.node_mouse_down(&press(170, 125, 70, 25), a);
    assert!(graph.inner.currently_dragging == drawing(a, DraggingIndex::Output(0), 170, 125));
    assert_eq!(graph.node(a).unwrap().position, Point::new(100, 100));
    graph.node_mouse_down(&press(310, 112, 10, 12), b);
    assert!(graph.inner.currently_dragging == drawing(b, DraggingIndex::Input(0), 310, 112));
}

#[test]
fn press_exactly_at_the_snap_distance_moves_the_node() {
    let (mut graph, a, _b) = two_nodes();
    graph.node_mouse_down(&press(164, 120, 64, 20), a);
    assert!(graph.inner.currently_dragging == holding(a, 64, 20));
    graph.node_mouse_down(&press(165, 120, 65, 20), a);
    assert!(graph.inner.currently_dragging == drawing(a, DraggingIndex::Output(0), 165, 120));
}

#[test]
fn press_on_a_node_without_ports_moves_it() {
    let mut graph = VisualGraph::new();
    let a = graph.add_node(node_at(0, 0, 0, 0)).unwrap();
    graph.node_mouse_down(&press(0, 0, 0, 0), a);
    assert!(graph.inner.currently_dragging == holding(a, 0, 0));
}

#[test]
fn press_between_an_input_and_an_output_takes_the_input() {
    let mut graph = VisualGraph::new();
    let a = graph.add_node(sized(0, 0, 2, 40, 1, 1)).unwrap();
    graph.node_mouse_down(&press(0, 20, 0, 20), a);
    assert!(graph.inner.currently_dragging == drawing(a, DraggingIndex::Input(0), 0, 20));
}

#[test]
fn letting_go_on_a_port_marker_connects_the_two_ports() {
    let (mut graph, a, b) = two_nodes();
    graph.start_dragging_connection(&at(179, 120), a, DraggingIndex::Output(0));
    let e: u32 = graph.port_mouse_up(b, DraggingIndex::Input(0)).unwrap();
    assert_eq!(graph.links(), vec![(e, link(a, 0, b, 0))]);
    assert!(graph.inner.currently_dragging == None);
    graph.start_dragging_connection(&at(299, 120), b, DraggingIndex::Input(0));
    let f: u32 = graph.port_mouse_up(a, DraggingIndex::Output(0)).unwrap();
    assert_ne!(e, f);
    let links = graph.links();
    assert_eq!(links.len(), 2);
    assert_eq!(links[0].1, link(a, 0, b, 0));
    assert_eq!(links[1].1, link(a, 0, b, 0));
    assert!(graph.inner.currently_dragging == None);
}

#[test]
fn letting_go_on_a_port_marker_of_the_same_direction_adds_nothing() {
    let mut graph = VisualGraph::new();
    let a = graph.add_node(node_at(0, 0, 1, 1)).unwrap();
    let b = graph.add_node(node_at(200, 0, 1, 1)).unwrap();
    graph.start_dragging_connection(&at(0, 0), a, DraggingIndex::Output(0));
    assert_eq!(graph.port_mouse_up(b, DraggingIndex::Output(0)), None);
    assert!(graph.links().is_empty());
    assert!(graph.inner.currently_dragging == None);
    graph.start_dragging_connection(&at(0, 0), a, DraggingIndex::Input(0));
    assert_eq!(graph.port_mouse_up(b, DraggingIndex::Input(0)), None);
    assert!(graph.links().is_empty());
    assert!(graph.inner.currently_dragging == None);
}

#[test]
fn letting_go_on_a_port_marker_while_moving_a_node_adds_nothing() {
    let (mut graph, a, b) = two_nodes();
    graph.start_dragging_node(&press(0, 0, 0, 0), a);
    assert_eq!(graph.port_mouse_up(b, DraggingIndex::Input(0)), None);
    assert!(graph.links().is_empty());
    assert!(graph.inner.currently_dragging == None);
    assert_eq!(graph.port_mouse_up(b, DraggingIndex::Input(0)), None);
    assert!(graph.links().is_empty());
}

#[test]
fn a_connection_from_a_removed_node_is_dropped() {
    let (mut graph, a, b) = two_nodes();
    graph.start_dragging_connection(&at(179, 120), a, DraggingIndex::Output(0));
    graph.remove_node(a).unwrap();
    assert_eq!(graph.dragging_connection(), None);
    let mut focus = FocusState::new();
    assert_eq!(graph.node_mouse_up(&at(300, 120), b, &mut focus), None);
    assert!(graph.links().is_empty());
    assert!(graph.inner.currently_dragging == None);
}

#[test]
fn moving_a_removed_node_does_nothing() {
    let (mut graph, a, b) = two_nodes();
    graph.start_dragging_node(&press(110, 110, 10, 10), a);
    graph.remove_node(a).unwrap();
    graph.update_mouse(&at(500, 500));
    assert!(graph.node(a).is_none());
    assert_eq!(graph.node(b).unwrap().position, Point::new(300, 100));
    assert_eq!(graph.node_ids(), vec![b]);
}

#[test]
fn a_move_while_idle_changes_nothing() {
    let (mut graph, a, b) = two_nodes();
    graph.update_mouse(&at(5, 5));
    assert!(graph.inner.currently_dragging == None);
    assert_eq!(graph.node(a).unwrap().position, Point::new(100, 100));
    assert_eq!(graph.node(b).unwrap().position, Point::new(300, 100));
}

#[test]
fn clear_dragging_leads_to_idle_from_every_state() {
    let (mut graph, a, _b) = two_nodes();
    graph.clear_dragging();
    assert!(graph.inner.currently_dragging == None);
    graph.start_dragging_node(&press(0, 0, 0, 0), a);
    graph.clear_dragging();
    assert!(graph.inner.currently_dragging == None);
    graph.start_dragging_connection(&at(0, 0), a, DraggingIndex::Output(0));
    graph.clear_dragging();
    assert!(graph.inner.currently_dragging == None);
    graph.clear_dragging();
    assert!(graph.inner.currently_dragging == None);
    assert_eq!(graph.node_ids().len(), 2);
}

#[test]
fn entering_the_surface_without_buttons_ends_the_gesture() {
    let (mut graph, a, _b) = two_nodes();
    graph.start_dragging_node(&press(0, 0, 0, 0), a);
    graph.mouse_enter(&PointerEvent::new(0, 0, 0, 0, 1));
    assert!(graph.inner.currently_dragging == holding(a, 0, 0));
    graph.mouse_enter(&PointerEvent::new(0, 0, 0, 0, 0));
    assert!(graph.inner.currently_dragging == None);
    graph.mouse_enter(&PointerEvent::new(0, 0, 0, 0, 0));
    assert!(graph.inner.currently_dragging == None);
}

#[test]
fn connections_run_from_the_output_to_the_input() {
    let (mut graph, a, b) = two_nodes();
    let e: u32 = graph.add_edge(a, 0, b, 0).unwrap();
    assert_eq!(
        graph.connections(),
        vec![(
            e,
            Connection { start_pos: frac(179 * 2, 120 * 2, 2), end_pos: frac(299 * 2, 120 * 2, 2) }
        )]
    );
    graph.start_dragging_node(&press(300, 100, 0, 0), b);
    graph.update_mouse(&at(400, 200));
    assert_eq!(
        graph.connections(),
        vec![(
            e,
            Connection { start_pos: frac(179 * 2, 120 * 2, 2), end_pos: frac(399 * 2, 220 * 2, 2) }
        )]
    );
}

#[test]
fn connections_come_in_rising_order_of_their_indices() {
    let mut graph = VisualGraph::new();
    let a = graph.add_node(node_at(0, 0, 1, 3)).unwrap();
    let b = graph.add_node(node_at(200, 0, 3, 1)).unwrap();
    graph.add_edge(a, 0, b, 2).unwrap();
    graph.add_edge(a, 2, b, 0).unwrap();
    graph.add_edge(b, 0, a, 0).unwrap();
    let links = graph.links();
    let lines = graph.connections();
    assert_eq!(links.len(), 3);
    assert_eq!(lines.len(), 3);
    assert!(links[0].0 < links[1].0 && links[1].0 < links[2].0);
    let mut k: usize = 0;
    while k < 3 {
        assert_eq!(lines[k].0, links[k].0);
        let from = graph.node(links[k].1.source).unwrap();
        let to = graph.node(links[k].1.target).unwrap();
        assert_eq!(lines[k].1.start_pos, from.output_pos(links[k].1.edge.start));
        assert_eq!(lines[k].1.end_pos, to.input_pos(links[k].1.edge.end));
        k += 1;
    }
}

#[test]
fn the_connection_being_drawn_runs_from_its_port_to_the_cursor() {
    let (mut graph, a, b) = two_nodes();
    assert_eq!(graph.dragging_connection(), None);
    graph.start_dragging_connection(&at(180, 121), a, DraggingIndex::Output(0));
    assert_eq!(
        graph.dragging_connection(),
        Some(Connection { start_pos: frac(179 * 2, 120 * 2, 2), end_pos: frac(180, 121, 1) })
    );
    graph.update_mouse(&at(250, 90));
    assert_eq!(
        graph.dragging_connection(),
        Some(Connection { start_pos: frac(179 * 2, 120 * 2, 2), end_pos: frac(250, 90, 1) })
    );
    graph.start_dragging_connection(&at(1, 2), b, DraggingIndex::Input(0));
    assert_eq!(
        graph.dragging_connection(),
        Some(Connection { start_pos: frac(299 * 2, 120 * 2, 2), end_pos: frac(1, 2, 1) })
    );
    graph.start_dragging_connection(&at(1, 2), b, DraggingIndex::Input(5));
    assert_eq!(graph.dragging_connection(), None);
    graph.start_dragging_node(&press(0, 0, 0, 0), a);
    assert_eq!(graph.dragging_connection(), None);
}

#[test]
fn clicking_a_node_twice_brings_the_focus_back() {
    let (mut graph, a, b) = two_nodes();
    let mut focus = FocusState::new();
    graph.node_mouse_down(&press(140, 110, 40, 10), a);
    graph.node_mouse_up(&at(140, 110), a, &mut focus);
    assert_eq!(focus.currently_focused, Some(a));
    graph.node_mouse_down(&press(140, 110, 40, 10), a);
    graph.node_mouse_up(&at(140, 110), a, &mut focus);
    assert_eq!(focus.currently_focused, None);
    graph.node_mouse_up(&at(340, 110), b, &mut focus);
    assert_eq!(focus.currently_focused, Some(b));
    graph.node_mouse_up(&at(140, 110), a, &mut focus);
    assert_eq!(focus.currently_focused, Some(a));
}

#[test]
fn committing_a_connection_also_moves_the_focus() {
    let (mut graph, a, b) = two_nodes();
    let mut focus = FocusState::new();
    graph.start_dragging_connection(&at(179, 120), a, DraggingIndex::Output(0));
    assert!(graph.node_mouse_up(&at(300, 120), b, &mut focus).is_some());
    assert_eq!(focus.currently_focused, Some(b));
}

#[test]
fn gestures_have_short_names() {
    let id = NodeId { index: 0, serial: 0 };
    let node = CurrentlyDragging::Node(NodeDragInfo { element_offset: Point::new(0, 0), node: id });
    let connection = CurrentlyDragging::Connection(CurrentlyDraggingProps {
        from: id,
        index: DraggingIndex::Input(0),
        to: Point::new(0, 0),
    });
    assert_eq!(node.label(), "Node");
    assert_eq!(connection.label(), "Connection");
}
