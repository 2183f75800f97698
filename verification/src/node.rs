use vstd::prelude::*;
use vstd::math::abs;
use vstd::std_specs::cmp::PartialEqSpecImpl;
use crate::geometry::FracPoint;
use crate::geometry::Point;
use crate::geometry::SNAP_DISTANCE;
use crate::graph::DraggingIndex;

verus! {

/// Largest magnitude of a coordinate of a node's anchor.
pub const ANCHOR_LIMIT: i64 = 0x80_0000_0000;

/// Largest number of ports in one list of a node: with more, the exact
/// comparison of distances would not fit the machine's widest integers.
pub const PORT_LIMIT: usize = 0xFFFF;

/// The identifier of a node. `index` says where the graph holds the node;
/// `serial` is a number that the graph hands out once and never again, so
/// that no identifier ever names two nodes, one after the other.
#[derive(Clone, Copy, Debug, PartialEq, Eq, Hash, Structural)]
pub struct NodeId {
    pub index: u32,
    pub serial: u64,
}

/// One port of a node. The library looks only at its place in its list;
/// `payload` is what the compute unit attached to it, as bytes.
#[derive(Clone, Debug)]
pub struct Port {
    pub payload: Vec<u8>,
}

/// A positioned, sized unit of the graph with its ports.
///
/// `position` is the top-left corner. `instance` is the compute unit behind
/// the node, as bytes that the library carries and never reads; `name` and
/// `description` are what that unit reports of itself. `running`, `queued`
/// and `error` describe the current run and are never stored.
#[derive(Clone, Debug)]
pub struct Node {
    pub instance: Vec<u8>,
    pub name: String,
    pub description: String,
    pub running: bool,
    pub queued: bool,
    pub error: Option<String>,
    pub id: NodeId,
    pub position: Point,
    pub inputs: Vec<Port>,
    pub outputs: Vec<Port>,
    pub width: u32,
    pub height: u32,
}

/// What is stored of a node: everything but the state of its current run
/// and what the compute unit reports of itself.
#[derive(Clone, Debug)]
pub struct NodeRecord {
    pub instance: Vec<u8>,
    pub id: NodeId,
    pub position: Point,
    pub inputs: Vec<Port>,
    pub outputs: Vec<Port>,
    pub width: u32,
    pub height: u32,
}

impl PartialEq for Node {
    fn eq(&self, other: &Self) -> (same: bool) {
        self.id == other.id
    }
}

impl PartialEqSpecImpl for Node {
    open spec fn obeys_eq_spec() -> bool {
        true
    }

    open spec fn eq_spec(&self, other: &Self) -> bool {
        self.id == other.id
    }
}

/// Port `index` of the output list, or of the input list.
pub open spec fn port_at(outputs: bool, index: usize) -> DraggingIndex {
    if outputs {
        DraggingIndex::Output(index)
    } else {
        DraggingIndex::Input(index)
    }
}

/// Of two numbers the one of smaller magnitude has the smaller square.
proof fn lemma_square_order(a: int, m: int, b: int, n: int)
    by (nonlinear_arith)
    requires
        0 <= m <= n,
        a == m || a == -m,
        b == n || b == -n,
    ensures
        a * a <= b * b,
        m < n ==> a * a < b * b,
{
}

/// Multiplying by a positive number keeps the order.
proof fn lemma_scale_order(x: int, y: int, k: int)
    by (nonlinear_arith)
    requires
        k > 0,
    ensures
        x <= y ==> x * k <= y * k,
        x < y ==> x * k < y * k,
        x * k <= y * k ==> x <= y,
        x * k < y * k ==> x < y,
{
}

/// A square is not negative, and the square of a positive number is
/// positive.
proof fn lemma_square_sign(a: int)
    by (nonlinear_arith)
    ensures
        a * a >= 0,
        a != 0 ==> a * a > 0,
{
}

/// A number of magnitude `reach` or more has a square of `reach * reach` or
/// more.
proof fn lemma_square_beyond(a: int, reach: int)
    by (nonlinear_arith)
    requires
        reach >= 0,
        a >= reach || a <= -reach,
    ensures
        a * a >= reach * reach,
{
}

impl Node {
    /// The anchor lies within `ANCHOR_LIMIT` of the origin, width and height
    /// are positive, and neither list has more than `PORT_LIMIT` ports.
    pub open spec fn wf(&self) -> bool {
        &&& -ANCHOR_LIMIT <= self.position.x <= ANCHOR_LIMIT
        &&& -ANCHOR_LIMIT <= self.position.y <= ANCHOR_LIMIT
        &&& self.width > 0
        &&& self.height > 0
        &&& self.inputs.len() <= PORT_LIMIT
        &&& self.outputs.len() <= PORT_LIMIT
    }

    /// Tests `wf`.
    pub fn is_wf(&self) -> (ok: bool)
        ensures
            ok == self.wf(),
    {
        -ANCHOR_LIMIT <= self.position.x && self.position.x <= ANCHOR_LIMIT && -ANCHOR_LIMIT
            <= self.position.y && self.position.y <= ANCHOR_LIMIT && self.width > 0 && self.height
            > 0 && self.inputs.len() <= PORT_LIMIT && self.outputs.len() <= PORT_LIMIT
    }

    /// A node as it is when created: not running, not queued, no error, and
    /// no identifier of a graph yet.
    pub fn new(
        instance: Vec<u8>,
        name: String,
        description: String,
        position: Point,
        width: u32,
        height: u32,
        inputs: Vec<Port>,
        outputs: Vec<Port>,
    ) -> (node: Node)
        ensures
            node.instance == instance,
            node.name == name,
            node.description == description,
            node.position == position,
            node.width == width,
            node.height == height,
            node.inputs == inputs,
            node.outputs == outputs,
            node.id == (NodeId { index: 0, serial: 0 }),
            !node.running,
            !node.queued,
            node.error is None,
    {
        Node {
            instance,
            name,
            description,
            running: false,
            queued: false,
            error: None,
            id: NodeId { index: 0, serial: 0 },
            position,
            inputs,
            outputs,
            width,
            height,
        }
    }

    /// What is stored of the node.
    pub fn into_record(self) -> (record: NodeRecord)
        ensures
            record.instance == self.instance,
            record.id == self.id,
            record.position == self.position,
            record.inputs == self.inputs,
            record.outputs == self.outputs,
            record.width == self.width,
            record.height == self.height,
    {
        NodeRecord {
            instance: self.instance,
            id: self.id,
            position: self.position,
            inputs: self.inputs,
            outputs: self.outputs,
            width: self.width,
            height: self.height,
        }
    }

    /// The node that was stored as `record`, with the name and description
    /// that its compute unit reports now: not running, not queued, and
    /// without an error, whatever it was when it was stored.
    pub fn restore(record: NodeRecord, name: String, description: String) -> (node: Node)
        ensures
            node.instance == record.instance,
            node.name == name,
            node.description == description,
            node.id == record.id,
            node.position == record.position,
            node.inputs == record.inputs,
            node.outputs == record.outputs,
            node.width == record.width,
            node.height == record.height,
            !node.running,
            !node.queued,
            node.error is None,
    {
        Node {
            instance: record.instance,
            name,
            description,
            running: false,
            queued: false,
            error: None,
            id: record.id,
            position: record.position,
            inputs: record.inputs,
            outputs: record.outputs,
            width: record.width,
            height: record.height,
        }
    }

    /// The number of ports in one of the two lists.
    pub open spec fn count_of(&self, outputs: bool) -> int {
        if outputs {
            self.outputs.len() as int
        } else {
            self.inputs.len() as int
        }
    }

    /// The denominator over which the ports of a list are placed: one more
    /// than the number of ports.
    pub open spec fn den_of(&self, outputs: bool) -> int {
        self.count_of(outputs) + 1
    }

    /// The horizontal place of the ports of a list: inputs one unit left of
    /// the left edge, outputs one unit inside the right edge.
    pub open spec fn port_x(&self, outputs: bool) -> int {
        if outputs {
            self.position.x + self.width - 1
        } else {
            self.position.x - 1
        }
    }

    /// The vertical place of port `index` of a list, times `den_of`: the
    /// port lies at `position.y + (index + 1) * height / (count + 1)`, a
    /// fraction that is kept exact.
    pub open spec fn row_num(&self, outputs: bool, index: int) -> int {
        self.position.y * self.den_of(outputs) + (index + 1) * self.height
    }

    /// Whether the node has the port.
    pub open spec fn has_port(&self, port: DraggingIndex) -> bool {
        match port {
            DraggingIndex::Input(i) => i < self.inputs.len(),
            DraggingIndex::Output(i) => i < self.outputs.len(),
        }
    }

    /// Where the port sits, as numerators of x and y and their denominator.
    pub open spec fn port_pos_spec(&self, port: DraggingIndex) -> (int, int, int) {
        (
            self.port_x(port.is_output()) * self.den_of(port.is_output()),
            self.row_num(port.is_output(), port.position()),
            self.den_of(port.is_output()),
        )
    }

    /// The anchor moved up and left by half the node's size, in halves of a
    /// unit.
    pub open spec fn center_spec(&self) -> (int, int, int) {
        (2 * self.position.x - self.width, 2 * self.position.y - self.height, 2)
    }

    /// How far the port lies below `p`, times the port's denominator.
    pub open spec fn gap(&self, port: DraggingIndex, p: (int, int)) -> int {
        self.row_num(port.is_output(), port.position()) - p.1 * self.den_of(port.is_output())
    }

    /// The squared distance from the port to `p`, times the square of the
    /// port's denominator.
    pub open spec fn scaled_distance(&self, port: DraggingIndex, p: (int, int)) -> int {
        (self.port_x(port.is_output()) - p.0) * (self.port_x(port.is_output()) - p.0) * (self.den_of(
            port.is_output(),
        ) * self.den_of(port.is_output())) + self.gap(port, p) * self.gap(port, p)
    }

    /// Port `a` is at most as far from `p` as port `b`.
    pub open spec fn as_near(&self, a: DraggingIndex, b: DraggingIndex, p: (int, int)) -> bool {
        self.scaled_distance(a, p) * (self.den_of(b.is_output()) * self.den_of(b.is_output()))
            <= self.scaled_distance(b, p) * (self.den_of(a.is_output()) * self.den_of(
            a.is_output(),
        ))
    }

    /// Port `a` is strictly nearer to `p` than port `b`.
    pub open spec fn nearer(&self, a: DraggingIndex, b: DraggingIndex, p: (int, int)) -> bool {
        self.scaled_distance(a, p) * (self.den_of(b.is_output()) * self.den_of(b.is_output()))
            < self.scaled_distance(b, p) * (self.den_of(a.is_output()) * self.den_of(
            a.is_output(),
        ))
    }

    /// The port is within the snap distance of `p`: its squared distance is
    /// less than the square of `SNAP_DISTANCE`.
    pub open spec fn snaps_spec(&self, port: DraggingIndex, p: (int, int)) -> bool {
        self.scaled_distance(port, p) < SNAP_DISTANCE * SNAP_DISTANCE * (self.den_of(
            port.is_output(),
        ) * self.den_of(port.is_output()))
    }

    /// `index` is the input port nearest to `p`; of several equally near, the
    /// first.
    pub open spec fn is_nearest_input(&self, index: usize, p: (int, int)) -> bool {
        &&& index < self.inputs.len()
        &&& forall|j: usize|
            j < self.inputs.len() ==> #[trigger] self.as_near(
                DraggingIndex::Input(index),
                DraggingIndex::Input(j),
                p,
            )
        &&& forall|j: usize|
            j < index ==> #[trigger] self.nearer(
                DraggingIndex::Input(index),
                DraggingIndex::Input(j),
                p,
            )
    }

    /// `index` is the output port nearest to `p`; of several equally near,
    /// the first.
    pub open spec fn is_nearest_output(&self, index: usize, p: (int, int)) -> bool {
        &&& index < self.outputs.len()
        &&& forall|j: usize|
            j < self.outputs.len() ==> #[trigger] self.as_near(
                DraggingIndex::Output(index),
                DraggingIndex::Output(j),
                p,
            )
        &&& forall|j: usize|
            j < index ==> #[trigger] self.nearer(
                DraggingIndex::Output(index),
                DraggingIndex::Output(j),
                p,
            )
    }

    /// `port` is the port nearest to `p` among all the node's ports. Inputs
    /// come before outputs, and of several equally near ports the first is
    /// the nearest.
    pub open spec fn is_nearest_port(&self, port: DraggingIndex, p: (int, int)) -> bool {
        &&& self.has_port(port)
        &&& forall|q: DraggingIndex| self.has_port(q) ==> #[trigger] self.as_near(port, q, p)
        &&& forall|q: DraggingIndex|
            self.has_port(q) && q.comes_before(port) ==> #[trigger] self.nearer(port, q, p)
    }

    /// The input port nearest to `p`, if the node has an input.
    pub open spec fn nearest_input_spec(&self, p: (int, int)) -> Option<usize> {
        if exists|i: usize| self.is_nearest_input(i, p) {
            Some(choose|i: usize| self.is_nearest_input(i, p))
        } else {
            None
        }
    }

    /// The output port nearest to `p`, if the node has an output.
    pub open spec fn nearest_output_spec(&self, p: (int, int)) -> Option<usize> {
        if exists|i: usize| self.is_nearest_output(i, p) {
            Some(choose|i: usize| self.is_nearest_output(i, p))
        } else {
            None
        }
    }

    /// The port nearest to `p`, if the node has a port.
    pub open spec fn nearest_port_spec(&self, p: (int, int)) -> Option<DraggingIndex> {
        if exists|port: DraggingIndex| self.is_nearest_port(port, p) {
            Some(choose|port: DraggingIndex| self.is_nearest_port(port, p))
        } else {
            None
        }
    }

    /// The port that a pointer at `p` is on: the nearest port of the node,
    /// if it is within the snap distance.
    pub open spec fn port_under_spec(&self, p: (int, int)) -> Option<DraggingIndex> {
        match self.nearest_port_spec(p) {
            Some(port) => if self.snaps_spec(port, p) {
                Some(port)
            } else {
                None
            },
            None => None,
        }
    }

    /// Every port of a list lies strictly between the node's top and bottom
    /// edge, and of two ports of the list the later lies strictly lower. The
    /// rows are the fractions `row_num / den_of`, so the statement compares
    /// numerators over the one denominator of the list.
    pub proof fn lemma_port_rows(&self, outputs: bool, i: int, j: int)
        requires
            self.height > 0,
            0 <= i <= j < self.count_of(outputs),
        ensures
            self.position.y * self.den_of(outputs) < self.row_num(outputs, i),
            self.row_num(outputs, i) < (self.position.y + self.height) * self.den_of(outputs),
            i < j ==> self.row_num(outputs, i) < self.row_num(outputs, j),
    {
        let h: int = self.height as int;
        let d: int = self.den_of(outputs);
        let y: int = self.position.y as int;
        assert((i + 1) * h > 0) by (nonlinear_arith)
            requires
                i >= 0,
                h > 0,
        ;
        assert((i + 1) * h < d * h) by (nonlinear_arith)
            requires
                i + 1 < d,
                h > 0,
        ;
        assert((y + h) * d == y * d + d * h) by (nonlinear_arith);
        if i < j {
            assert((i + 1) * h < (j + 1) * h) by (nonlinear_arith)
                requires
                    i < j,
                    h > 0,
            ;
        }
    }

    /// Among the ports of one list the port whose row is nearer to `p` is
    /// the nearer port.
    proof fn lemma_same_list(&self, outputs: bool, i: usize, j: usize, p: (int, int))
        ensures
            abs(self.gap(port_at(outputs, i), p)) <= abs(self.gap(port_at(outputs, j), p))
                ==> self.as_near(port_at(outputs, i), port_at(outputs, j), p),
            abs(self.gap(port_at(outputs, i), p)) < abs(self.gap(port_at(outputs, j), p))
                ==> self.nearer(port_at(outputs, i), port_at(outputs, j), p),
    {
        let a = port_at(outputs, i);
        let b = port_at(outputs, j);
        let d: int = self.den_of(outputs);
        let k: int = d * d;
        let ga: int = self.gap(a, p);
        let gb: int = self.gap(b, p);
        assert(a.is_output() == outputs && b.is_output() == outputs);
        lemma_square_sign(d);
        if abs(ga) <= abs(gb) {
            lemma_square_order(ga, abs(ga) as int, gb, abs(gb) as int);
            lemma_scale_order(self.scaled_distance(a, p), self.scaled_distance(b, p), k);
        }
    }

    /// Of two ports of one list, the farther does not snap if the nearer
    /// does not.
    proof fn lemma_farther_does_not_snap(&self, a: DraggingIndex, b: DraggingIndex, p: (int, int))
        requires
            a.is_output() == b.is_output(),
            self.as_near(a, b, p),
            !self.snaps_spec(a, p),
        ensures
            !self.snaps_spec(b, p),
    {
        let d: int = self.den_of(a.is_output());
        lemma_square_sign(d);
        lemma_scale_order(self.scaled_distance(a, p), self.scaled_distance(b, p), d * d);
    }

    /// A port that snaps is strictly nearer than one that does not.
    proof fn lemma_snapping_is_nearer(&self, a: DraggingIndex, b: DraggingIndex, p: (int, int))
        requires
            self.snaps_spec(a, p),
            !self.snaps_spec(b, p),
        ensures
            self.nearer(a, b, p),
    {
        let da: int = self.den_of(a.is_output());
        let db: int = self.den_of(b.is_output());
        let sa: int = self.scaled_distance(a, p);
        let sb: int = self.scaled_distance(b, p);
        let snap: int = SNAP_DISTANCE * SNAP_DISTANCE;
        lemma_square_sign(da);
        lemma_square_sign(db);
        lemma_scale_order(sa, snap * (da * da), db * db);
        lemma_scale_order(snap * (db * db), sb, da * da);
        assert(snap * (da * da) * (db * db) == snap * (db * db) * (da * da)) by (nonlinear_arith);
    }

    /// A port as near as a port of another list is as near as every port of
    /// that list that is no nearer.
    proof fn lemma_near_through(
        &self,
        a: DraggingIndex,
        b: DraggingIndex,
        c: DraggingIndex,
        p: (int, int),
    )
        requires
            b.is_output() == c.is_output(),
            self.as_near(b, c, p),
        ensures
            self.as_near(a, b, p) ==> self.as_near(a, c, p),
            self.nearer(a, b, p) ==> self.nearer(a, c, p),
    {
        let da: int = self.den_of(a.is_output());
        let db: int = self.den_of(b.is_output());
        let sa: int = self.scaled_distance(a, p);
        let sb: int = self.scaled_distance(b, p);
        let sc: int = self.scaled_distance(c, p);
        lemma_square_sign(da);
        lemma_square_sign(db);
        lemma_scale_order(sb, sc, db * db);
        lemma_scale_order(sb, sc, da * da);
    }

    /// No two input ports are both the nearest.
    pub proof fn lemma_nearest_input_unique(&self, index: usize, p: (int, int))
        requires
            self.is_nearest_input(index, p),
        ensures
            self.nearest_input_spec(p) == Some(index),
    {
        let other: usize = choose|i: usize| self.is_nearest_input(i, p);
        let a = DraggingIndex::Input(index);
        let b = DraggingIndex::Input(other);
        assert(self.as_near(a, b, p) && self.as_near(b, a, p));
        if other < index {
            assert(self.nearer(a, b, p));
        }
        if index < other {
            assert(self.nearer(b, a, p));
        }
    }

    /// No two output ports are both the nearest.
    pub proof fn lemma_nearest_output_unique(&self, index: usize, p: (int, int))
        requires
            self.is_nearest_output(index, p),
        ensures
            self.nearest_output_spec(p) == Some(index),
    {
        let other: usize = choose|i: usize| self.is_nearest_output(i, p);
        let a = DraggingIndex::Output(index);
        let b = DraggingIndex::Output(other);
        assert(self.as_near(a, b, p) && self.as_near(b, a, p));
        if other < index {
            assert(self.nearer(a, b, p));
        }
        if index < other {
            assert(self.nearer(b, a, p));
        }
    }

    /// No two ports are both the nearest.
    pub proof fn lemma_nearest_port_unique(&self, port: DraggingIndex, p: (int, int))
        requires
            self.is_nearest_port(port, p),
        ensures
            self.nearest_port_spec(p) == Some(port),
    {
        let other: DraggingIndex = choose|q: DraggingIndex| self.is_nearest_port(q, p);
        assert(self.as_near(port, other, p) && self.as_near(other, port, p));
        if other.comes_before(port) {
            assert(self.nearer(port, other, p));
        }
        if port.comes_before(other) {
            assert(self.nearer(other, port, p));
        }
    }

    fn count(&self, outputs: bool) -> (n: usize)
        ensures
            n == self.count_of(outputs),
    {
        if outputs {
            self.outputs.len()
        } else {
            self.inputs.len()
        }
    }

    fn port_x_of(&self, outputs: bool) -> (x: i64)
        requires
            self.wf(),
        ensures
            x == self.port_x(outputs),
    {
        if outputs {
            self.position.x + self.width as i64 - 1
        } else {
            self.position.x - 1
        }
    }

    fn row_num_of(&self, outputs: bool, index: usize) -> (row: i128)
        requires
            self.wf(),
            index < self.count_of(outputs),
        ensures
            row == self.row_num(outputs, index as int),
            -0x100_0000_0000_0000 <= row <= 0x100_0000_0000_0000,
    {
        let den: i128 = self.count(outputs) as i128 + 1;
        let y: i128 = self.position.y as i128;
        let steps: i128 = index as i128 + 1;
        let h: i128 = self.height as i128;
        assert(-0x80_0000_0000 * 0x1_0000 <= y * den <= 0x80_0000_0000 * 0x1_0000)
            by (nonlinear_arith)
            requires
                -0x80_0000_0000 <= y <= 0x80_0000_0000,
                1 <= den <= 0x1_0000,
        ;
        assert(0 <= steps * h <= 0x1_0000 * 0x1_0000_0000) by (nonlinear_arith)
            requires
                1 <= steps <= 0x1_0000,
                0 <= h <= 0x1_0000_0000,
        ;
        y * den + steps * h
    }

    fn gap_of(&self, outputs: bool, index: usize, p: Point) -> (gap: i128)
        requires
            self.wf(),
            index < self.count_of(outputs),
            p.in_range(),
        ensures
            gap == self.gap(port_at(outputs, index), p@),
            -0x400_0000_0000_0000 <= gap <= 0x400_0000_0000_0000,
    {
        let den: i128 = self.count(outputs) as i128 + 1;
        let py: i128 = p.y as i128;
        assert(-0x100_0000_0000 * 0x1_0000 <= py * den <= 0x100_0000_0000 * 0x1_0000)
            by (nonlinear_arith)
            requires
                -0x100_0000_0000 <= py <= 0x100_0000_0000,
                1 <= den <= 0x1_0000,
        ;
        self.row_num_of(outputs, index) - py * den
    }

    fn pos_of(&self, outputs: bool, index: usize) -> (p: FracPoint)
        requires
            self.wf(),
            index < self.count_of(outputs),
        ensures
            p@ == self.port_pos_spec(port_at(outputs, index)),
            p.den == self.den_of(outputs),
            self.position.y * p.den < p.y < (self.position.y + self.height) * p.den,
    {
        proof {
            self.lemma_port_rows(outputs, index as int, index as int);
        }
        let den: i128 = self.count(outputs) as i128 + 1;
        let x: i128 = self.port_x_of(outputs) as i128;
        assert(-0x100_0000_0000 * 0x1_0000 <= x * den <= 0x100_0000_0000 * 0x1_0000)
            by (nonlinear_arith)
            requires
                -0x100_0000_0000 <= x <= 0x100_0000_0000,
                1 <= den <= 0x1_0000,
        ;
        FracPoint { x: x * den, y: self.row_num_of(outputs, index), den }
    }

    /// Where input port `index` sits: one unit left of the left edge, on a
    /// row strictly between the top and the bottom edge.
    pub fn input_pos(&self, index: usize) -> (p: FracPoint)
        requires
            self.wf(),
            index < self.inputs.len(),
        ensures
            p@ == self.port_pos_spec(DraggingIndex::Input(index)),
            p.den == self.inputs.len() + 1,
            self.position.y * p.den < p.y < (self.position.y + self.height) * p.den,
    {
        self.pos_of(false, index)
    }

    /// Where output port `index` sits: one unit inside the right edge, on a
    /// row strictly between the top and the bottom edge.
    pub fn output_pos(&self, index: usize) -> (p: FracPoint)
        requires
            self.wf(),
            index < self.outputs.len(),
        ensures
            p@ == self.port_pos_spec(DraggingIndex::Output(index)),
            p.den == self.outputs.len() + 1,
            self.position.y * p.den < p.y < (self.position.y + self.height) * p.den,
    {
        self.pos_of(true, index)
    }

    /// Where the port sits.
    pub fn port_pos(&self, port: DraggingIndex) -> (p: FracPoint)
        requires
            self.wf(),
            self.has_port(port),
        ensures
            p@ == self.port_pos_spec(port),
            self.position.y * p.den < p.y < (self.position.y + self.height) * p.den,
    {
        match port {
            DraggingIndex::Input(i) => self.input_pos(i),
            DraggingIndex::Output(i) => self.output_pos(i),
        }
    }

    /// The anchor moved up and left by half the node's size.
    pub fn center(&self) -> (c: FracPoint)
        requires
            self.wf(),
        ensures
            c@ == self.center_spec(),
    {
        FracPoint {
            x: 2 * (self.position.x as i128) - self.width as i128,
            y: 2 * (self.position.y as i128) - self.height as i128,
            den: 2,
        }
    }

    /// The first port of one list whose row is nearest to `p`.
    fn nearest_in(&self, outputs: bool, p: Point) -> (found: Option<usize>)
        requires
            self.wf(),
            p.in_range(),
        ensures
            match found {
                Some(index) => {
                    &&& index < self.count_of(outputs)
                    &&& forall|j: usize|
                        j < self.count_of(outputs) ==> abs(self.gap(port_at(outputs, index), p@))
                            <= abs(#[trigger] self.gap(port_at(outputs, j), p@))
                    &&& forall|j: usize|
                        j < index ==> abs(self.gap(port_at(outputs, index), p@)) < abs(
                            #[trigger] self.gap(port_at(outputs, j), p@),
                        )
                },
                None => self.count_of(outputs) == 0,
            },
    {
        let count: usize = self.count(outputs);
        let mut found: Option<usize> = None;
        let mut best: i128 = 0;
        let mut i: usize = 0;
        while i < count
            invariant
                self.wf(),
                p.in_range(),
                count == self.count_of(outputs),
                i <= count,
                match found {
                    Some(index) => {
                        &&& index < i
                        &&& best == abs(self.gap(port_at(outputs, index), p@))
                        &&& forall|j: usize|
                            j < i ==> best <= abs(#[trigger] self.gap(port_at(outputs, j), p@))
                        &&& forall|j: usize|
                            j < index ==> best < abs(#[trigger] self.gap(port_at(outputs, j), p@))
                    },
                    None => i == 0,
                },
            decreases count - i,
        {
            let gap: i128 = self.gap_of(outputs, i, p);
            let size: i128 = if gap < 0 {
                -gap
            } else {
                gap
            };
            if found.is_none() || size < best {
                found = Some(i);
                best = size;
            }
            i = i + 1;
        }
        found
    }

    /// The input port nearest to `p`; `None` when the node has no input.
    pub fn nearest_input(&self, p: Point) -> (found: Option<usize>)
        requires
            self.wf(),
            p.in_range(),
        ensures
            found == self.nearest_input_spec(p@),
            found is Some ==> self.is_nearest_input(found->0, p@),
            found is None ==> self.inputs.len() == 0,
    {
        let found = self.nearest_in(false, p);
        proof {
            if let Some(index) = found {
                assert forall|j: usize| j < self.inputs.len() implies #[trigger] self.as_near(
                    DraggingIndex::Input(index),
                    DraggingIndex::Input(j),
                    p@,
                ) by {
                    assert(port_at(false, j) == DraggingIndex::Input(j));
                    self.lemma_same_list(false, index, j, p@);
                }
                assert forall|j: usize| j < index implies #[trigger] self.nearer(
                    DraggingIndex::Input(index),
                    DraggingIndex::Input(j),
                    p@,
                ) by {
                    assert(port_at(false, j) == DraggingIndex::Input(j));
                    self.lemma_same_list(false, index, j, p@);
                }
                self.lemma_nearest_input_unique(index, p@);
            }
        }
        found
    }

    /// The output port nearest to `p`; `None` when the node has no output.
    pub fn nearest_output(&self, p: Point) -> (found: Option<usize>)
        requires
            self.wf(),
            p.in_range(),
        ensures
            found == self.nearest_output_spec(p@),
            found is Some ==> self.is_nearest_output(found->0, p@),
            found is None ==> self.outputs.len() == 0,
    {
        let found = self.nearest_in(true, p);
        proof {
            if let Some(index) = found {
                assert forall|j: usize| j < self.outputs.len() implies #[trigger] self.as_near(
                    DraggingIndex::Output(index),
                    DraggingIndex::Output(j),
                    p@,
                ) by {
                    assert(port_at(true, j) == DraggingIndex::Output(j));
                    self.lemma_same_list(true, index, j, p@);
                }
                assert forall|j: usize| j < index implies #[trigger] self.nearer(
                    DraggingIndex::Output(index),
                    DraggingIndex::Output(j),
                    p@,
                ) by {
                    assert(port_at(true, j) == DraggingIndex::Output(j));
                    self.lemma_same_list(true, index, j, p@);
                }
                self.lemma_nearest_output_unique(index, p@);
            }
        }
        found
    }

    /// The squared distance from the port to `p`, times the square of the
    /// port's denominator, if the port is within the snap distance of `p`.
    fn snap_distance(&self, outputs: bool, index: usize, p: Point) -> (near: Option<i128>)
        requires
            self.wf(),
            index < self.count_of(outputs),
            p.in_range(),
        ensures
            (near is Some) == self.snaps_spec(port_at(outputs, index), p@),
            near is Some ==> near->0 == self.scaled_distance(port_at(outputs, index), p@),
            near is Some ==> 0 <= near->0 < 225 * 0x1_0000_0000,
    {
        let ghost port = port_at(outputs, index);
        let den: i128 = self.count(outputs) as i128 + 1;
        let dx: i128 = self.port_x_of(outputs) as i128 - p.x as i128;
        let gap: i128 = self.gap_of(outputs, index, p);
        let snap: i128 = SNAP_DISTANCE as i128;
        let reach: i128 = snap * den;
        proof {
            lemma_square_sign(den as int);
            lemma_square_sign(dx as int);
            lemma_square_sign(gap as int);
            assert(den * den <= 0x1_0000 * 0x1_0000) by (nonlinear_arith)
                requires
                    1 <= den <= 0x1_0000,
            ;
            assert(reach * reach == 225 * (den * den)) by (nonlinear_arith)
                requires
                    reach == 15 * den,
            ;
            assert(dx * dx * (den * den) >= 0) by (nonlinear_arith)
                requires
                    dx * dx >= 0,
                    den * den >= 0,
            ;
        }
        if dx >= snap || dx <= -snap {
            proof {
                lemma_square_beyond(dx as int, 15);
                lemma_scale_order(225, dx * dx, den * den);
            }
            return None;
        }
        if gap >= reach || gap <= -reach {
            proof {
                lemma_square_beyond(gap as int, reach as int);
            }
            return None;
        }
        assert(dx * dx <= 196) by (nonlinear_arith)
            requires
                -14 <= dx <= 14,
        ;
        assert(dx * dx * (den * den) <= 196 * (den * den)) by (nonlinear_arith)
            requires
                0 <= dx * dx <= 196,
                den * den >= 0,
        ;
        assert(gap * gap < reach * reach) by (nonlinear_arith)
            requires
                -reach < gap < reach,
        ;
        let scaled: i128 = dx * dx * (den * den) + gap * gap;
        if scaled < snap * snap * (den * den) {
            Some(scaled)
        } else {
            None
        }
    }

    /// Whether the port is within the snap distance of `p`.
    pub fn snaps(&self, port: DraggingIndex, p: Point) -> (near: bool)
        requires
            self.wf(),
            self.has_port(port),
            p.in_range(),
        ensures
            near == self.snaps_spec(port, p@),
    {
        match port {
            DraggingIndex::Input(i) => self.snap_distance(false, i, p).is_some(),
            DraggingIndex::Output(i) => self.snap_distance(true, i, p).is_some(),
        }
    }

    /// The port that a pointer at `p` is on: the nearest of all ports, if it
    /// is within the snap distance; `None` when no port is that near.
    pub fn port_under(&self, p: Point) -> (port: Option<DraggingIndex>)
        requires
            self.wf(),
            p.in_range(),
        ensures
            port == self.port_under_spec(p@),
    {
        let input = self.nearest_input(p);
        let output = self.nearest_output(p);
        let near_input: Option<(usize, i128)> = match input {
            Some(i) => match self.snap_distance(false, i, p) {
                Some(d) => Some((i, d)),
                None => None,
            },
            None => None,
        };
        let near_output: Option<(usize, i128)> = match output {
            Some(o) => match self.snap_distance(true, o, p) {
                Some(d) => Some((o, d)),
                None => None,
            },
            None => None,
        };
        let input_den: i128 = self.inputs.len() as i128 + 1;
        let output_den: i128 = self.outputs.len() as i128 + 1;
        assert(0 < input_den * input_den <= 0x1_0000 * 0x1_0000) by (nonlinear_arith)
            requires
                1 <= input_den <= 0x1_0000,
        ;
        assert(0 < output_den * output_den <= 0x1_0000 * 0x1_0000) by (nonlinear_arith)
            requires
                1 <= output_den <= 0x1_0000,
        ;
        let port: Option<DraggingIndex> = match (near_input, near_output) {
            (Some((i, di)), Some((o, dz))) => {
                assert(0 <= dz * (input_den * input_den) <= 225 * 0x1_0000_0000 * 0x1_0000_0000)
                    by (nonlinear_arith)
                    requires
                        0 <= dz < 225 * 0x1_0000_0000,
                        0 < input_den * input_den <= 0x1_0000_0000,
                ;
                assert(0 <= di * (output_den * output_den) <= 225 * 0x1_0000_0000
                    * 0x1_0000_0000) by (nonlinear_arith)
                    requires
                        0 <= di < 225 * 0x1_0000_0000,
                        0 < output_den * output_den <= 0x1_0000_0000,
                ;
                if dz * (input_den * input_den) < di * (output_den * output_den) {
                    Some(DraggingIndex::Output(o))
                } else {
                    Some(DraggingIndex::Input(i))
                }
            },
            (Some((i, _)), None) => Some(DraggingIndex::Input(i)),
            (None, Some((o, _))) => Some(DraggingIndex::Output(o)),
            (None, None) => None,
        };
        proof {
            let q = p@;
            match port {
                Some(DraggingIndex::Input(i)) => {
                    let a = DraggingIndex::Input(i);
                    assert forall|c: DraggingIndex| self.has_port(c) implies #[trigger] self.as_near(
                        a,
                        c,
                        q,
                    ) by {
                        match c {
                            DraggingIndex::Input(j) => {},
                            DraggingIndex::Output(j) => {
                                let b = DraggingIndex::Output(output->0);
                                assert(self.as_near(b, c, q));
                                if near_output is None {
                                    self.lemma_snapping_is_nearer(a, b, q);
                                }
                                self.lemma_near_through(a, b, c, q);
                            },
                        }
                    }
                    assert forall|c: DraggingIndex|
                        self.has_port(c) && c.comes_before(a) implies #[trigger] self.nearer(
                        a,
                        c,
                        q,
                    ) by {}
                    self.lemma_nearest_port_unique(a, q);
                },
                Some(DraggingIndex::Output(o)) => {
                    let a = DraggingIndex::Output(o);
                    assert forall|c: DraggingIndex| self.has_port(c) implies #[trigger] self.as_near(
                        a,
                        c,
                        q,
                    ) && (c.comes_before(a) ==> self.nearer(a, c, q)) by {
                        match c {
                            DraggingIndex::Output(j) => {},
                            DraggingIndex::Input(j) => {
                                let b = DraggingIndex::Input(input->0);
                                assert(self.as_near(b, c, q));
                                if near_input is None {
                                    self.lemma_snapping_is_nearer(a, b, q);
                                }
                                assert(self.nearer(a, b, q));
                                self.lemma_near_through(a, b, c, q);
                            },
                        }
                    }
                    assert forall|c: DraggingIndex|
                        self.has_port(c) && c.comes_before(a) implies #[trigger] self.nearer(
                        a,
                        c,
                        q,
                    ) by {
                        assert(self.as_near(a, c, q));
                    }
                    self.lemma_nearest_port_unique(a, q);
                },
                None => {
                    if let Some(c) = self.nearest_port_spec(q) {
                        assert(self.is_nearest_port(c, q));
                        match c {
                            DraggingIndex::Input(j) => {
                                let b = DraggingIndex::Input(input->0);
                                assert(self.as_near(b, c, q));
                                self.lemma_farther_does_not_snap(b, c, q);
                            },
                            DraggingIndex::Output(j) => {
                                let b = DraggingIndex::Output(output->0);
                                assert(self.as_near(b, c, q));
                                self.lemma_farther_does_not_snap(b, c, q);
                            },
                        }
                    }
                },
            }
        }
        port
    }

    /// The text that explains the node to its user.
    pub fn help_text(&self) -> (text: String)
        ensures
            text@ == self.description@,
    {
        self.description.clone()
    }
}

} // verus!
