//! The canvas as a plain record, to be written to a file and read back.
//!
//! A record holds the node table, the edge table and the view. It does not
//! hold what is selected or edited, nor a gesture in progress. A node stands
//! in it under the index of its slot; generations belong to a graph while it
//! lives, and a restored graph gives its nodes new ones.

use vstd::prelude::*;
use crate::canvas::data::CanvasWidget;
use crate::geometry::Point;
use crate::graph::edge::Edge;
use crate::graph::edge::Link;
use crate::graph::edge::EdgeId;
use crate::graph::edge::EdgeType;
use crate::graph::model::GraphModel;
use crate::graph::node::Node;
use crate::graph::node::NodeId;
use crate::graph::Graph;
use crate::input::state_manager::GestureState;
use crate::transform::clamp_scale;
use crate::transform::CanvasTransform;
use crate::transform::TransformModel;

verus! {

/// A node of a record.
#[derive(Debug)]
pub struct NodeRecord {
    /// The index of the slot of the node.
    pub id: u32,
    pub x: i64,
    pub y: i64,
    pub width: u32,
    pub height: u32,
    pub label: String,
}

/// An edge of a record.
#[derive(Clone, Copy, Debug, PartialEq, Eq, Structural)]
pub struct EdgeRecord {
    pub source: u32,
    pub target: u32,
    pub edge_type: EdgeType,
}

/// A canvas as a record.
#[derive(Debug)]
pub struct CanvasRecord {
    /// The nodes, from the smallest index to the largest.
    pub nodes: Vec<NodeRecord>,
    /// The edges, in any order.
    pub edges: Vec<EdgeRecord>,
    /// The scale of the view, in millionths.
    pub scale: u32,
    /// The translation of the view.
    pub dx: i64,
    pub dy: i64,
}

/// Why a record cannot be restored.
#[derive(Clone, Copy, Debug, PartialEq, Eq, Structural)]
pub enum RecordError {
    /// The indices of the nodes do not grow from each node to the next.
    NodesOutOfOrder,
    /// A node has the one index that no graph hands out, `u32::MAX`.
    NodeIdOutOfRange,
    /// There are more edges than a graph can index.
    TooManyEdges,
    /// An edge starts or ends at an index that no node of the record has.
    MissingEndpoint,
    /// The generations that are left do not suffice for a graph.
    OutOfGenerations,
}

/// The largest generation at which a restored graph can start: from there
/// on there is a generation for every slot that a node table can have.
pub const LAST_START: u64 = 0xffff_ffff_0000_0000;

impl NodeRecord {
    /// The node that the record stands for.
    pub open spec fn node(self) -> Node {
        Node {
            position: Point { x: self.x, y: self.y },
            width: self.width,
            height: self.height,
            label: self.label,
        }
    }

    /// The record of a node.
    pub open spec fn of(id: u32, node: Node) -> NodeRecord {
        NodeRecord {
            id,
            x: node.position.x,
            y: node.position.y,
            width: node.width,
            height: node.height,
            label: node.label,
        }
    }
}

impl EdgeRecord {
    /// The edge that the record stands for, between two slots of the node
    /// table.
    pub open spec fn link(self) -> Link {
        Link { source: self.source, target: self.target, edge_type: self.edge_type }
    }
}

/// The indices grow from each node to the next.
pub open spec fn ascending(nodes: Seq<NodeRecord>) -> bool {
    forall|i: int, j: int| 0 <= i < j < nodes.len() ==> nodes[i].id < nodes[j].id
}

/// Some node of the list has the index.
pub open spec fn has_id(nodes: Seq<NodeRecord>, k: int) -> bool {
    exists|i: int| 0 <= i < nodes.len() && nodes[i].id == k
}

/// The node table that a list of node records stands for, by the index of
/// the slot.
pub open spec fn node_table(nodes: Seq<NodeRecord>) -> Map<int, Node> {
    Map::new(
        |k: int| has_id(nodes, k),
        |k: int| nodes[choose|i: int| 0 <= i < nodes.len() && nodes[i].id == k].node(),
    )
}

/// How often an edge occurs in a list of edge records.
pub open spec fn occurrences(edges: Seq<EdgeRecord>, e: Link) -> nat
    decreases edges.len(),
{
    if edges.len() == 0 {
        0
    } else {
        occurrences(edges.drop_last(), e) + if edges.last().link() == e {
            1nat
        } else {
            0nat
        }
    }
}

/// The indices at which an edge table holds an edge.
pub open spec fn held_at(edges: Map<int, Link>, e: Link) -> Set<int> {
    Set::new(|k: int| edges.dom().contains(k) && edges[k] == e)
}

/// How many edges of an edge table are equal to an edge.
pub open spec fn copies(edges: Map<int, Link>, e: Link) -> nat {
    held_at(edges, e).len()
}

impl CanvasRecord {
    /// Why the record cannot be restored, if it cannot.
    pub open spec fn refusal(self) -> Option<RecordError> {
        if !ascending(self.nodes@) {
            Some(RecordError::NodesOutOfOrder)
        } else if has_id(self.nodes@, u32::MAX as int) {
            Some(RecordError::NodeIdOutOfRange)
        } else if self.edges@.len() > u32::MAX {
            Some(RecordError::TooManyEdges)
        } else if exists|j: int|
            0 <= j < self.edges@.len() && !(has_id(self.nodes@, self.edges@[j].source as int)
                && has_id(self.nodes@, self.edges@[j].target as int)) {
            Some(RecordError::MissingEndpoint)
        } else {
            None
        }
    }

    /// Why the record cannot be restored into a graph that starts at the
    /// generation `first`, if it cannot.
    pub open spec fn refusal_after(self, first: u64) -> Option<RecordError> {
        if first > LAST_START {
            Some(RecordError::OutOfGenerations)
        } else {
            self.refusal()
        }
    }

    /// The record is that of the canvas: it lists every node once, by
    /// growing index, with its place, size and label; it holds every edge
    /// as often as the graph does; and it holds the view.
    pub open spec fn records(self, g: GraphModel, view: TransformModel) -> bool {
        &&& ascending(self.nodes@)
        &&& forall|i: int|
            0 <= i < self.nodes@.len() ==> g.nodes.dom().contains(
                (#[trigger] self.nodes@[i]).id as int,
            ) && self.nodes@[i] == NodeRecord::of(
                self.nodes@[i].id,
                g.nodes[self.nodes@[i].id as int],
            )
        &&& forall|k: int| g.nodes.dom().contains(k) ==> has_id(self.nodes@, k)
        &&& self.edges@.len() == g.edges.dom().len()
        &&& forall|e: Link| occurrences(self.edges@, e) == copies(g.edges, e)
        &&& self.scale == view.scale
        &&& self.dx == view.dx
        &&& self.dy == view.dy
    }

    /// The canvas is the one that the record stands for: the nodes under
    /// their indices, every edge as often as the record holds it, the
    /// view with its scale brought within bounds, nothing selected or
    /// edited, and edges drawn as lines.
    pub open spec fn restores(self, g: GraphModel, view: TransformModel) -> bool {
        &&& g.wf()
        &&& g.nodes == node_table(self.nodes@)
        &&& g.edges.dom().len() == self.edges@.len()
        &&& forall|e: Link| copies(g.edges, e) == occurrences(self.edges@, e)
        &&& g.selected is None
        &&& g.editing is None
        &&& g.temp_edge is None
        &&& g.selection == Set::<NodeId>::empty()
        &&& g.edge_type == EdgeType::Line
        &&& view == (TransformModel {
            scale: clamp_scale(self.scale as int),
            dx: self.dx as int,
            dy: self.dy as int,
        })
    }
}

/// Adding an edge under an unused index adds one copy of that edge and none
/// of any other.
pub proof fn lemma_copies_insert(edges: Map<int, Link>, k: int, added: Link, e: Link)
    requires
        edges.dom().finite(),
        !edges.dom().contains(k),
    ensures
        copies(edges.insert(k, added), e) == copies(edges, e) + if added == e {
            1nat
        } else {
            0nat
        },
{
    let before_set = held_at(edges, e);
    let after_set = held_at(edges.insert(k, added), e);
    assert(before_set.subset_of(edges.dom()));
    vstd::set_lib::lemma_len_subset(before_set, edges.dom());
    if added == e {
        assert(after_set =~= before_set.insert(k));
    } else {
        assert(after_set =~= before_set);
    }
}

/// A list of edge records one longer holds one more occurrence of its last
/// edge and as many of every other.
pub proof fn lemma_occurrences_take(edges: Seq<EdgeRecord>, n: int, e: Link)
    requires
        0 <= n < edges.len(),
    ensures
        occurrences(edges.take(n + 1), e) == occurrences(edges.take(n), e) + if edges[n].link()
            == e {
            1nat
        } else {
            0nat
        },
{
    assert(edges.take(n + 1).drop_last() =~= edges.take(n));
}

/// An edge of a list occurs in it.
pub proof fn lemma_member_occurs(edges: Seq<EdgeRecord>, j: int)
    requires
        0 <= j < edges.len(),
    ensures
        occurrences(edges, edges[j].link()) >= 1,
    decreases edges.len(),
{
    if j < edges.len() - 1 {
        lemma_member_occurs(edges.drop_last(), j);
    }
}

/// An edge that a table holds at least once is the edge at some index.
pub proof fn lemma_copy_exists(edges: Map<int, Link>, e: Link)
    requires
        edges.dom().finite(),
        copies(edges, e) >= 1,
    ensures
        exists|k: int| edges.dom().contains(k) && edges[k] == e,
{
    let held = held_at(edges, e);
    assert(held.subset_of(edges.dom()));
    vstd::set_lib::lemma_len_subset(held, edges.dom());
    let k = held.choose();
    assert(held.contains(k));
    assert(edges.dom().contains(k) && edges[k] == e);
}

/// The edges of a consistent graph are at most `u32::MAX`.
pub proof fn lemma_edge_count_bounded(g: GraphModel)
    requires
        g.wf(),
    ensures
        g.edges.dom().len() <= u32::MAX,
{
    let range = vstd::set_lib::set_int_range(0, u32::MAX as int);
    vstd::set_lib::lemma_int_range(0, u32::MAX as int);
    assert(g.edges.dom().subset_of(range));
    vstd::set_lib::lemma_len_subset(g.edges.dom(), range);
}

/// The record of a consistent canvas can be restored.
pub proof fn lemma_record_is_accepted(rec: CanvasRecord, g: GraphModel, view: TransformModel)
    requires
        g.wf(),
        rec.records(g, view),
    ensures
        rec.refusal() is None,
{
    if has_id(rec.nodes@, u32::MAX as int) {
        let i = choose|i: int| 0 <= i < rec.nodes@.len() && rec.nodes@[i].id == u32::MAX as int;
        assert(g.nodes.dom().contains(rec.nodes@[i].id as int));
    }
    lemma_edge_count_bounded(g);
    assert forall|j: int| 0 <= j < rec.edges@.len() implies has_id(
        rec.nodes@,
        rec.edges@[j].source as int,
    ) && has_id(rec.nodes@, rec.edges@[j].target as int) by {
        let e = rec.edges@[j].link();
        lemma_member_occurs(rec.edges@, j);
        lemma_copy_exists(g.edges, e);
        let k = choose|k: int| g.edges.dom().contains(k) && g.edges[k] == e;
        assert(g.nodes.dom().contains(g.edges[k].source as int) && g.nodes.dom().contains(
            g.edges[k].target as int,
        ));
    }
}

/// A canvas written to a record and restored from it has the same nodes
/// in the same slots, with the same place, size and label; it has
/// every edge as often as before, whatever the order; and it has the same
/// view. Nothing is selected or edited in it.
pub proof fn lemma_round_trip(
    rec: CanvasRecord,
    g: GraphModel,
    view: TransformModel,
    g2: GraphModel,
    view2: TransformModel,
)
    requires
        g.wf(),
        view.wf(),
        rec.records(g, view),
        rec.restores(g2, view2),
    ensures
        g2.nodes == g.nodes,
        g2.edges.dom().len() == g.edges.dom().len(),
        forall|e: Link| copies(g2.edges, e) == copies(g.edges, e),
        view2 == view,
        g2.selected is None,
        g2.editing is None,
        g2.wf(),
{
    assert forall|k: int| g2.nodes.dom().contains(k) <==> g.nodes.dom().contains(k) by {
        if has_id(rec.nodes@, k) {
            let i = choose|i: int| 0 <= i < rec.nodes@.len() && rec.nodes@[i].id == k;
            assert(g.nodes.dom().contains(rec.nodes@[i].id as int));
        }
    }
    assert forall|k: int| g2.nodes.dom().contains(k) implies g2.nodes[k] == g.nodes[k] by {
        let i = choose|i: int| 0 <= i < rec.nodes@.len() && rec.nodes@[i].id == k;
        assert(rec.nodes@[i] == NodeRecord::of(rec.nodes@[i].id, g.nodes[rec.nodes@[i].id as int]));
    }
    assert(g2.nodes =~= g.nodes);
}


/// The indices of the first `n` entries of an edge listing that hold an
/// edge.
pub open spec fn listed_at(list: Seq<(EdgeId, Link)>, n: int, e: Link) -> Set<int> {
    Set::new(|k: int| exists|j: int| 0 <= j < n && list[j].0.index == k && list[j].1 == e)
}

/// The records of the first `n` entries of an edge listing hold an edge as
/// often as those entries do.
proof fn lemma_listing_counts(
    list: Seq<(EdgeId, Link)>,
    recs: Seq<EdgeRecord>,
    table: Map<int, Link>,
    e: Link,
    n: int,
)
    requires
        0 <= n <= list.len(),
        recs.len() == list.len(),
        forall|i: int, j: int| 0 <= i < j < list.len() ==> list[i].0.index < list[j].0.index,
        forall|j: int|
            0 <= j < list.len() ==> table.dom().contains((#[trigger] list[j]).0.index as int),
        forall|j: int| 0 <= j < list.len() ==> (#[trigger] recs[j]).link() == list[j].1,
    ensures
        listed_at(list, n, e).finite(),
        occurrences(recs.take(n), e) == listed_at(list, n, e).len(),
    decreases n,
{
    if n == 0 {
        assert(listed_at(list, 0, e) =~= Set::<int>::empty());
    } else {
        lemma_listing_counts(list, recs, table, e, n - 1);
        lemma_occurrences_take(recs, n - 1, e);
        let k = list[n - 1].0.index as int;
        let before = listed_at(list, n - 1, e);
        if list[n - 1].1 == e {
            assert(!before.contains(k));
            assert(listed_at(list, n, e) =~= before.insert(k));
        } else {
            assert(listed_at(list, n, e) =~= before);
        }
    }
}

/// The record of a canvas.
pub fn to_record(graph: &Graph, transform: &CanvasTransform) -> (rec: CanvasRecord)
    ensures
        rec.records(graph@, transform@),
{
    let ids = graph.node_indices();
    let mut nodes: Vec<NodeRecord> = Vec::new();
    let mut i: usize = 0;
    while i < ids.len()
        invariant
            i <= ids.len(),
            nodes@.len() == i,
            forall|k: int| 0 <= k < ids@.len() ==> graph@.has_node(#[trigger] ids@[k]),
            forall|k: int|
                0 <= k < i ==> (#[trigger] nodes@[k]) == NodeRecord::of(
                    ids@[k].index,
                    graph@.nodes[ids@[k].index as int],
                ),
        decreases ids.len() - i,
    {
        let id = ids[i];
        assert(graph@.has_node(ids@[i as int]));
        match graph.get_node(id) {
            Some(node) => {
                nodes.push(
                    NodeRecord {
                        id: id.index,
                        x: node.position.x,
                        y: node.position.y,
                        width: node.width,
                        height: node.height,
                        label: node.label.clone(),
                    },
                );
            },
            None => {},
        }
        i += 1;
    }
    let list = graph.edge_list();
    let mut edges: Vec<EdgeRecord> = Vec::new();
    let mut j: usize = 0;
    while j < list.len()
        invariant
            j <= list.len(),
            edges@.len() == j,
            forall|k: int| 0 <= k < j ==> (#[trigger] edges@[k]).link() == list@[k].1.link(),
        decreases list.len() - j,
    {
        let (_, edge) = list[j];
        edges.push(
            EdgeRecord {
                source: edge.source.index,
                target: edge.target.index,
                edge_type: edge.edge_type,
            },
        );
        j += 1;
    }
    let at = transform.translation();
    let rec = CanvasRecord { nodes, edges, scale: transform.scale(), dx: at.x, dy: at.y };
    proof {
        assert forall|a: int, b: int| 0 <= a < b < rec.nodes@.len() implies rec.nodes@[a].id
            < rec.nodes@[b].id by {
            assert(rec.nodes@[a].id == ids@[a].index);
            assert(rec.nodes@[b].id == ids@[b].index);
        }
        assert forall|k: int| graph@.nodes.dom().contains(k) implies has_id(rec.nodes@, k) by {
            let a = choose|a: int| 0 <= a < ids@.len() && ids@[a].index == k;
            assert(rec.nodes@[a].id == k);
        }
        let links = Seq::new(list@.len(), |k: int| (list@[k].0, list@[k].1.link()));
        assert forall|k: int| 0 <= k < links.len() implies (#[trigger] links[k]).1
            == graph@.edges[links[k].0.index as int] by {
            assert(list@[k].1 == graph@.edge_of(graph@.edges[list@[k].0.index as int]));
        }
        assert forall|e: Link| occurrences(rec.edges@, e) == copies(graph@.edges, e) by {
            lemma_listing_counts(links, rec.edges@, graph@.edges, e, links.len() as int);
            assert(rec.edges@.take(links.len() as int) =~= rec.edges@);
            assert(listed_at(links, links.len() as int, e) =~= held_at(graph@.edges, e)) by {
                assert forall|k: int| held_at(graph@.edges, e).contains(k) implies listed_at(
                    links,
                    links.len() as int,
                    e,
                ).contains(k) by {
                    let a = choose|a: int| 0 <= a < list@.len() && list@[a].0.index == k;
                    assert(links[a].0.index == k && links[a].1 == e);
                }
                assert forall|k: int| listed_at(links, links.len() as int, e).contains(
                    k,
                ) implies held_at(graph@.edges, e).contains(k) by {
                    let a = choose|a: int|
                        0 <= a < links.len() && links[a].0.index == k && links[a].1 == e;
                    assert(graph@.edges.dom().contains(list@[a].0.index as int));
                }
            }
        }
    }
    rec
}

/// A node that only fills a slot: a point at the origin without a label.
fn filler() -> (n: Node)
    ensures
        n.position == (Point { x: 0, y: 0 }),
        n.width == 0,
        n.height == 0,
        n.label@ == Seq::<char>::empty(),
{
    Node::new(Point::zero(), 0, 0, String::new())
}

/// The index is that of one of the first `i` record nodes, or that of a
/// filler.
spec fn accounted(nodes: Seq<NodeRecord>, i: int, holes: Seq<NodeId>, x: int) -> bool {
    (exists|k: int| 0 <= k < i && nodes[k].id == x) || filled(holes, holes.len() as int, x)
}

/// The index is that of one of the first `h` fillers.
spec fn filled(holes: Seq<NodeId>, h: int, x: int) -> bool {
    exists|j: int| 0 <= j < h && holes[j].index == x
}

/// The graph has nothing but nodes.
spec fn only_nodes(g: GraphModel) -> bool {
    g == (GraphModel {
        nodes: g.nodes,
        generations: g.generations,
        edges: g.edges,
        slots: g.slots,
        issued: g.issued,
        next_generation: g.next_generation,
        ..GraphModel::empty()
    }) && g.edges.dom() =~= Set::<int>::empty()
}

/// What holds while the node table is built, when the first `i` record nodes
/// are placed: the graph is compact, each slot holds a placed node or a
/// filler, and the fillers stand where the record has no node.
spec fn placed(nodes: Seq<NodeRecord>, i: int, g: GraphModel, holes: Seq<NodeId>) -> bool {
    &&& g.wf()
    &&& only_nodes(g)
    &&& g.slots <= g.next_generation <= g.slots + LAST_START
    &&& forall|x: int| #[trigger]
        g.nodes.dom().contains(x) ==> g.generations[x] + g.slots >= g.next_generation
    &&& g.nodes.dom() =~= vstd::set_lib::set_int_range(0, g.slots as int)
    &&& forall|h: int| 0 <= h < holes.len() ==> g.has_node(#[trigger] holes[h])
    &&& i > 0 ==> nodes[i - 1].id < g.slots
    &&& i < nodes.len() ==> g.slots <= nodes[i].id
    &&& forall|k: int| 0 <= k < i ==> g.nodes[(#[trigger] nodes[k]).id as int] == nodes[k].node()
    &&& forall|h: int|
        0 <= h < holes.len() ==> (#[trigger] holes[h]).index < g.slots && !has_id(
            nodes,
            holes[h].index as int,
        )
    &&& forall|x: int| 0 <= x < g.slots ==> #[trigger] accounted(nodes, i, holes, x)
}

/// The first error in the node list of a record, if there is one.
fn check_nodes(nodes: &Vec<NodeRecord>) -> (r: Option<RecordError>)
    ensures
        r == (if !ascending(nodes@) {
            Some(RecordError::NodesOutOfOrder)
        } else if has_id(nodes@, u32::MAX as int) {
            Some(RecordError::NodeIdOutOfRange)
        } else {
            None
        }),
{
    let n = nodes.len();
    let mut i: usize = 1;
    while i < n
        invariant
            1 <= i,
            n == nodes@.len(),
            forall|a: int, b: int| 0 <= a < b < i && b < n ==> nodes@[a].id < nodes@[b].id,
        decreases n - i,
    {
        if nodes[i].id <= nodes[i - 1].id {
            return Some(RecordError::NodesOutOfOrder);
        }
        assert forall|a: int, b: int| 0 <= a < b < i + 1 && b < n implies nodes@[a].id
            < nodes@[b].id by {
            if b == i && a < i - 1 {
                assert(nodes@[a].id < nodes@[i - 1].id);
            }
        }
        i += 1;
    }
    if n > 0 && nodes[n - 1].id == u32::MAX {
        assert(has_id(nodes@, u32::MAX as int));
        return Some(RecordError::NodeIdOutOfRange);
    }
    assert(!has_id(nodes@, u32::MAX as int)) by {
        if has_id(nodes@, u32::MAX as int) {
            let k = choose|k: int| 0 <= k < n && nodes@[k].id == u32::MAX as int;
            if k < n - 1 {
                assert(nodes@[k].id < nodes@[n - 1].id);
            }
        }
    }
    None
}

/// Adds fillers until the next node gets the index of the record node
/// `i`.
fn fill_up_to(graph: &mut Graph, holes: &mut Vec<NodeId>, nodes: &Vec<NodeRecord>, i: usize)
    requires
        i < nodes@.len(),
        ascending(nodes@),
        nodes@[i as int].id < u32::MAX,
        placed(nodes@, i as int, old(graph)@, old(holes)@),
    ensures
        placed(nodes@, i as int, final(graph)@, final(holes)@),
        final(graph)@.slots == nodes@[i as int].id,
        final(graph)@.next_generation - final(graph)@.slots
            == old(graph)@.next_generation - old(graph)@.slots,
{
    let ghost start = graph@.next_generation - graph@.slots;
    let target: u32 = nodes[i].id;
    let n = nodes.len();
    loop
        invariant
            i < n,
            n == nodes@.len(),
            target == nodes@[i as int].id,
            target < u32::MAX,
            ascending(nodes@),
            placed(nodes@, i as int, graph@, holes@),
            graph@.next_generation - graph@.slots == start,
        ensures
            graph@.slots == target,
        decreases target - graph@.slots,
    {
        proof {
            vstd::set_lib::lemma_int_range(0, graph@.slots as int);
        }
        if graph.node_count() >= target as usize {
            break ;
        }
        let ghost next = graph@.slots as int;
        let ghost before = graph@;
        let ghost holes_before = holes@;
        let id = graph.add_node(filler());
        holes.push(id);
        proof {
            assert(id.index == next);
            assert(graph@.nodes.dom() =~= vstd::set_lib::set_int_range(0, next + 1));
            assert(!has_id(nodes@, next)) by {
                if has_id(nodes@, next) {
                    let k = choose|k: int| 0 <= k < n && nodes@[k].id == next;
                    if k < i {
                        if k < i - 1 {
                            assert(nodes@[k].id < nodes@[i - 1].id);
                        }
                    } else if k > i {
                        assert(nodes@[i as int].id < nodes@[k].id);
                    }
                }
            }
            assert forall|h: int| 0 <= h < holes@.len() implies (#[trigger] holes@[h]).index < next
                + 1 && !has_id(nodes@, holes@[h].index as int) by {
                if h < holes_before.len() {
                    assert(holes@[h] == holes_before[h]);
                }
            }
            assert forall|h: int| 0 <= h < holes@.len() implies graph@.has_node(
                #[trigger] holes@[h],
            ) by {
                if h < holes_before.len() {
                    assert(holes@[h] == holes_before[h]);
                    assert(before.has_node(holes_before[h]));
                }
            }
            assert forall|x: int| 0 <= x < next + 1 implies #[trigger] accounted(
                nodes@,
                i as int,
                holes@,
                x,
            ) by {
                if x < next {
                    assert(accounted(nodes@, i as int, holes_before, x));
                    if filled(holes_before, holes_before.len() as int, x) {
                        let h = choose|h: int|
                            0 <= h < holes_before.len() && holes_before[h].index == x;
                        assert(holes@[h] == holes_before[h]);
                        assert(filled(holes@, holes@.len() as int, x));
                    }
                } else {
                    assert(holes@[holes@.len() - 1] == id);
                    assert(filled(holes@, holes@.len() as int, x));
                }
            }
            assert forall|k: int| 0 <= k < i implies graph@.nodes[(#[trigger] nodes@[k]).id as int]
                == nodes@[k].node() by {
                if k < i - 1 {
                    assert(nodes@[k].id < nodes@[i - 1].id);
                }
            }
        }
    }
}

/// Places the nodes of a record in their slots, with fillers in the slots
/// between them. Returns the graph and the identities of the fillers.
fn place_nodes(nodes: &Vec<NodeRecord>, first: u64) -> (r: (Graph, Vec<NodeId>))
    requires
        ascending(nodes@),
        !has_id(nodes@, u32::MAX as int),
        first <= LAST_START,
    ensures
        placed(nodes@, nodes@.len() as int, r.0@, r.1@),
        r.0@.next_generation == first + r.0@.slots,
{
    let n = nodes.len();
    let mut graph = Graph::starting_at(first);
    let mut holes: Vec<NodeId> = Vec::new();
    let mut i: usize = 0;
    proof {
        vstd::set_lib::lemma_int_range(0, 0);
        assert(graph@.nodes.dom() =~= vstd::set_lib::set_int_range(0, 0));
    }
    while i < n
        invariant
            i <= n,
            n == nodes@.len(),
            ascending(nodes@),
            !has_id(nodes@, u32::MAX as int),
            placed(nodes@, i as int, graph@, holes@),
            graph@.next_generation == first + graph@.slots,
        decreases n - i,
    {
        assert(nodes@[i as int].id != u32::MAX);
        fill_up_to(&mut graph, &mut holes, nodes, i);
        let record = &nodes[i];
        let ghost next = graph@.slots as int;
        let ghost before = graph@;
        proof {
            vstd::set_lib::lemma_int_range(0, next);
        }
        let id = graph.add_node(
            Node::new(
                Point::new(record.x, record.y),
                record.width,
                record.height,
                record.label.clone(),
            ),
        );
        proof {
            assert(id.index == record.id);
            assert(graph@.nodes.dom() =~= vstd::set_lib::set_int_range(0, next + 1));
            assert forall|k: int| 0 <= k < i + 1 implies graph@.nodes[(
            #[trigger] nodes@[k]).id as int] == nodes@[k].node() by {
                if k < i - 1 {
                    assert(nodes@[k].id < nodes@[i - 1].id);
                }
            }
            assert forall|x: int| 0 <= x < next + 1 implies #[trigger] accounted(
                nodes@,
                i + 1,
                holes@,
                x,
            ) by {
                if x == next {
                    assert(nodes@[i as int].id == x);
                } else {
                    assert(accounted(nodes@, i as int, holes@, x));
                    if exists|k: int| 0 <= k < i && nodes@[k].id == x {
                        let k = choose|k: int| 0 <= k < i && nodes@[k].id == x;
                        assert(0 <= k < i + 1 && nodes@[k].id == x);
                    }
                }
            }
            assert forall|h: int| 0 <= h < holes@.len() implies graph@.has_node(
                #[trigger] holes@[h],
            ) by {
                assert(before.has_node(holes@[h]));
            }
            if i + 1 < n {
                assert(nodes@[i as int].id < nodes@[i + 1].id);
            }
        }
        i += 1;
    }
    (graph, holes)
}

/// Takes the fillers out again: what stays is the node table of the record.
fn drop_fillers(graph: &mut Graph, holes: &Vec<NodeId>, nodes: &Vec<NodeRecord>)
    requires
        ascending(nodes@),
        placed(nodes@, nodes@.len() as int, old(graph)@, holes@),
    ensures
        final(graph)@.wf(),
        only_nodes(final(graph)@),
        final(graph)@.nodes == node_table(nodes@),
        final(graph)@.slots == old(graph)@.slots,
        final(graph)@.next_generation == old(graph)@.next_generation,
        forall|x: int| #[trigger]
            final(graph)@.nodes.dom().contains(x) ==> final(graph)@.generations[x]
                + final(graph)@.slots >= final(graph)@.next_generation,
{
    let ghost n = nodes@.len() as int;
    let ghost start = graph@;
    let ghost full = graph@.nodes;
    let ghost next = graph@.slots as int;
    let mut h: usize = 0;
    while h < holes.len()
        invariant
            h <= holes.len(),
            n == nodes@.len(),
            ascending(nodes@),
            graph@.wf(),
            only_nodes(graph@),
            graph@.slots == start.slots,
            graph@.next_generation == start.next_generation,
            forall|x: int| #[trigger]
                graph@.nodes.dom().contains(x) ==> graph@.generations[x] == start.generations[x],
            forall|x: int| 0 <= x < next ==> #[trigger] accounted(nodes@, n, holes@, x),
            forall|k: int| 0 <= k < n ==> full[(#[trigger] nodes@[k]).id as int] == nodes@[k].node(),
            n > 0 ==> nodes@[n - 1].id < next,
            forall|x: int| #[trigger]
                graph@.nodes.dom().contains(x) <==> 0 <= x < next && !filled(holes@, h as int, x),
            forall|x: int| graph@.nodes.dom().contains(x) ==> graph@.nodes[x] == full[x],
            forall|j: int|
                0 <= j < holes@.len() ==> !has_id(nodes@, (#[trigger] holes@[j]).index as int),
            forall|j: int|
                0 <= j < holes@.len() && graph@.nodes.dom().contains(
                    (#[trigger] holes@[j]).index as int,
                ) ==> graph@.has_node(holes@[j]),
        decreases holes.len() - h,
    {
        let ghost before = graph@;
        let hole = holes[h];
        graph.remove_node(hole);
        proof {
            assert(graph@.edges =~= before.edges);
            assert(graph@.selection =~= before.selection);
            assert(before.nodes.dom().contains(hole.index as int) ==> before.has_node(hole));
            assert forall|x: int| #[trigger]
                graph@.nodes.dom().contains(x) <==> 0 <= x < next && !filled(
                    holes@,
                    h + 1,
                    x,
                ) by {
                if filled(holes@, h + 1, x) {
                    let j = choose|j: int| 0 <= j < h + 1 && holes@[j].index == x;
                    if j < h {
                        assert(filled(holes@, h as int, x));
                    }
                }
                if filled(holes@, h as int, x) {
                    let j = choose|j: int| 0 <= j < h && holes@[j].index == x;
                    assert(0 <= j < h + 1 && holes@[j].index == x);
                }
                if x == hole.index {
                    assert(0 <= h < h + 1 && holes@[h as int].index == x);
                }
                assert(before.nodes.dom().contains(x) <==> 0 <= x < next && !filled(
                    holes@,
                    h as int,
                    x,
                ));
            }
        }
        h += 1;
    }
    proof {
        assert forall|x: int| graph@.nodes.dom().contains(x) <==> has_id(nodes@, x) by {
            if has_id(nodes@, x) {
                let k = choose|k: int| 0 <= k < n && nodes@[k].id == x;
                if k < n - 1 {
                    assert(nodes@[k].id < nodes@[n - 1].id);
                }
                assert(0 <= x < next);
                if filled(holes@, holes@.len() as int, x) {
                    let j = choose|j: int| 0 <= j < holes@.len() && holes@[j].index == x;
                    assert(!has_id(nodes@, holes@[j].index as int));
                }
            }
            if graph@.nodes.dom().contains(x) {
                assert(accounted(nodes@, n, holes@, x));
                if !(exists|k: int| 0 <= k < n && nodes@[k].id == x) {
                    assert(filled(holes@, holes@.len() as int, x));
                }
            }
        }
        assert forall|x: int| graph@.nodes.dom().contains(x) implies graph@.nodes[x] == node_table(
            nodes@,
        )[x] by {
            assert(has_id(nodes@, x));
            let k = choose|k: int| 0 <= k < nodes@.len() && nodes@[k].id == x;
            assert(full[nodes@[k].id as int] == nodes@[k].node());
        }
        assert(graph@.nodes =~= node_table(nodes@));
        assert forall|x: int| #[trigger] graph@.nodes.dom().contains(x) implies graph@.generations[x]
            + graph@.slots >= graph@.next_generation by {
            assert(0 <= x < next);
            assert(start.nodes.dom().contains(x));
        }
    }
}

/// Adds the edges of a record. Stops at the first edge that the graph
/// refuses, and tells whether all were added.
fn add_edges(graph: &mut Graph, edges: &Vec<EdgeRecord>, nodes: &Vec<NodeRecord>) -> (done: bool)
    requires
        edges@.len() <= u32::MAX,
        old(graph)@.wf(),
        only_nodes(old(graph)@),
        old(graph)@.nodes == node_table(nodes@),
    ensures
        done <==> forall|j: int|
            0 <= j < edges@.len() ==> has_id(nodes@, (#[trigger] edges@[j]).source as int)
                && has_id(nodes@, edges@[j].target as int),
        done ==> {
            &&& final(graph)@.generations == old(graph)@.generations
            &&& final(graph)@.slots == old(graph)@.slots
            &&& final(graph)@.next_generation == old(graph)@.next_generation
            &&& final(graph)@.wf()
            &&& final(graph)@ == (GraphModel {
                nodes: node_table(nodes@),
                generations: final(graph)@.generations,
                edges: final(graph)@.edges,
                slots: final(graph)@.slots,
                issued: final(graph)@.issued,
                next_generation: final(graph)@.next_generation,
                ..GraphModel::empty()
            })
            &&& final(graph)@.edges.dom().len() == edges@.len()
            &&& forall|e: Link| copies(final(graph)@.edges, e) == occurrences(edges@, e)
        },
{
    let m = edges.len();
    let mut j: usize = 0;
    proof {
        assert forall|e: Link| copies(graph@.edges, e) == occurrences(edges@.take(0), e) by {
            assert(held_at(graph@.edges, e) =~= Set::<int>::empty());
        }
    }
    while j < m
        invariant
            j <= m,
            m == edges@.len(),
            m <= u32::MAX,
            graph@.wf(),
            graph@.generations == old(graph)@.generations,
            graph@.slots == old(graph)@.slots,
            graph@.next_generation == old(graph)@.next_generation,
            graph@ == (GraphModel {
                nodes: node_table(nodes@),
                generations: graph@.generations,
                edges: graph@.edges,
                slots: graph@.slots,
                issued: graph@.issued,
                next_generation: graph@.next_generation,
                ..GraphModel::empty()
            }),
            graph@.edges.dom().len() == j,
            forall|e: Link| copies(graph@.edges, e) == occurrences(edges@.take(j as int), e),
            forall|k: int|
                0 <= k < j ==> has_id(nodes@, (#[trigger] edges@[k]).source as int) && has_id(
                    nodes@,
                    edges@[k].target as int,
                ),
        decreases m - j,
    {
        let record = edges[j];
        let ghost before = graph@;
        let ends = (graph.node_at_index(record.source), graph.node_at_index(record.target));
        match ends {
            (Some(source), Some(target)) => {
                let edge = Edge::new(source, target, record.edge_type);
                assert(edge.link() == record.link());
                match graph.add_edge(edge) {
                    Ok(id) => {
                        proof {
                            assert forall|e: Link| copies(graph@.edges, e) == occurrences(
                                edges@.take(j + 1),
                                e,
                            ) by {
                                lemma_copies_insert(before.edges, id.index as int, edge.link(), e);
                                lemma_occurrences_take(edges@, j as int, e);
                            }
                        }
                    },
                    Err(_) => {
                        return false;
                    },
                }
            },
            _ => {
                assert(!(has_id(nodes@, edges@[j as int].source as int) && has_id(
                    nodes@,
                    edges@[j as int].target as int,
                )));
                return false;
            },
        }
        j += 1;
    }
    proof {
        assert(edges@.take(m as int) =~= edges@);
    }
    true
}

/// The canvas that a record stands for. A record is refused where its nodes
/// are not listed by growing index, where a node has the index `u32::MAX`,
/// where it has more than `u32::MAX` edges, or where an edge starts or ends
/// at an index that no node of the record has; the first of these that
/// holds is the error.
///
/// The nodes get the slots that the record gives them, and generations from
/// zero on. Building the graph takes time and memory in proportion to the
/// largest index.
pub fn from_record(rec: &CanvasRecord) -> (r: Result<(Graph, CanvasTransform), RecordError>)
    ensures
        match r {
            Ok((graph, transform)) => rec.refusal() is None && rec.restores(graph@, transform@),
            Err(e) => rec.refusal() == Some(e),
        },
{
    from_record_after(rec, 0)
}

/// The canvas that a record stands for, in a graph that starts at the
/// generation `first`: every node of it gets a generation from `first` on.
/// Beside what `from_record` refuses, a start after `LAST_START` is
/// refused, before anything else.
pub fn from_record_after(rec: &CanvasRecord, first: u64) -> (r: Result<
    (Graph, CanvasTransform),
    RecordError,
>)
    ensures
        match r {
            Ok((graph, transform)) => {
                &&& rec.refusal_after(first) is None
                &&& rec.restores(graph@, transform@)
                &&& graph@.next_generation >= first
                &&& forall|x: int| #[trigger]
                    graph@.nodes.dom().contains(x) ==> graph@.generations[x] >= first
            },
            Err(e) => rec.refusal_after(first) == Some(e),
        },
{
    if first > LAST_START {
        return Err(RecordError::OutOfGenerations);
    }
    match check_nodes(&rec.nodes) {
        Some(e) => {
            return Err(e);
        },
        None => {},
    }
    if rec.edges.len() > u32::MAX as usize {
        return Err(RecordError::TooManyEdges);
    }
    let (mut graph, holes) = place_nodes(&rec.nodes, first);
    drop_fillers(&mut graph, &holes, &rec.nodes);
    if !add_edges(&mut graph, &rec.edges, &rec.nodes) {
        return Err(RecordError::MissingEndpoint);
    }
    proof {
        assert(graph@.selection =~= Set::<NodeId>::empty());
    }
    let transform = CanvasTransform::new(rec.scale, Point::new(rec.dx, rec.dy));
    Ok((graph, transform))
}

impl CanvasWidget {
    /// The record of the canvas: its nodes, its edges and its view.
    pub fn save(&self) -> (rec: CanvasRecord)
        ensures
            rec.records(self@.graph, self@.view),
    {
        to_record(&self.graph, &self.transform)
    }

    /// Replaces the graph and the view by those of a record. The gesture in
    /// progress is dropped, and the kind of edge to draw next stays. The new
    /// graph starts at the generation that the old one has reached, so no
    /// identity of the old graph is one of the new. Where the record is
    /// refused, the canvas stays as it is in every part.
    pub fn restore(&mut self, rec: &CanvasRecord) -> (r: Result<(), RecordError>)
        ensures
            match r {
                Ok(_) => {
                    &&& rec.refusal_after(old(self)@.graph.next_generation as u64) is None
                    &&& rec.restores(
                        final(self)@.graph.with_edge_type(EdgeType::Line),
                        final(self)@.view,
                    )
                    &&& final(self)@.graph.edge_type == old(self)@.graph.edge_type
                    &&& final(self)@.graph.wf()
                    &&& final(self)@.graph.next_generation >= old(self)@.graph.next_generation
                    &&& old(self)@.graph.wf() ==> forall|id: NodeId|
                        old(self)@.graph.issued.contains(id) ==> !(
                        #[trigger] final(self)@.graph.has_node(id))
                    &&& final(self)@.state == GestureState::Idle
                    &&& final(self)@.range is None
                },
                Err(e) => rec.refusal_after(old(self)@.graph.next_generation as u64) == Some(e)
                    && final(self)@ == old(self)@,
            },
    {
        match from_record_after(rec, self.graph.next_generation()) {
            Ok((graph, transform)) => {
                let edge_type = self.graph.edge_type();
                self.graph = graph;
                self.graph.set_edge_type(edge_type);
                self.transform = transform;
                self.input_manager.make_idle();
                self.drag_select_range = None;
                Ok(())
            },
            Err(e) => Err(e),
        }
    }
}

} // verus!
