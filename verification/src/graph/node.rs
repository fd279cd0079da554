//! Nodes of the diagram and their identities.

use vstd::prelude::*;
use crate::geometry::Point;
use crate::geometry::Rect;

verus! {

/// The identity of a node: the index of its slot in the node table, and the
/// generation of the table at which the node was added. No two nodes of a
/// graph ever get the same identity, so the identity of a removed node stays
/// dead when its slot is used again.
#[derive(Clone, Copy, Debug, PartialEq, Eq, Structural)]
pub struct NodeId {
    pub index: u32,
    pub generation: u64,
}

impl NodeId {
    pub fn new(index: u32, generation: u64) -> (id: NodeId)
        ensures
            id == (NodeId { index, generation }),
    {
        NodeId { index, generation }
    }
}

/// A node as the node table holds it, with the generation at which it was
/// added.
#[derive(Debug)]
pub struct Stamped {
    pub generation: u64,
    pub node: Node,
}

/// A box on the canvas with a label.
#[derive(Debug)]
pub struct Node {
    /// The top-left corner, in canvas space.
    pub position: Point,
    pub width: u32,
    pub height: u32,
    pub label: String,
}

impl Clone for Node {
    fn clone(&self) -> (copy: Node)
        ensures
            copy == *self,
    {
        Node {
            position: self.position,
            width: self.width,
            height: self.height,
            label: self.label.clone(),
        }
    }
}

impl Node {
    pub fn new(position: Point, width: u32, height: u32, label: String) -> (n: Node)
        ensures
            n == (Node { position, width, height, label }),
    {
        Node { position, width, height, label }
    }

    /// Whether the far corner of the box can be stored.
    pub open spec fn has_frame(self) -> bool {
        self.position.x + self.width <= i64::MAX && self.position.y + self.height <= i64::MAX
    }

    /// The box the node covers, in canvas space.
    pub open spec fn frame(self) -> Rect {
        Rect {
            min: self.position,
            max: Point {
                x: (self.position.x + self.width) as i64,
                y: (self.position.y + self.height) as i64,
            },
        }
    }

    /// The point where the edges of the node end: the middle of its box.
    pub open spec fn anchor_point(self) -> Point {
        Point {
            x: (self.position.x + self.width / 2) as i64,
            y: (self.position.y + self.height / 2) as i64,
        }
    }

    /// The part of the box from which a link is drawn: the middle half of
    /// the box on both axes.
    pub open spec fn link_region(self) -> Rect {
        Rect {
            min: Point {
                x: (self.position.x + self.width / 4) as i64,
                y: (self.position.y + self.height / 4) as i64,
            },
            max: Point {
                x: (self.position.x + (self.width - self.width / 4)) as i64,
                y: (self.position.y + (self.height - self.height / 4)) as i64,
            },
        }
    }

    /// The box of the node; `None` where its far corner cannot be stored.
    pub fn bounds(&self) -> (r: Option<Rect>)
        ensures
            r == (if self.has_frame() {
                Some(self.frame())
            } else {
                None
            }),
            r matches Some(b) ==> b.wf(),
    {
        let max_x = self.position.x.checked_add(self.width as i64);
        let max_y = self.position.y.checked_add(self.height as i64);
        match (max_x, max_y) {
            (Some(x), Some(y)) => Some(Rect { min: self.position, max: Point { x, y } }),
            _ => None,
        }
    }

    /// The anchor of the node; `None` where its box has no storable far
    /// corner.
    pub fn anchor(&self) -> (p: Option<Point>)
        ensures
            p == (if self.has_frame() {
                Some(self.anchor_point())
            } else {
                None
            }),
    {
        let x = self.position.x.checked_add((self.width / 2) as i64);
        let y = self.position.y.checked_add((self.height / 2) as i64);
        let far_x = self.position.x.checked_add(self.width as i64);
        let far_y = self.position.y.checked_add(self.height as i64);
        match (x, y, far_x, far_y) {
            (Some(x), Some(y), Some(_), Some(_)) => Some(Point { x, y }),
            _ => None,
        }
    }

    /// The link region of the node; `None` where its box has no storable
    /// far corner.
    pub fn link_bounds(&self) -> (r: Option<Rect>)
        ensures
            r == (if self.has_frame() {
                Some(self.link_region())
            } else {
                None
            }),
            r matches Some(b) ==> b.wf(),
    {
        let qw: u32 = self.width / 4;
        let qh: u32 = self.height / 4;
        let far_x = self.position.x.checked_add(self.width as i64);
        let far_y = self.position.y.checked_add(self.height as i64);
        match (far_x, far_y) {
            (Some(_), Some(_)) => Some(
                Rect {
                    min: Point {
                        x: self.position.x + qw as i64,
                        y: self.position.y + qh as i64,
                    },
                    max: Point {
                        x: self.position.x + (self.width - qw) as i64,
                        y: self.position.y + (self.height - qh) as i64,
                    },
                },
            ),
            _ => None,
        }
    }
}

} // verus!
