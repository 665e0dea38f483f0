use vstd::prelude::*;
use vstd::pervasive::VecAdditionalExecFns;
use crate::grid::Position;

verus! {

/// One body segment: a stable identifier, its current cell, and the
/// identifier of the segment behind it (`None` at the tail).
#[derive(Clone, Copy, Debug)]
pub struct Segment {
    pub id: usize,
    pub position: Position,
    pub next: Option<usize>,
}

/// The ordered chain of body segments trailing the head, nearest the head
/// first. Segments live in a flat arena; the tail-ward links are indices
/// into it, so the "next" relation owns nothing.
pub struct Chain {
    segments: Vec<Segment>,
}

impl Chain {
    /// The segments' cells in chain order, nearest the head first.
    pub closed spec fn positions(self) -> Seq<Position> {
        Seq::new(self.segments@.len(), |i: int| self.segments@[i].position)
    }

    /// Segments sit in the arena in chain order: identifiers equal indices
    /// and each segment's `next` names the one behind it, `None` at the tail.
    pub closed spec fn wf(self) -> bool {
        forall|i: int| 0 <= i < self.segments@.len() ==> {
            &&& (#[trigger] self.segments@[i]).id == i
            &&& self.segments@[i].next == (if i + 1 < self.segments@.len() {
                Some((i + 1) as usize)
            } else {
                None::<usize>
            })
        }
    }

    pub fn new() -> (c: Chain)
        ensures
            c.wf(),
            c.positions() == Seq::<Position>::empty(),
    {
        let c = Chain { segments: Vec::new() };
        proof {
            assert(c.positions() =~= Seq::<Position>::empty());
        }
        c
    }

    pub fn len(&self) -> (n: usize)
        ensures
            n == self.positions().len(),
    {
        self.segments.len()
    }

    /// Adds a new tail segment at `position`, linking the current tail's
    /// `next` to it; returns the new segment's identifier. No other segment
    /// is touched.
    pub fn append_segment(&mut self, position: Position) -> (id: usize)
        requires
            old(self).wf(),
        ensures
            final(self).wf(),
            final(self).positions() == old(self).positions().push(position),
            id == old(self).positions().len(),
    {
        let n = self.segments.len();
        if n > 0 {
            let mut tail = self.segments[n - 1];
            tail.next = Some(n);
            self.segments.set(n - 1, tail);
        }
        self.segments.push(Segment { id: n, position, next: None });
        proof {
            assert(final(self).positions() =~= old(self).positions().push(position));
        }
        n
    }

    /// Extends the chain by one segment at the given cell — in the game's
    /// use, the cell the eaten food occupied.
    pub fn grow_at(&mut self, position: Position)
        requires
            old(self).wf(),
        ensures
            final(self).wf(),
            final(self).positions() == old(self).positions().push(position),
    {
        let _id: usize = self.append_segment(position);
    }

    /// Whether any body segment currently occupies `position`.
    pub fn contains_position(&self, position: Position) -> (r: bool)
        ensures
            r == self.positions().contains(position),
    {
        let mut i: usize = 0;
        let mut found = false;
        while i < self.segments.len()
            invariant
                i <= self.segments@.len(),
                found == exists|j: int| 0 <= j < i && self.positions()[j] == position,
            decreases self.segments@.len() - i,
        {
            if self.segments[i].position == position {
                found = true;
                proof {
                    assert(self.positions()[i as int] == position);
                }
            }
            i = i + 1;
        }
        found
    }

    /// The segments' cells in chain order, nearest the head first.
    pub fn segment_positions(&self) -> (v: Vec<Position>)
        ensures
            v@ == self.positions(),
    {
        let mut v: Vec<Position> = Vec::new();
        let mut i: usize = 0;
        while i < self.segments.len()
            invariant
                i <= self.segments@.len(),
                v@ =~= self.positions().subrange(0, i as int),
            decreases self.segments@.len() - i,
        {
            v.push(self.segments[i].position);
            i = i + 1;
        }
        proof {
            assert(v@ =~= self.positions());
        }
        v
    }

    /// Follow the leader, in one synchronous head-to-tail pass: the segment
    /// nearest the head takes `leader_position` (the cell the head just
    /// vacated), and every later segment takes the cell its own leader
    /// occupied before the call.
    pub fn propagate_follow(&mut self, leader_position: Position)
        requires
            old(self).wf(),
        ensures
            final(self).wf(),
            final(self).positions().len() == old(self).positions().len(),
            forall|i: int| 0 <= i < final(self).positions().len() ==>
                final(self).positions()[i] == (if i == 0 {
                    leader_position
                } else {
                    old(self).positions()[i - 1]
                }),
    {
        let mut carried = leader_position;
        let mut i: usize = 0;
        while i < self.segments.len()
            invariant
                i <= self.segments@.len(),
                self.segments@.len() == old(self).segments@.len(),
                forall|j: int| i <= j < self.segments@.len() ==>
                    self.segments@[j] == old(self).segments@[j],
                forall|j: int| 0 <= j < i ==> {
                    &&& (#[trigger] self.segments@[j]).position == (if j == 0 {
                        leader_position
                    } else {
                        old(self).segments@[j - 1].position
                    })
                    &&& self.segments@[j].id == old(self).segments@[j].id
                    &&& self.segments@[j].next == old(self).segments@[j].next
                },
                carried == (if i == 0 {
                    leader_position
                } else {
                    old(self).segments@[i - 1].position
                }),
            decreases self.segments@.len() - i,
        {
            let mut seg = self.segments[i];
            let vacated = seg.position;
            seg.position = carried;
            self.segments.set(i, seg);
            carried = vacated;
            i = i + 1;
        }
    }
}

} // verus!
