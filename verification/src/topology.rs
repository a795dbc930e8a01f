//! The constructed set of sources and sinks for one run, and the collection
//! phase's data transformation: tag each source's batch with its name and
//! concatenate in declaration order.
//!
//! The run itself is strictly two-phase — every source is drained before any
//! sink is written — and aborts on the first failure; the surrounding binary
//! sequences the transports that way and calls in here for everything the
//! phases compute.

use crate::point::{views_of_points, Point, PointView, Points};
use crate::sink::SinkKind;
use crate::source::SourceKind;
use vstd::prelude::*;

verus! {

/// A named instance of a constructed plugin.
#[derive(Debug)]
pub struct Component<T> {
    pub name: String,
    pub component: T,
}

/// Everything one run works with, in declaration order.
#[derive(Debug)]
pub struct Topology {
    pub data_sources: Vec<Component<SourceKind>>,
    pub sinks: Vec<Component<SinkKind>>,
}

/// A point stamped with its source's name: only the `source` tag changes.
pub open spec fn tagged_view(p: Point, name: Seq<char>) -> PointView {
    PointView {
        name: p@.name,
        tags: p@.tags.insert("source"@, name),
        fields: p@.fields,
        timestamp: p@.timestamp,
    }
}

pub open spec fn tagged_views(pts: Seq<Point>, name: Seq<char>) -> Seq<PointView> {
    pts.map_values(|p: Point| tagged_view(p, name))
}

/// Stamp a collected batch with the name of the source it came from.
pub fn tag_collected(name: &str, points: Points) -> (r: Points)
    ensures
        views_of_points(r@) == tagged_views(points@, name@),
{
    let mut tagged = points;
    tagged.tag_all("source", name);
    proof {
        assert(views_of_points(tagged@) =~= tagged_views(points@, name@));
    }
    tagged
}

/// The complete batch an in-order run of collections assembles.
pub open spec fn assembled_views(cs: Seq<(String, Points)>) -> Seq<PointView>
    decreases cs.len(),
{
    if cs.len() == 0 {
        Seq::empty()
    } else {
        assembled_views(cs.drop_last()) + tagged_views(cs.last().1@, cs.last().0@)
    }
}

/// Fold each source's collected points, stamped with the source's name,
/// into one batch, keeping declaration order.
pub fn assemble_batch(collected: Vec<(String, Points)>) -> (r: Points)
    ensures
        views_of_points(r@) == assembled_views(collected@),
{
    let ghost orig = collected@;
    let mut rest = collected;
    let n0 = rest.len();
    proof {
        assert(orig.len() == n0 as int);
    }
    let mut batch = Points::new();
    let mut k: usize = 0;
    while rest.len() > 0
        invariant
            orig.len() <= usize::MAX,
            k + rest@.len() == orig.len(),
            forall|j: int| 0 <= j < rest@.len() ==> rest@[j] == orig[k + j],
            views_of_points(batch@) =~= assembled_views(orig.take(k as int)),
        decreases rest@.len(),
    {
        let ghost old_rest = rest@;
        let pair = rest.remove(0);
        proof {
            assert(forall|j: int| 0 <= j < old_rest.len() - 1 ==> old_rest.remove(0)[j] == old_rest[
                j + 1]);
            assert(orig.take(k + 1).drop_last() =~= orig.take(k as int));
            assert(orig.take(k + 1).last() == orig[k as int]);
        }
        let ghost batch_before = batch@;
        let tagged = tag_collected(pair.0.as_str(), pair.1);
        batch.merge_with(tagged);
        proof {
            assert(views_of_points(batch@) =~= views_of_points(batch_before) + views_of_points(
                tagged@,
            ));
            assert(views_of_points(batch@) =~= assembled_views(orig.take(k + 1)));
        }
        k += 1;
    }
    proof {
        assert(orig.take(orig.len() as int) =~= orig);
    }
    batch
}

/// Where a run stands: collection strictly precedes delivery, and the
/// first failure ends the run.
#[derive(Debug, Clone, Copy, PartialEq, Eq, Structural)]
pub enum Phase {
    Collecting,
    Delivering,
    Done,
    Failed,
}

/// One run, stepped from outside: each source's collected batch is folded
/// in during the collection phase, and only then is the assembled batch
/// read out for each sink in turn.
#[derive(Debug)]
pub struct Runner {
    state: Phase,
    n_sources: usize,
    n_sinks: usize,
    sources_done: usize,
    sinks_done: usize,
    batch: Points,
}

impl Runner {
    #[verifier::type_invariant]
    closed spec fn wf(self) -> bool {
        &&& self.sources_done <= self.n_sources
        &&& self.sinks_done <= self.n_sinks
        &&& self.state is Collecting ==> self.sources_done < self.n_sources && self.sinks_done
            == 0
        &&& self.state is Delivering ==> self.sources_done == self.n_sources && self.sinks_done
            < self.n_sinks
        &&& self.state is Done ==> self.sources_done == self.n_sources && self.sinks_done
            == self.n_sinks
    }

    pub closed spec fn phase(self) -> Phase {
        self.state
    }

    pub closed spec fn sources_pending(self) -> int {
        self.n_sources - self.sources_done
    }

    pub closed spec fn sinks_pending(self) -> int {
        self.n_sinks - self.sinks_done
    }

    pub closed spec fn batch_views(self) -> Seq<PointView> {
        views_of_points(self.batch@)
    }

    pub fn new(n_sources: usize, n_sinks: usize) -> (r: Runner)
        ensures
            r.batch_views() == Seq::<PointView>::empty(),
            r.sources_pending() == n_sources,
            r.sinks_pending() == n_sinks,
            r.phase() == if n_sources == 0 && n_sinks == 0 {
                Phase::Done
            } else if n_sources == 0 {
                Phase::Delivering
            } else {
                Phase::Collecting
            },
    {
        let state = if n_sources == 0 && n_sinks == 0 {
            Phase::Done
        } else if n_sources == 0 {
            Phase::Delivering
        } else {
            Phase::Collecting
        };
        Runner { state, n_sources, n_sinks, sources_done: 0, sinks_done: 0, batch: Points::new() }
    }

    pub fn is_collecting(&self) -> (r: bool)
        ensures
            r == (self.phase() is Collecting),
    {
        match self.state {
            Phase::Collecting => true,
            _ => false,
        }
    }

    /// Delivery never begins until every source has finished: a delivering
    /// runner has no source left to collect.
    pub fn is_delivering(&self) -> (r: bool)
        ensures
            r == (self.phase() is Delivering),
            r ==> self.sources_pending() == 0,
    {
        proof {
            use_type_invariant(self);
        }
        match self.state {
            Phase::Delivering => true,
            _ => false,
        }
    }

    pub fn is_done(&self) -> (r: bool)
        ensures
            r == (self.phase() is Done),
            r ==> self.sources_pending() == 0 && self.sinks_pending() == 0,
    {
        proof {
            use_type_invariant(self);
        }
        match self.state {
            Phase::Done => true,
            _ => false,
        }
    }

    /// Fold one source's collected points, stamped with the source's name,
    /// into the batch; collection ends when the last source is in.
    pub fn source_collected(&mut self, name: &str, points: Points)
        requires
            old(self).phase() is Collecting,
        ensures
            final(self).batch_views() == old(self).batch_views() + tagged_views(points@, name@),
            final(self).sources_pending() == old(self).sources_pending() - 1,
            final(self).sinks_pending() == old(self).sinks_pending(),
            final(self).phase() == if old(self).sources_pending() > 1 {
                Phase::Collecting
            } else if old(self).sinks_pending() > 0 {
                Phase::Delivering
            } else {
                Phase::Done
            },
    {
        proof {
            use_type_invariant(&*self);
        }
        let ghost before = self.batch@;
        let tagged = tag_collected(name, points);
        let mut folded = Points::new();
        core::mem::swap(&mut self.batch, &mut folded);
        folded.merge_with(tagged);
        proof {
            assert(views_of_points(folded@) =~= views_of_points(before) + views_of_points(
                tagged@,
            ));
        }
        let done = self.sources_done + 1;
        let state = if done < self.n_sources {
            Phase::Collecting
        } else if self.sinks_done < self.n_sinks {
            Phase::Delivering
        } else {
            Phase::Done
        };
        *self = Runner {
            state,
            n_sources: self.n_sources,
            n_sinks: self.n_sinks,
            sources_done: done,
            sinks_done: self.sinks_done,
            batch: folded,
        };
    }

    /// A failed source or sink aborts the run; nothing already folded in is
    /// delivered.
    pub fn fail(&mut self)
        ensures
            final(self).phase() is Failed,
            final(self).batch_views() == old(self).batch_views(),
    {
        proof {
            use_type_invariant(&*self);
        }
        self.state = Phase::Failed;
    }

    /// The assembled batch, read-only, for delivery; it exists to be read
    /// only once no source is left to collect.
    pub fn batch(&self) -> (r: &Points)
        requires
            self.phase() is Delivering,
        ensures
            views_of_points(r@) == self.batch_views(),
            self.sources_pending() == 0,
    {
        proof {
            use_type_invariant(self);
        }
        &self.batch
    }

    /// One sink took the whole batch; the run is done when the last one
    /// has.
    pub fn sink_delivered(&mut self)
        requires
            old(self).phase() is Delivering,
        ensures
            final(self).batch_views() == old(self).batch_views(),
            final(self).sinks_pending() == old(self).sinks_pending() - 1,
            final(self).sources_pending() == 0,
            final(self).phase() == if old(self).sinks_pending() > 1 {
                Phase::Delivering
            } else {
                Phase::Done
            },
    {
        proof {
            use_type_invariant(&*self);
        }
        let mut batch = Points::new();
        core::mem::swap(&mut self.batch, &mut batch);
        let done = self.sinks_done + 1;
        let state = if done < self.n_sinks {
            Phase::Delivering
        } else {
            Phase::Done
        };
        *self = Runner {
            state,
            n_sources: self.n_sources,
            n_sinks: self.n_sinks,
            sources_done: self.sources_done,
            sinks_done: done,
            batch,
        };
    }
}

} // verus!
