//! Outline strokers: pens that turn a path into its stroked border.

use vstd::prelude::*;

use crate::library::Library;

verus! {

/// How a stroked line is capped at its open ends.
#[derive(Clone, Copy, PartialEq, Eq, Structural, Debug)]
pub enum StrokerLineCap {
    /// The stroke stops flush at the endpoint.
    Butt,
    /// A half circle is drawn around the endpoint.
    Round,
    /// A half square is drawn around the endpoint.
    Square,
}

/// The numeric code of a line-cap style, as the font engine numbers them.
pub open spec fn line_cap_code(c: StrokerLineCap) -> u32 {
    match c {
        StrokerLineCap::Butt => 0,
        StrokerLineCap::Round => 1,
        StrokerLineCap::Square => 2,
    }
}

impl StrokerLineCap {
    /// The numeric code of this cap style.
    pub fn code(&self) -> (r: u32)
        ensures
            r == line_cap_code(*self),
    {
        match self {
            StrokerLineCap::Butt => 0,
            StrokerLineCap::Round => 1,
            StrokerLineCap::Square => 2,
        }
    }
}

/// How two stroked segments are joined at a corner.
#[derive(Clone, Copy, PartialEq, Eq, Structural, Debug)]
pub enum StrokerLineJoin {
    /// A circular arc around the corner.
    Round,
    /// A flat cut across the corner.
    Bevel,
    /// A miter that falls back to a variable bevel beyond the miter limit.
    MiterVariable,
    /// A miter that falls back to a fixed bevel beyond the miter limit.
    MiterFixed,
}

/// The numeric code of a line-join style, as the font engine numbers them.
pub open spec fn line_join_code(j: StrokerLineJoin) -> u32 {
    match j {
        StrokerLineJoin::Round => 0,
        StrokerLineJoin::Bevel => 1,
        StrokerLineJoin::MiterVariable => 2,
        StrokerLineJoin::MiterFixed => 3,
    }
}

impl StrokerLineJoin {
    /// The numeric code of this join style.
    pub fn code(&self) -> (r: u32)
        ensures
            r == line_join_code(*self),
    {
        match self {
            StrokerLineJoin::Round => 0,
            StrokerLineJoin::Bevel => 1,
            StrokerLineJoin::MiterVariable => 2,
            StrokerLineJoin::MiterFixed => 3,
        }
    }
}

/// A stroking pen: the engine handle it wraps and the stroke parameters
/// last set on it.  Like every wrapper derived from a library, it holds one
/// reference on the library from construction to discard.  Discarding it
/// consumes it, as the release of its engine object would.
#[derive(PartialEq, Eq, Structural, Debug)]
pub struct Stroker {
    handle: u64,
    radius: i64,
    line_cap: StrokerLineCap,
    line_join: StrokerLineJoin,
    miter_limit: i64,
}

impl Stroker {
    /// The opaque handle of the underlying stroker object.
    pub closed spec fn spec_handle(self) -> u64 {
        self.handle
    }

    /// The stroke radius last set.
    pub closed spec fn spec_radius(self) -> i64 {
        self.radius
    }

    /// The cap style last set.
    pub closed spec fn spec_line_cap(self) -> StrokerLineCap {
        self.line_cap
    }

    /// The join style last set.
    pub closed spec fn spec_line_join(self) -> StrokerLineJoin {
        self.line_join
    }

    /// The miter limit last set.
    pub closed spec fn spec_miter_limit(self) -> i64 {
        self.miter_limit
    }

    /// Record a freshly created stroker, acquiring the library reference
    /// its construction takes.
    pub fn new(handle: u64, library: &mut Library) -> (r: Stroker)
        requires
            old(library).spec_refs() < u64::MAX,
        ensures
            final(library).spec_handle() == old(library).spec_handle(),
            final(library).spec_refs() == old(library).spec_refs() + 1,
            r.spec_handle() == handle,
            r.spec_radius() == 0,
            r.spec_line_cap() == StrokerLineCap::Butt,
            r.spec_line_join() == StrokerLineJoin::Round,
            r.spec_miter_limit() == 0,
    {
        library.retain();
        Stroker {
            handle,
            radius: 0,
            line_cap: StrokerLineCap::Butt,
            line_join: StrokerLineJoin::Round,
            miter_limit: 0,
        }
    }

    /// Set the stroke parameters used by subsequent stroking operations.
    pub fn set(
        &mut self,
        radius: i64,
        line_cap: StrokerLineCap,
        line_join: StrokerLineJoin,
        miter_limit: i64,
    )
        ensures
            final(self).spec_handle() == old(self).spec_handle(),
            final(self).spec_radius() == radius,
            final(self).spec_line_cap() == line_cap,
            final(self).spec_line_join() == line_join,
            final(self).spec_miter_limit() == miter_limit,
    {
        self.radius = radius;
        self.line_cap = line_cap;
        self.line_join = line_join;
        self.miter_limit = miter_limit;
    }

    /// The opaque handle of the underlying stroker object.
    pub fn raw_stroker(&self) -> (r: u64)
        ensures
            r == self.spec_handle(),
    {
        self.handle
    }

    /// Discard the stroker, releasing the library reference it held.
    pub fn discard(self, library: &mut Library)
        requires
            old(library).spec_refs() >= 1,
        ensures
            final(library).spec_handle() == old(library).spec_handle(),
            final(library).spec_refs() == old(library).spec_refs() - 1,
    {
        library.release();
    }
}

} // verus!
