//! The font engine instance and its reference-counting discipline.
//!
//! The engine's objects are reference counted by hand: every wrapper that
//! depends on a library instance acquires one reference on construction and
//! releases it again when it is discarded, in reverse order of acquisition.
//! `Library` models that count as an explicit ledger, and the lemmas at the
//! bottom state the balance law the discipline relies on: as long as
//! acquires and releases pair up, the count ends where it began, whatever
//! the order in between.

use vstd::prelude::*;

use crate::error::{Error, FtResult};

verus! {

/// LCD filtering applied to sub-pixel rendered bitmaps.
#[derive(Clone, Copy, PartialEq, Eq, Structural, Debug)]
pub enum LcdFilter {
    /// No filtering.
    LcdFilterNone,
    /// The default moderate filter.
    LcdFilterDefault,
    /// A lighter filter.
    LcdFilterLight,
    /// The legacy filter of earlier engine versions.
    LcdFilterLegacy,
}

/// The numeric code of an LCD filter, as the font engine numbers them.
pub open spec fn lcd_filter_code(f: LcdFilter) -> u32 {
    match f {
        LcdFilter::LcdFilterNone => 0,
        LcdFilter::LcdFilterDefault => 1,
        LcdFilter::LcdFilterLight => 2,
        LcdFilter::LcdFilterLegacy => 16,
    }
}

impl LcdFilter {
    /// The numeric code of this filter.
    pub fn code(&self) -> (r: u32)
        ensures
            r == lcd_filter_code(*self),
    {
        match self {
            LcdFilter::LcdFilterNone => 0,
            LcdFilter::LcdFilterDefault => 1,
            LcdFilter::LcdFilterLight => 2,
            LcdFilter::LcdFilterLegacy => 16,
        }
    }
}

/// A font engine instance: an opaque handle together with the ledger of
/// references that dependent wrappers hold on it.
pub struct Library {
    handle: u64,
    refs: u64,
}

impl Library {
    /// The opaque handle value of this instance.
    pub closed spec fn spec_handle(self) -> u64 {
        self.handle
    }

    /// How many references are outstanding on this instance.
    pub closed spec fn spec_refs(self) -> u64 {
        self.refs
    }

    /// Record a freshly created engine instance: it starts with the single
    /// reference held by its creator.
    pub fn init(handle: u64) -> (r: Library)
        ensures
            r.spec_handle() == handle,
            r.spec_refs() == 1,
    {
        Library { handle, refs: 1 }
    }

    /// The opaque handle of the underlying engine instance.
    pub fn raw(&self) -> (r: u64)
        ensures
            r == self.spec_handle(),
    {
        self.handle
    }

    /// How many references are outstanding on this instance.
    pub fn references(&self) -> (r: u64)
        ensures
            r == self.spec_refs(),
    {
        self.refs
    }

    /// Acquire one reference: a dependent wrapper is being constructed.
    pub fn retain(&mut self)
        requires
            old(self).spec_refs() < u64::MAX,
        ensures
            final(self).spec_handle() == old(self).spec_handle(),
            final(self).spec_refs() == old(self).spec_refs() + 1,
    {
        self.refs = self.refs + 1;
    }

    /// Release one reference: a dependent wrapper is being discarded.  A
    /// release without a matching earlier acquire would mean a corrupted
    /// object graph, which the discipline treats as fatal; it is excluded
    /// here by precondition.
    pub fn release(&mut self)
        requires
            old(self).spec_refs() >= 1,
        ensures
            final(self).spec_handle() == old(self).spec_handle(),
            final(self).spec_refs() == old(self).spec_refs() - 1,
    {
        self.refs = self.refs - 1;
    }
}

/// Check a path before it is handed to the engine's face-opening call: the
/// engine takes a NUL-terminated string, so a path holding a NUL byte
/// cannot be represented and is rejected as `InvalidPath`.
pub fn check_path(path: &Vec<u8>) -> (r: FtResult<()>)
    ensures
        match r {
            Ok(()) => forall|i: int| 0 <= i < path@.len() ==> #[trigger] path@[i] != 0,
            Err(e) => {
                &&& e == Error::InvalidPath
                &&& exists|i: int| 0 <= i < path@.len() && #[trigger] path@[i] == 0
            },
        },
{
    let mut i: usize = 0;
    while i < path.len()
        invariant
            i <= path@.len(),
            forall|j: int| 0 <= j < i ==> #[trigger] path@[j] != 0,
        decreases path@.len() - i,
    {
        if path[i] == 0 {
            return Err(Error::InvalidPath);
        }
        i = i + 1;
    }
    Ok(())
}

/// The reference count that results from applying a sequence of events to a
/// starting count: `true` is an acquire, `false` a release.
pub open spec fn refs_after(start: int, ops: Seq<bool>) -> int
    decreases ops.len(),
{
    if ops.len() == 0 {
        start
    } else {
        refs_after(start + if ops[0] {
            1int
        } else {
            -1int
        }, ops.drop_first())
    }
}

/// The net effect of a sequence of reference-count events.
pub open spec fn net_change(ops: Seq<bool>) -> int
    decreases ops.len(),
{
    if ops.len() == 0 {
        0
    } else {
        (if ops[0] {
            1int
        } else {
            -1int
        }) + net_change(ops.drop_first())
    }
}

/// Law: a sequence of acquires and releases moves the reference count by
/// exactly its net change, independent of the order of the events.
pub proof fn lemma_refs_after_is_net_change(start: int, ops: Seq<bool>)
    ensures
        refs_after(start, ops) == start + net_change(ops),
    decreases ops.len(),
{
    if ops.len() > 0 {
        lemma_refs_after_is_net_change(
            start + if ops[0] {
                1int
            } else {
                -1int
            },
            ops.drop_first(),
        );
    }
}

/// Law: however acquires and releases interleave, a sequence whose acquires
/// and releases balance leaves the reference count exactly where it began.
/// Constructing any number of library-dependent wrappers and discarding all
/// of them, in any order, restores the library's count.
pub proof fn lemma_balanced_ops_restore_refs(start: int, ops: Seq<bool>)
    requires
        net_change(ops) == 0,
    ensures
        refs_after(start, ops) == start,
{
    lemma_refs_after_is_net_change(start, ops);
}

} // verus!
