//! Ownership of a pixel surface and the one release it is owed.
use vstd::prelude::*;

use crate::error::{error_of, outcome_of, Error, STATUS_SUCCESS};
use crate::surface::{Color, Rectangle, Surface};

verus! {

/// How a buffer's memory was obtained.
#[derive(Debug, Clone, Copy, PartialEq, Eq, Structural)]
pub enum Provenance {
    /// Nothing is held: never acquired, or already released.
    Unowned,
    /// The engine allocated the memory and must free it.
    Allocated,
    /// Caller-owned memory the engine mapped; it must be unmapped, never freed.
    Mapped,
}

/// The native call a buffer's release must make.
#[derive(Debug, Clone, Copy, PartialEq, Eq, Structural)]
pub enum Release {
    Nothing,
    Free,
    Unmap,
}

/// The release owed to memory of provenance `p`.
pub open spec fn release_for(p: Provenance) -> Release {
    match p {
        Provenance::Unowned => Release::Nothing,
        Provenance::Allocated => Release::Free,
        Provenance::Mapped => Release::Unmap,
    }
}

/// The calls `n` successive releases of a buffer of provenance `p` make:
/// the first one settles the provenance, so every later one makes none.
pub open spec fn releases(p: Provenance, n: nat) -> Seq<Release>
    decreases n,
{
    if n == 0 {
        Seq::empty()
    } else {
        seq![release_for(p)] + releases(Provenance::Unowned, (n - 1) as nat)
    }
}

/// How many of `calls` are `c`.
pub open spec fn count_of(calls: Seq<Release>, c: Release) -> nat
    decreases calls.len(),
{
    if calls.len() == 0 {
        0
    } else {
        (if calls[0] == c {
            1nat
        } else {
            0nat
        }) + count_of(calls.subrange(1, calls.len() as int), c)
    }
}

/// A pixel surface together with the provenance of its memory.
#[derive(Debug)]
pub struct Buffer {
    surface: Surface,
    source: Provenance,
}

impl Buffer {
    pub closed spec fn spec_surface(self) -> Surface {
        self.surface
    }

    pub closed spec fn spec_provenance(self) -> Provenance {
        self.source
    }

    /// The buffer `acquired` yields on success.
    pub open spec fn spec_acquired(surface: Surface, source: Provenance, status: u32) -> Result<
        Buffer,
        Error,
    > {
        outcome_of(Buffer::spec_made(surface, source), status)
    }

    pub closed spec fn spec_made(surface: Surface, source: Provenance) -> Buffer {
        Buffer { surface, source }
    }

    /// Settles an engine request for memory (an allocation or a mapping,
    /// named by `source`) from its status: on success the buffer holds the
    /// surface with that provenance; on failure no buffer exists and the
    /// status' error is returned.
    pub fn acquired(surface: Surface, source: Provenance, status: u32) -> (r: Result<Buffer, Error>)
        ensures
            r == Buffer::spec_acquired(surface, source, status),
            r matches Ok(b) ==> b.spec_surface() == surface && b.spec_provenance() == source,
    {
        crate::error::wrap_result(Buffer { surface, source }, status)
    }

    /// Settles an engine allocation: provenance `Allocated` on success.
    pub fn allocated(surface: Surface, status: u32) -> (r: Result<Buffer, Error>)
        ensures
            r == Buffer::spec_acquired(surface, Provenance::Allocated, status),
            r is Ok <==> status == STATUS_SUCCESS,
            r matches Ok(b) ==> b.spec_surface() == surface && b.spec_provenance() == Provenance::Allocated,
    {
        Buffer::acquired(surface, Provenance::Allocated, status)
    }

    /// Settles a mapping of caller-owned memory: provenance `Mapped` on success.
    pub fn mapped(surface: Surface, status: u32) -> (r: Result<Buffer, Error>)
        ensures
            r == Buffer::spec_acquired(surface, Provenance::Mapped, status),
            r is Ok <==> status == STATUS_SUCCESS,
            r matches Ok(b) ==> b.spec_surface() == surface && b.spec_provenance() == Provenance::Mapped,
    {
        Buffer::acquired(surface, Provenance::Mapped, status)
    }

    pub fn surface(&self) -> (r: Surface)
        ensures
            r == self.spec_surface(),
    {
        self.surface
    }

    pub fn provenance(&self) -> (r: Provenance)
        ensures
            r == self.spec_provenance(),
    {
        self.source
    }

    /// Decides the one release the buffer's memory is owed and marks it
    /// settled, so that any later release makes no call.
    pub fn release(&mut self) -> (r: Release)
        ensures
            r == release_for(old(self).spec_provenance()),
            final(self).spec_provenance() == Provenance::Unowned,
            final(self).spec_surface() == old(self).spec_surface(),
    {
        let r = match self.source {
            Provenance::Unowned => Release::Nothing,
            Provenance::Allocated => Release::Free,
            Provenance::Mapped => Release::Unmap,
        };
        self.source = Provenance::Unowned;
        r
    }

    /// What a clear hands the engine: the area (the whole surface when
    /// `rect` is `None`) and the packed color. A rectangle that does not lie
    /// inside the surface is an `InvalidArgument`.
    pub fn clear_request(&self, rect: Option<Rectangle>, color: Color) -> (r: Result<
        (Option<Rectangle>, u32),
        Error,
    >)
        ensures
            r is Err <==> (rect matches Some(q) && !q.inside(
                self.spec_surface().width(),
                self.spec_surface().height(),
            )),
            r is Err ==> r == Err::<(Option<Rectangle>, u32), Error>(Error::InvalidArgument),
            r matches Ok((area, c)) ==> area == rect && c == color.packed(),
    {
        let area = match rect {
            Some(q) => Some(self.surface.check_rect(q)?),
            None => None,
        };
        Ok((area, color.packed()))
    }
}

/// Once released, a buffer makes no further native call however often it
/// is released again.
proof fn lemma_settled_releases_nothing(n: nat, c: Release)
    requires
        c != Release::Nothing,
    ensures
        count_of(releases(Provenance::Unowned, n), c) == 0,
    decreases n,
{
    if n > 0 {
        let rest = releases(Provenance::Unowned, (n - 1) as nat);
        let all = releases(Provenance::Unowned, n);
        assert(all.subrange(1, all.len() as int) =~= rest);
        lemma_settled_releases_nothing((n - 1) as nat, c);
    }
}

/// Release dispatch by provenance: over any number of releases of one
/// buffer, allocated memory is freed exactly once and never unmapped,
/// mapped memory is unmapped exactly once and never freed, and a buffer
/// that holds nothing makes neither call.
pub proof fn lemma_release_dispatch(p: Provenance, n: nat)
    requires
        n >= 1,
    ensures
        count_of(releases(p, n), Release::Free) == (if p == Provenance::Allocated {
            1nat
        } else {
            0nat
        }),
        count_of(releases(p, n), Release::Unmap) == (if p == Provenance::Mapped {
            1nat
        } else {
            0nat
        }),
{
    let all = releases(p, n);
    let rest = releases(Provenance::Unowned, (n - 1) as nat);
    assert(all.subrange(1, all.len() as int) =~= rest);
    lemma_settled_releases_nothing((n - 1) as nat, Release::Free);
    lemma_settled_releases_nothing((n - 1) as nat, Release::Unmap);
}

/// Allocating and then destroying a buffer, for every surface: a successful
/// allocation is freed exactly once and never unmapped, however many
/// releases follow; a failed one yields no buffer and so nothing to free.
pub proof fn lemma_allocation_freed_once(surface: Surface, status: u32, n: nat)
    requires
        n >= 1,
    ensures
        match Buffer::spec_acquired(surface, Provenance::Allocated, status) {
            Ok(b) => {
                &&& status == STATUS_SUCCESS
                &&& count_of(releases(b.spec_provenance(), n), Release::Free) == 1
                &&& count_of(releases(b.spec_provenance(), n), Release::Unmap) == 0
            },
            Err(e) => status != STATUS_SUCCESS && e == error_of(status),
        },
{
    lemma_release_dispatch(Provenance::Allocated, n);
}

/// Mapping caller-owned memory and then destroying the buffer unmaps it
/// exactly once and never frees it; a failed mapping yields no buffer.
pub proof fn lemma_mapping_unmapped_once(surface: Surface, status: u32, n: nat)
    requires
        n >= 1,
    ensures
        match Buffer::spec_acquired(surface, Provenance::Mapped, status) {
            Ok(b) => {
                &&& status == STATUS_SUCCESS
                &&& count_of(releases(b.spec_provenance(), n), Release::Unmap) == 1
                &&& count_of(releases(b.spec_provenance(), n), Release::Free) == 0
            },
            Err(e) => status != STATUS_SUCCESS && e == error_of(status),
        },
{
    lemma_release_dispatch(Provenance::Mapped, n);
}

} // verus!
