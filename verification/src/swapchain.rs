//! Triple-buffered swapchain: three scanout slots cycled by a pair of
//! cursors, so the slot being rendered is never the slot the display
//! hardware may still be latching.
use vstd::prelude::*;
use crate::error::CompositorError;
use crate::resolver::PlaneKind;

verus! {

/// A kernel framebuffer handle.
pub type FbHandle = u32;

/// Everything one swapchain slot owns: the native buffer object, its
/// kernel framebuffer, and the GPU-side image imported from it.
/// The application keeps the live driver objects keyed by these ids.
#[derive(Clone, Copy, Debug, PartialEq, Eq, Structural)]
pub struct SwapSlot {
    /// Native buffer object id.
    pub bo: u64,
    /// Kernel framebuffer handle registered for the buffer.
    pub fb: FbHandle,
    /// Native GPU image handle imported from the buffer.
    pub image: u64,
    /// Device memory bound to the image.
    pub memory: u64,
    /// Renderer-level texture wrapping the image.
    pub texture: u64,
}

/// What a failed swapchain assembly hands back: the error of the slot
/// that failed, and every slot that had already been built and must
/// now be destroyed by the caller.
pub struct AllocFailure {
    pub error: CompositorError,
    pub cleanup: Vec<SwapSlot>,
}

/// The draw cursor after one advance.
pub open spec fn next_draw(d: nat) -> nat {
    (d + 1) % 3
}

/// The (draw, scan) cursor pair after `k` advances of a fresh
/// swapchain.  A fresh ring already keeps the two apart: the producer
/// starts at slot 0 while the scan cursor sits at slot 2, the value
/// `(k - 1) mod 3` takes at `k == 0`.
pub open spec fn cursors_after(k: nat) -> (nat, nat)
    decreases k,
{
    if k == 0 {
        (0nat, 2nat)
    } else {
        let prev = cursors_after((k - 1) as nat);
        (next_draw(prev.0), prev.0)
    }
}

/// Law: after `k` advances of a fresh swapchain the draw cursor is
/// `k % 3`, the scan cursor is `(k - 1) % 3`, and the two always
/// differ, from assembly on.
pub proof fn lemma_cursors_after_advances(k: nat)
    ensures
        cursors_after(k).0 == k % 3,
        cursors_after(k).1 == (k - 1) % 3,
        cursors_after(k).0 != cursors_after(k).1,
    decreases k,
{
    if k == 0 {
        assert((0nat) % 3 == 0);
        assert((0int - 1) % 3 == 2);
    } else {
        lemma_cursors_after_advances((k - 1) as nat);
        let prev = cursors_after((k - 1) as nat);
        vstd::arithmetic::div_mod::lemma_add_mod_noop((k - 1) as int, 1, 3);
        assert(((k - 1) % 3 + 1) % 3 == k % 3);
        assert(prev.0 < 3);
        if prev.0 == 2 {
            assert((2nat + 1) % 3 == 0);
        } else {
            vstd::arithmetic::div_mod::lemma_small_mod(prev.0 + 1, 3);
        }
    }
}

/// Fixed ring of exactly three scanout slots.  `draw` is the slot the
/// producer fills next; `scan` is the slot most recently handed to the
/// display.  The two differ at all times outside `swap`: a fresh ring
/// starts with `draw` at slot 0 and `scan` at slot 2.
#[derive(Debug)]
pub struct TripleBuffer {
    pub draw: usize,
    pub scan: usize,
    pub slots: Vec<SwapSlot>,
}

impl TripleBuffer {
    /// Structural invariant: both cursors address one of the three slots.
    pub open spec fn wf(self) -> bool {
        &&& self.slots@.len() == 3
        &&& self.draw < 3
        &&& self.scan < 3
    }

    /// The framebuffer handles of the three slots, in slot order.
    pub open spec fn fb_seq(self) -> Seq<FbHandle> {
        self.slots@.map_values(|s: SwapSlot| s.fb)
    }

    /// Assemble a swapchain from the three per-slot import results.
    ///
    /// All-or-nothing: the swapchain exists only if every slot was
    /// built; on the first failure the error is returned together with
    /// the slots already built, so the caller can destroy them and
    /// nothing partially usable is left referenced.  The fresh ring's
    /// cursors already differ: the producer starts at slot 0, the scan
    /// cursor at slot 2.
    pub fn new(results: Vec<Result<SwapSlot, CompositorError>>) -> (r: Result<TripleBuffer, AllocFailure>)
        requires
            results@.len() == 3,
        ensures
            r is Ok <==> (forall|i: int| 0 <= i < 3 ==> results@[i] is Ok),
            r matches Ok(tb) ==> {
                &&& tb.wf()
                &&& tb.draw == 0
                &&& tb.scan == 2
                &&& tb.draw != tb.scan
                &&& forall|i: int| 0 <= i < 3 ==> tb.slots@[i] == results@[i]->Ok_0
            },
            r matches Err(f) ==> {
                let j = f.cleanup@.len() as int;
                &&& 0 <= j < 3
                &&& results@[j] is Err
                &&& f.error == results@[j]->Err_0
                &&& forall|i: int| 0 <= i < j ==> results@[i] is Ok && f.cleanup@[i] == results@[i]->Ok_0
            },
    {
        let mut built: Vec<SwapSlot> = Vec::new();
        let mut idx: usize = 0;
        while idx < 3
            invariant
                results@.len() == 3,
                idx <= 3,
                built@.len() == idx,
                forall|i: int| 0 <= i < idx ==> #[trigger] results@[i] is Ok,
                forall|i: int| 0 <= i < idx ==> built@[i] == (#[trigger] results@[i])->Ok_0,
            decreases 3 - idx,
        {
            let r = &results[idx];
            match r {
                Ok(slot) => {
                    built.push(*slot);
                }
                Err(e) => {
                    return Err(AllocFailure { error: *e, cleanup: built });
                }
            }
            idx += 1;
        }
        Ok(TripleBuffer { draw: 0, scan: 2, slots: built })
    }

    /// The framebuffer handle of the slot the producer fills next.
    pub fn draw_fb(&self) -> (r: FbHandle)
        requires
            self.wf(),
        ensures
            r == self.fb_seq()[self.draw as int],
    {
        self.slots[self.draw].fb
    }

    /// The framebuffer handle of the slot most recently scanned out.
    pub fn scan_fb(&self) -> (r: FbHandle)
        requires
            self.wf(),
        ensures
            r == self.fb_seq()[self.scan as int],
    {
        self.slots[self.scan].fb
    }

    /// Advance the ring: the display takes over the slot that was being
    /// drawn, and the producer moves to the next slot.  Pure index
    /// arithmetic; must be called exactly once per confirmed page flip.
    pub fn swap(&mut self)
        requires
            old(self).wf(),
        ensures
            final(self).wf(),
            final(self).scan == old(self).draw,
            final(self).draw == (old(self).draw + 1) % 3,
            final(self).draw != final(self).scan,
            final(self).slots == old(self).slots,
    {
        self.scan = self.draw;
        self.draw = (self.draw + 1) % 3;
    }
}

/// How a swapchain buffer will be used: always render-capable, and
/// either scanout-capable or cursor-capable.
#[derive(Clone, Copy, Debug, PartialEq, Eq, Structural)]
pub enum BufferUsage {
    Scanout,
    Cursor,
}

/// The buffer-usage class of a plane role: the cursor role allocates
/// cursor-capable buffers, the primary and overlay roles allocate
/// scanout-capable ones.
pub fn buffer_usage_for_role(kind: PlaneKind) -> (r: BufferUsage)
    ensures
        r == (match kind {
            PlaneKind::Cursor => BufferUsage::Cursor,
            _ => BufferUsage::Scanout,
        }),
{
    match kind {
        PlaneKind::Cursor => BufferUsage::Cursor,
        _ => BufferUsage::Scanout,
    }
}

} // verus!
