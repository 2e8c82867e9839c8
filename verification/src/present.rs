//! Presentation loop core: drain the device's non-blocking event
//! stream, advance the swapchain of each output whose page flip
//! completed, hand back the next flip commit for exactly those
//! outputs, and tear down outputs whose connector went away.
//!
//! A swapchain advances only from the event-dispatch path, never
//! speculatively: the functions here are the only ones that advance.
use vstd::prelude::*;
use crate::commit::AtomicRequest;
use crate::commit::CommitFlags;
use crate::commit::PropWrite;
use crate::commit::flip_flags;
use crate::display::Display;
use crate::display::DrmCtx;
use crate::display::LifecycleState;
use crate::display::spec_flip_writes;
use crate::swapchain::FbHandle;
use crate::swapchain::TripleBuffer;

verus! {

/// One event drained from the device's event stream.
#[derive(Clone, Copy, Debug, PartialEq, Eq, Structural)]
pub enum DrmEvent {
    /// A previously committed framebuffer is now being scanned out by
    /// the CRTC carried here.
    PageFlip(u32),
    VBlank,
    Unknown,
}

/// Outcome of one non-blocking poll of the event stream.
#[derive(Debug)]
pub enum PollResult {
    /// No events are ready this tick; not an error, the loop simply
    /// proceeds to its next responsibility.
    WouldBlock,
    Events(Vec<DrmEvent>),
}

/// One flip commit the loop wants issued.
#[derive(Debug)]
pub struct FlipRequest {
    /// Index of the output in the live list the request is for.
    pub index: usize,
    pub crtc: u32,
    pub flags: CommitFlags,
    pub request: AtomicRequest,
}

/// Whether the completion event for `crtc` belongs to this output.
pub open spec fn spec_flip_match(d: Display, crtc: u32) -> bool {
    d.crtc == crtc && d.state == LifecycleState::AwaitingFlip
}

/// The output after its swapchain advanced.
pub open spec fn spec_advance_output(d: Display) -> Display {
    Display {
        primary: DrmCtx {
            buffers: TripleBuffer {
                draw: (((d.primary.buffers.draw + 1) as int) % 3) as usize,
                scan: d.primary.buffers.draw,
                slots: d.primary.buffers.slots,
            },
            ..d.primary
        },
        ..d
    }
}

/// All outputs after the completion event for `crtc`: exactly the
/// matching ones advance.
pub open spec fn spec_apply_flips(outs: Seq<Display>, crtc: u32) -> Seq<Display> {
    Seq::new(
        outs.len(),
        |k: int|
            if spec_flip_match(outs[k], crtc) {
                spec_advance_output(outs[k])
            } else {
                outs[k]
            },
    )
}

/// Indices of the outputs the completion event for `crtc` belongs to,
/// ascending.
pub open spec fn matching_indices(outs: Seq<Display>, crtc: u32) -> Seq<int>
    decreases outs.len(),
{
    if outs.len() == 0 {
        Seq::empty()
    } else {
        matching_indices(outs.drop_last(), crtc) + if spec_flip_match(outs.last(), crtc) {
            seq![outs.len() - 1]
        } else {
            Seq::empty()
        }
    }
}

/// The (output index, crtc, request writes) of the flips one event
/// triggers: one per matching output, built after its advance.
pub open spec fn spec_event_flips(outs: Seq<Display>, crtc: u32) -> Seq<(int, u32, Seq<PropWrite>)> {
    matching_indices(outs, crtc).map_values(
        |k: int| (k, crtc, spec_flip_writes(spec_advance_output(outs[k]).primary, false)),
    )
}

/// Every index of `matching_indices` is in range and matches.
proof fn lemma_matching_indices(outs: Seq<Display>, crtc: u32)
    ensures
        forall|j: int|
            0 <= j < matching_indices(outs, crtc).len() ==> {
                let k = #[trigger] matching_indices(outs, crtc)[j];
                &&& 0 <= k < outs.len()
                &&& spec_flip_match(outs[k], crtc)
            },
    decreases outs.len(),
{
    if outs.len() > 0 {
        lemma_matching_indices(outs.drop_last(), crtc);
        let m = matching_indices(outs, crtc);
        let prev = matching_indices(outs.drop_last(), crtc);
        assert forall|j: int| 0 <= j < m.len() implies {
            let k = #[trigger] m[j];
            0 <= k < outs.len() && spec_flip_match(outs[k], crtc)
        } by {
            if j < prev.len() {
                assert(m[j] == prev[j]);
                assert(outs.drop_last()[prev[j]] == outs[prev[j]]);
            }
        }
    }
}

/// Advance every output whose page flip the event for `crtc`
/// completed, and build the next flip commit for exactly those
/// outputs, only after their advance.
#[verifier::loop_isolation(false)]
pub fn on_page_flip(outputs: &mut Vec<Display>, crtc: u32) -> (r: Vec<FlipRequest>)
    requires
        forall|k: int| 0 <= k < old(outputs)@.len() ==> (#[trigger] old(outputs)@[k]).wf(),
    ensures
        final(outputs)@ == spec_apply_flips(old(outputs)@, crtc),
        forall|k: int| 0 <= k < final(outputs)@.len() ==> (#[trigger] final(outputs)@[k]).wf(),
        r@.len() == matching_indices(old(outputs)@, crtc).len(),
        forall|j: int|
            0 <= j < r@.len() ==> {
                let k = matching_indices(old(outputs)@, crtc)[j];
                &&& (#[trigger] r@[j]).index == k
                &&& r@[j].crtc == crtc
                &&& r@[j].flags == (CommitFlags {
                    allow_modeset: false,
                    nonblock: true,
                    page_flip_event: true,
                })
                &&& r@[j].request.props@ == spec_flip_writes(
                    spec_advance_output(old(outputs)@[k]).primary,
                    false,
                )
            },
{
    let ghost orig = outputs@;
    let mut flips: Vec<FlipRequest> = Vec::new();
    let mut k: usize = 0;
    while k < outputs.len()
        invariant
            outputs@.len() == orig.len(),
            k <= orig.len(),
            forall|i: int| 0 <= i < orig.len() ==> (#[trigger] outputs@[i]).wf(),
            forall|i: int| 0 <= i < k ==> outputs@[i] == spec_apply_flips(orig, crtc)[i],
            forall|i: int| k <= i < orig.len() ==> outputs@[i] == orig[i],
            flips@.len() == matching_indices(orig.subrange(0, k as int), crtc).len(),
            forall|j: int|
                0 <= j < flips@.len() ==> {
                    let m = matching_indices(orig.subrange(0, k as int), crtc)[j];
                    &&& (#[trigger] flips@[j]).index == m
                    &&& flips@[j].crtc == crtc
                    &&& flips@[j].flags == (CommitFlags {
                        allow_modeset: false,
                        nonblock: true,
                        page_flip_event: true,
                    })
                    &&& flips@[j].request.props@ == spec_flip_writes(
                        spec_advance_output(orig[m]).primary,
                        false,
                    )
                },
        decreases orig.len() - k,
    {
        let ghost prefix = orig.subrange(0, k as int);
        let matched = outputs[k].crtc == crtc && matches!(outputs[k].state, LifecycleState::AwaitingFlip);
        if matched {
            let ghost before = outputs@;
            let mut d = outputs.remove(k);
            d.primary.buffers.swap();
            let mut req = AtomicRequest::new();
            d.primary.flip_req(&mut req, false);
            proof {
                assert(d == spec_advance_output(orig[k as int]));
                assert(req.props@ =~= spec_flip_writes(
                    spec_advance_output(orig[k as int]).primary,
                    false,
                ));
            }
            flips.push(FlipRequest { index: k, crtc, flags: flip_flags(), request: req });
            outputs.insert(k, d);
            proof {
                assert(outputs@ =~= before.update(k as int, d));
            }
        }
        proof {
            let ext = orig.subrange(0, k as int + 1);
            assert(ext.drop_last() =~= prefix);
            assert(ext.last() == orig[k as int]);
            if spec_flip_match(orig[k as int], crtc) {
                assert(matching_indices(ext, crtc) =~= matching_indices(prefix, crtc) + seq![
                    k as int,
                ]);
            } else {
                assert(matching_indices(ext, crtc) =~= matching_indices(prefix, crtc));
            }
        }
        k += 1;
    }
    proof {
        assert(orig.subrange(0, orig.len() as int) =~= orig);
        assert(outputs@ =~= spec_apply_flips(orig, crtc));
    }
    flips
}

/// Mark an output's successful modeset commit: it now waits for the
/// completion event of that commit.
pub fn on_modeset_committed(d: &mut Display)
    requires
        old(d).state == LifecycleState::Acquired,
    ensures
        *final(d) == (Display { state: LifecycleState::AwaitingFlip, ..*old(d) }),
{
    d.state = LifecycleState::AwaitingFlip;
}

/// Decide what follows a flip commit's outcome.  A rejected commit
/// with the connector no longer connected schedules the output for
/// teardown (the result is `true`); a rejected commit with the
/// connector still present skips the frame, leaving the output ready
/// for a fresh request; an accepted commit leaves the output waiting
/// for its completion event.
pub fn on_flip_result(d: &mut Display, committed: bool, connected: bool) -> (r: bool)
    ensures
        r == (!committed && !connected),
        committed ==> *final(d) == (Display { state: LifecycleState::AwaitingFlip, ..*old(d) }),
        !committed && connected ==> *final(d) == (Display {
            state: LifecycleState::Acquired,
            ..*old(d)
        }),
        !committed && !connected ==> *final(d) == *old(d),
{
    if committed {
        d.state = LifecycleState::AwaitingFlip;
        false
    } else if connected {
        d.state = LifecycleState::Acquired;
        false
    } else {
        true
    }
}

/// The framebuffer handles of one plane's swapchain.
pub open spec fn spec_ctx_fbs(c: DrmCtx) -> Seq<FbHandle> {
    c.buffers.fb_seq()
}

/// The framebuffer handles of a row of planes.
pub open spec fn spec_overlay_fbs(ctxs: Seq<DrmCtx>) -> Seq<FbHandle>
    decreases ctxs.len(),
{
    if ctxs.len() == 0 {
        Seq::empty()
    } else {
        spec_overlay_fbs(ctxs.drop_last()) + spec_ctx_fbs(ctxs.last())
    }
}

/// Every framebuffer handle the output owns, across primary, cursor
/// and overlays.
pub open spec fn spec_all_fbs(d: Display) -> Seq<FbHandle> {
    spec_ctx_fbs(d.primary) + (match d.cursor {
        Some(c) => spec_ctx_fbs(c),
        None => Seq::empty(),
    }) + spec_overlay_fbs(d.overlays@)
}

/// Append the three framebuffer handles of one plane's swapchain.
fn push_ctx_fbs(c: &DrmCtx, out: &mut Vec<FbHandle>)
    requires
        c.wf(),
    ensures
        final(out)@ == old(out)@ + spec_ctx_fbs(*c),
{
    out.push(c.slot_fb(0));
    out.push(c.slot_fb(1));
    out.push(c.slot_fb(2));
    proof {
        assert(final(out)@ =~= old(out)@ + spec_ctx_fbs(*c));
    }
}

/// Hand out every framebuffer handle of the output for destruction
/// and mark it torn down.  Tearing down an already torn-down output a
/// second time hands out nothing and changes nothing: the operation is
/// idempotent and never fails.
#[verifier::loop_isolation(false)]
pub fn teardown_fbs(d: &mut Display) -> (r: Vec<FbHandle>)
    requires
        old(d).wf(),
    ensures
        final(d).wf(),
        old(d).state == LifecycleState::TornDown ==> r@ == Seq::<FbHandle>::empty() && *final(d)
            == *old(d),
        old(d).state != LifecycleState::TornDown ==> r@ == spec_all_fbs(*old(d)) && *final(d)
            == (Display { state: LifecycleState::TornDown, ..*old(d) }),
{
    if matches!(d.state, LifecycleState::TornDown) {
        return Vec::new();
    }
    let mut fbs: Vec<FbHandle> = Vec::new();
    push_ctx_fbs(&d.primary, &mut fbs);
    match &d.cursor {
        Some(c) => push_ctx_fbs(c, &mut fbs),
        None => (),
    }
    let ghost before_overlays = fbs@;
    let mut i: usize = 0;
    while i < d.overlays.len()
        invariant
            i <= d.overlays@.len(),
            old(d).wf(),
            d == old(d),
            fbs@ == before_overlays + spec_overlay_fbs(d.overlays@.subrange(0, i as int)),
        decreases d.overlays@.len() - i,
    {
        let ghost prefix = d.overlays@.subrange(0, i as int);
        push_ctx_fbs(&d.overlays[i], &mut fbs);
        proof {
            let ext = d.overlays@.subrange(0, i as int + 1);
            assert(ext.drop_last() =~= prefix);
            assert(ext.last() == d.overlays@[i as int]);
        }
        i += 1;
    }
    d.state = LifecycleState::TornDown;
    proof {
        assert(old(d).overlays@.subrange(0, old(d).overlays@.len() as int) =~= old(d).overlays@);
        assert(fbs@ =~= spec_all_fbs(*old(d)));
    }
    fbs
}

/// Remove the torn-down outputs from the live list.
#[verifier::loop_isolation(false)]
pub fn sweep_torn_down(outputs: &mut Vec<Display>)
    ensures
        final(outputs)@ == old(outputs)@.filter(
            |d: Display| d.state != LifecycleState::TornDown,
        ),
{
    let total: usize = outputs.len();
    let ghost orig = outputs@;
    let ghost pred = |d: Display| d.state != LifecycleState::TornDown;
    let mut kept: Vec<Display> = Vec::new();
    let ghost processed = Seq::<Display>::empty();
    let mut processed_len: usize = 0;
    proof {
        assert(orig.subrange(0, 0) =~= Seq::<Display>::empty());
        assert(Seq::<Display>::empty().filter(pred) =~= Seq::<Display>::empty());
    }
    while outputs.len() > 0
        invariant
            orig.len() == total as nat,
            processed_len <= orig.len(),
            outputs@ =~= orig.subrange(processed_len as int, orig.len() as int),
            kept@ == orig.subrange(0, processed_len as int).filter(pred),
        decreases outputs@.len(),
    {
        let ghost prefix = orig.subrange(0, processed_len as int);
        let d = outputs.remove(0);
        proof {
            assert(d == orig[processed_len as int]);
        }
        let keep = !matches!(d.state, LifecycleState::TornDown);
        if keep {
            kept.push(d);
        }
        proof {
            let ext = orig.subrange(0, processed_len as int + 1);
            assert(ext =~= prefix + seq![orig[processed_len as int]]);
            Seq::filter_distributes_over_add(prefix, seq![orig[processed_len as int]], pred);
            reveal_with_fuel(Seq::filter, 2);
            if pred(orig[processed_len as int]) {
                assert(seq![orig[processed_len as int]].filter(pred) =~= seq![
                    orig[processed_len as int],
                ]);
            } else {
                assert(seq![orig[processed_len as int]].filter(pred)
                    =~= Seq::<Display>::empty());
            }
            assert(outputs@ =~= orig.subrange(processed_len as int + 1, orig.len() as int));
            assert(processed_len < orig.len());
        }
        processed_len += 1;
    }
    proof {
        assert(orig.subrange(0, orig.len() as int) =~= orig);
    }
    outputs.append(&mut kept);
    proof {
        assert(final(outputs)@ =~= orig.filter(pred));
    }
}

/// The live outputs after every event of one drained batch, in order.
pub open spec fn spec_drain(outs: Seq<Display>, events: Seq<DrmEvent>) -> Seq<Display>
    decreases events.len(),
{
    if events.len() == 0 {
        outs
    } else {
        let next = match events[0] {
            DrmEvent::PageFlip(c) => spec_apply_flips(outs, c),
            _ => outs,
        };
        spec_drain(next, events.drop_first())
    }
}

/// The flips issued over one drained batch, in order.
pub open spec fn spec_drain_flips(outs: Seq<Display>, events: Seq<DrmEvent>) -> Seq<
    (int, u32, Seq<PropWrite>),
>
    decreases events.len(),
{
    if events.len() == 0 {
        Seq::empty()
    } else {
        match events[0] {
            DrmEvent::PageFlip(c) => spec_event_flips(outs, c) + spec_drain_flips(
                spec_apply_flips(outs, c),
                events.drop_first(),
            ),
            _ => spec_drain_flips(outs, events.drop_first()),
        }
    }
}

/// One tick of the presentation loop's event half: process the poll
/// outcome.  A would-block poll leaves every output untouched and
/// issues nothing.  A batch of events advances the matching outputs
/// event by event and hands back their next flip commits, in order.
#[verifier::loop_isolation(false)]
pub fn update(outputs: &mut Vec<Display>, poll: &PollResult) -> (r: Vec<FlipRequest>)
    requires
        forall|k: int| 0 <= k < old(outputs)@.len() ==> (#[trigger] old(outputs)@[k]).wf(),
    ensures
        forall|k: int| 0 <= k < final(outputs)@.len() ==> (#[trigger] final(outputs)@[k]).wf(),
        poll is WouldBlock ==> final(outputs)@ == old(outputs)@ && r@.len() == 0,
        poll matches PollResult::Events(evs) ==> {
            &&& final(outputs)@ == spec_drain(old(outputs)@, evs@)
            &&& r@.len() == spec_drain_flips(old(outputs)@, evs@).len()
            &&& forall|j: int|
                0 <= j < r@.len() ==> {
                    let f = spec_drain_flips(old(outputs)@, evs@)[j];
                    &&& (#[trigger] r@[j]).index == f.0
                    &&& r@[j].crtc == f.1
                    &&& r@[j].request.props@ == f.2
                    &&& r@[j].flags == (CommitFlags {
                        allow_modeset: false,
                        nonblock: true,
                        page_flip_event: true,
                    })
                }
        },
{
    let evs = match poll {
        PollResult::WouldBlock => {
            return Vec::new();
        }
        PollResult::Events(evs) => evs,
    };
    let ghost orig = outputs@;
    let mut flips: Vec<FlipRequest> = Vec::new();
    proof {
        assert(evs@.subrange(0, evs@.len() as int) =~= evs@);
        assert(flips@.map_values(|f: FlipRequest| (f.index as int, f.crtc, f.request.props@))
            =~= Seq::<(int, u32, Seq<PropWrite>)>::empty());
    }
    let mut e: usize = 0;
    while e < evs.len()
        invariant
            e <= evs@.len(),
            forall|k: int| 0 <= k < outputs@.len() ==> (#[trigger] outputs@[k]).wf(),
            spec_drain(orig, evs@) == spec_drain(
                outputs@,
                evs@.subrange(e as int, evs@.len() as int),
            ),
            spec_drain_flips(orig, evs@) == flips@.map_values(
                |f: FlipRequest| (f.index as int, f.crtc, f.request.props@),
            ) + spec_drain_flips(outputs@, evs@.subrange(e as int, evs@.len() as int)),
            forall|j: int|
                0 <= j < flips@.len() ==> (#[trigger] flips@[j]).flags == (CommitFlags {
                    allow_modeset: false,
                    nonblock: true,
                    page_flip_event: true,
                }),
        decreases evs@.len() - e,
    {
        let ghost rest = evs@.subrange(e as int, evs@.len() as int);
        let ghost outs_before = outputs@;
        let ghost flips_before = flips@;
        let ev = evs[e];
        match ev {
            DrmEvent::PageFlip(c) => {
                let mut new_flips = on_page_flip(outputs, c);
                proof {
                    lemma_matching_indices(outs_before, c);
                }
                flips.append(&mut new_flips);
            }
            _ => (),
        }
        proof {
            assert(rest[0] == evs@[e as int]);
            assert(rest.drop_first() =~= evs@.subrange(e as int + 1, evs@.len() as int));
            assert(flips@.map_values(|f: FlipRequest| (f.index as int, f.crtc, f.request.props@))
                =~= flips_before.map_values(
                |f: FlipRequest| (f.index as int, f.crtc, f.request.props@),
            ) + (match evs@[e as int] {
                DrmEvent::PageFlip(c) => spec_event_flips(outs_before, c),
                _ => Seq::empty(),
            }));
        }
        e += 1;
    }
    proof {
        assert(evs@.subrange(evs@.len() as int, evs@.len() as int) =~= Seq::<DrmEvent>::empty());
        assert(spec_drain_flips(outputs@, Seq::<DrmEvent>::empty()) =~= Seq::<
            (int, u32, Seq<PropWrite>),
        >::empty());
        assert(spec_drain_flips(orig, evs@) =~= flips@.map_values(
            |f: FlipRequest| (f.index as int, f.crtc, f.request.props@),
        ));
        assert(spec_drain(orig, evs@) == outputs@);
    }
    flips
}

} // verus!
