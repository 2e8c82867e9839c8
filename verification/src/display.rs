//! Live outputs: a claimed plane with its swapchain (`DrmCtx`), and a
//! whole scanout destination (`Display`) with its primary, cursor and
//! overlay layers, its negotiated mode and its lifecycle state.
use vstd::prelude::*;
use crate::commit::AtomicRequest;
use crate::commit::ConnectorProps;
use crate::commit::CrtcProps;
use crate::commit::PlaneProps;
use crate::commit::PropValue;
use crate::commit::PropWrite;
use crate::commit::resolve_connector_props;
use crate::commit::resolve_crtc_props;
use crate::commit::resolve_plane_props;
use crate::commit::spec_plane_props_of;
use crate::error::CompositorError;
use crate::resolver::ModeInfo;
use crate::resolver::OutputPlan;
use crate::swapchain::FbHandle;
use crate::swapchain::TripleBuffer;

verus! {

/// Side of the square cursor plane's buffers.
pub const CURSOR_DIM: u32 = 128;

/// Lifecycle of an output in the presentation loop.
#[derive(Clone, Copy, Debug, PartialEq, Eq, Structural)]
pub enum LifecycleState {
    /// Resources resolved; no commit with a completion event in flight.
    Acquired,
    /// A commit requesting a completion event is in flight; the output
    /// waits for its page flip.
    AwaitingFlip,
    /// The output lost its connector; its framebuffers were handed out
    /// for destruction.  Terminal.
    TornDown,
}

/// One plane driven by the pipeline: the claimed plane handle, its
/// resolved property ids, the layer size, and the swapchain behind it.
#[derive(Debug)]
pub struct DrmCtx {
    pub plane: u32,
    pub plane_props: PlaneProps,
    pub size: (u32, u32),
    pub buffers: TripleBuffer,
}

/// The writes that place a plane's source and destination rectangles:
/// the full layer at the origin of the CRTC's space, the source size
/// in the 16.16 fixed-point convention.
pub open spec fn spec_rect_writes(c: DrmCtx) -> Seq<PropWrite> {
    seq![
        (c.plane, c.plane_props.src_x, PropValue::UnsignedRange(0)),
        (c.plane, c.plane_props.src_y, PropValue::UnsignedRange(0)),
        (c.plane, c.plane_props.src_w, PropValue::UnsignedRange((c.size.0 as u64) << 16)),
        (c.plane, c.plane_props.src_h, PropValue::UnsignedRange((c.size.1 as u64) << 16)),
        (c.plane, c.plane_props.crtc_x, PropValue::SignedRange(0)),
        (c.plane, c.plane_props.crtc_y, PropValue::SignedRange(0)),
        (c.plane, c.plane_props.crtc_w, PropValue::UnsignedRange(c.size.0 as u64)),
        (c.plane, c.plane_props.crtc_h, PropValue::UnsignedRange(c.size.1 as u64)),
    ]
}

/// The full property set of a plane at modeset time: initial
/// framebuffer, owning CRTC, and the rectangles.
pub open spec fn spec_setup_writes(c: DrmCtx, crtc: u32) -> Seq<PropWrite> {
    seq![
        (c.plane, c.plane_props.fb_id, PropValue::Framebuffer(Some(c.buffers.fb_seq()[0]))),
        (c.plane, c.plane_props.crtc_id, PropValue::Crtc(Some(crtc))),
    ] + spec_rect_writes(c)
}

/// The writes of a flip for this plane: the draw slot's framebuffer,
/// and the rectangles only when they changed since the last frame.
pub open spec fn spec_flip_writes(c: DrmCtx, rect_changed: bool) -> Seq<PropWrite> {
    seq![
        (c.plane, c.plane_props.fb_id, PropValue::Framebuffer(
            Some(c.buffers.fb_seq()[c.buffers.draw as int]),
        )),
    ] + if rect_changed {
        spec_rect_writes(c)
    } else {
        Seq::empty()
    }
}

impl DrmCtx {
    /// Structural invariant: the swapchain is well formed.
    pub open spec fn wf(self) -> bool {
        self.buffers.wf()
    }

    /// Build a plane context from the claimed plane, its resolved
    /// property table, the layer size and an assembled swapchain.
    pub fn new(
        plane: u32,
        prop_table: &Vec<(String, u32)>,
        size: (u32, u32),
        buffers: TripleBuffer,
    ) -> (r: Result<DrmCtx, CompositorError>)
        requires
            buffers.wf(),
        ensures
            r is Ok <==> crate::commit::spec_plane_table_complete(prop_table.deep_view()),
            r matches Ok(c) ==> {
                &&& c.wf()
                &&& c.plane == plane
                &&& c.size == size
                &&& c.buffers == buffers
                &&& spec_plane_props_of(prop_table.deep_view(), c.plane_props)
            },
            r matches Err(e) ==> e == CompositorError::PropsToHashMap,
    {
        let plane_props = match resolve_plane_props(prop_table) {
            Ok(p) => p,
            Err(e) => return Err(e),
        };
        Ok(DrmCtx { plane, plane_props, size, buffers })
    }

    /// Append this plane's full modeset property set to the request.
    pub fn init_req(&self, req: &mut AtomicRequest, crtc: u32)
        requires
            self.wf(),
        ensures
            final(req).props@ == old(req).props@ + spec_setup_writes(*self, crtc),
    {
        let fb0 = self.slot_fb(0);
        req.add_property(self.plane, self.plane_props.fb_id, PropValue::Framebuffer(Some(fb0)));
        req.add_property(self.plane, self.plane_props.crtc_id, PropValue::Crtc(Some(crtc)));
        self.rect_req(req);
        proof {
            assert(final(req).props@ =~= old(req).props@ + spec_setup_writes(*self, crtc));
        }
    }

    /// Append the rectangle writes to the request.
    pub fn rect_req(&self, req: &mut AtomicRequest)
        ensures
            final(req).props@ == old(req).props@ + spec_rect_writes(*self),
    {
        let w = self.size.0;
        let h = self.size.1;
        req.add_property(self.plane, self.plane_props.src_x, PropValue::UnsignedRange(0));
        req.add_property(self.plane, self.plane_props.src_y, PropValue::UnsignedRange(0));
        req.add_property(
            self.plane,
            self.plane_props.src_w,
            PropValue::UnsignedRange((w as u64) << 16u64),
        );
        req.add_property(
            self.plane,
            self.plane_props.src_h,
            PropValue::UnsignedRange((h as u64) << 16u64),
        );
        req.add_property(self.plane, self.plane_props.crtc_x, PropValue::SignedRange(0));
        req.add_property(self.plane, self.plane_props.crtc_y, PropValue::SignedRange(0));
        req.add_property(self.plane, self.plane_props.crtc_w, PropValue::UnsignedRange(w as u64));
        req.add_property(self.plane, self.plane_props.crtc_h, PropValue::UnsignedRange(h as u64));
        proof {
            assert(final(req).props@ =~= old(req).props@ + spec_rect_writes(*self));
        }
    }

    /// Append this plane's flip writes to the request.
    pub fn flip_req(&self, req: &mut AtomicRequest, rect_changed: bool)
        requires
            self.wf(),
        ensures
            final(req).props@ == old(req).props@ + spec_flip_writes(*self, rect_changed),
    {
        let fb = self.buffers.draw_fb();
        req.add_property(self.plane, self.plane_props.fb_id, PropValue::Framebuffer(Some(fb)));
        if rect_changed {
            self.rect_req(req);
        }
        proof {
            assert(final(req).props@ =~= old(req).props@ + spec_flip_writes(*self, rect_changed));
        }
    }

    /// The framebuffer handle of slot `i`.
    pub fn slot_fb(&self, i: usize) -> (r: FbHandle)
        requires
            self.wf(),
            i < 3,
        ensures
            r == self.buffers.fb_seq()[i as int],
    {
        self.buffers.slots[i].fb
    }
}

/// One scanout destination: connector, CRTC, resolved property ids,
/// negotiated mode, and the role-tagged planes.
#[derive(Debug)]
pub struct Display {
    /// Stable identity `card<device>-<interface>-<interface_id>`.
    pub name: String,
    pub size: (u32, u32),
    /// Position in the shared virtual desktop; applied by the external
    /// layout collaborator, not computed here.
    pub pos: (i32, i32),
    pub connector: u32,
    pub crtc: u32,
    pub connector_props: ConnectorProps,
    pub crtc_props: CrtcProps,
    pub mode: ModeInfo,
    pub primary: DrmCtx,
    /// Absent when no cursor plane could be claimed; that is not an
    /// error, the output simply has no cursor layer.
    pub cursor: Option<DrmCtx>,
    pub overlays: Vec<DrmCtx>,
    pub state: LifecycleState,
}

/// The configured position of the output named `name`: the value of
/// its offset key, parsed as two coordinates.
pub open spec fn spec_position_for(
    cfg: Seq<(Seq<char>, Seq<char>)>,
    name: Seq<char>,
) -> Option<(u32, u32)> {
    match crate::config::spec_cfg_lookup(cfg, name + ".offset"@) {
        None => None,
        Some(v) => crate::util::spec_parse_position(v),
    }
}

/// Apply the configured positions: every output whose offset key is
/// bound to a parsable position moves there; the rest stay put.
#[verifier::loop_isolation(false)]
pub fn apply_positions(outputs: &mut Vec<Display>, config: &crate::config::Config)
    ensures
        final(outputs)@.len() == old(outputs)@.len(),
        forall|k: int|
            0 <= k < old(outputs)@.len() ==> {
                let d = #[trigger] old(outputs)@[k];
                match spec_position_for(config@, d.name@) {
                    Some(p) => final(outputs)@[k] == (Display {
                        pos: (p.0 as i32, p.1 as i32),
                        ..d
                    }),
                    None => final(outputs)@[k] == d,
                }
            },
{
    let ghost orig = outputs@;
    let mut k: usize = 0;
    while k < outputs.len()
        invariant
            outputs@.len() == orig.len(),
            k <= orig.len(),
            forall|i: int|
                0 <= i < k ==> {
                    let d = #[trigger] orig[i];
                    match spec_position_for(config@, d.name@) {
                        Some(p) => outputs@[i] == (Display { pos: (p.0 as i32, p.1 as i32), ..d }),
                        None => outputs@[i] == d,
                    }
                },
            forall|i: int| k <= i < orig.len() ==> outputs@[i] == orig[i],
        decreases orig.len() - k,
    {
        let key = crate::config::CompositorConfig::offset_key(outputs[k].name.as_str());
        let parsed = match config.get(&key) {
            Some(raw) => match crate::util::DisplayPosition::from_str(raw.as_str()) {
                Ok(p) => Some(p),
                Err(_) => None,
            },
            None => None,
        };
        match parsed {
            Some(p) => {
                let ghost before = outputs@;
                let mut d = outputs.remove(k);
                d.pos = (p.x as i32, p.y as i32);
                outputs.insert(k, d);
                proof {
                    assert(outputs@ =~= before.update(
                        k as int,
                        (Display { pos: (p.x as i32, p.y as i32), ..orig[k as int] }),
                    ));
                }
            },
            None => (),
        }
        k += 1;
    }
}

impl PartialEq for Display {
    /// Two outputs are the same output exactly when their identity
    /// keys match.
    fn eq(&self, other: &Display) -> (r: bool) {
        self.name.eq(&other.name)
    }
}

impl vstd::std_specs::cmp::PartialEqSpecImpl for Display {
    open spec fn obeys_eq_spec() -> bool {
        true
    }

    open spec fn eq_spec(&self, other: &Display) -> bool {
        self.name@ == other.name@
    }
}

/// The concatenated modeset property sets of a row of planes.
pub open spec fn spec_setup_all(ctxs: Seq<DrmCtx>, crtc: u32) -> Seq<PropWrite>
    decreases ctxs.len(),
{
    if ctxs.len() == 0 {
        Seq::empty()
    } else {
        spec_setup_all(ctxs.drop_last(), crtc) + spec_setup_writes(ctxs.last(), crtc)
    }
}

/// The connector and CRTC writes of a modeset: route the connector to
/// the CRTC, install the mode blob, set the CRTC active.
pub open spec fn spec_modeset_head(d: Display, blob: u64) -> Seq<PropWrite> {
    seq![
        (d.connector, d.connector_props.crtc_id, PropValue::Crtc(Some(d.crtc))),
        (d.crtc, d.crtc_props.mode_id, PropValue::Blob(blob)),
        (d.crtc, d.crtc_props.active, PropValue::Boolean(true)),
    ]
}

/// Every plane of the output, primary first, then the cursor when
/// present, then the overlays.
pub open spec fn spec_planes(d: Display) -> Seq<DrmCtx> {
    seq![d.primary] + (match d.cursor {
        Some(c) => seq![c],
        None => Seq::empty(),
    }) + d.overlays@
}

/// The full property set of a modeset commit for this output.
pub open spec fn spec_modeset_writes(d: Display, blob: u64) -> Seq<PropWrite> {
    spec_modeset_head(d, blob) + spec_setup_all(spec_planes(d), d.crtc)
}

/// `spec_setup_all` distributes over concatenation of plane rows.
proof fn lemma_setup_all_add(a: Seq<DrmCtx>, b: Seq<DrmCtx>, crtc: u32)
    ensures
        spec_setup_all(a + b, crtc) == spec_setup_all(a, crtc) + spec_setup_all(b, crtc),
    decreases b.len(),
{
    if b.len() == 0 {
        assert(a + b =~= a);
        assert(spec_setup_all(a, crtc) + spec_setup_all(b, crtc) =~= spec_setup_all(a, crtc));
    } else {
        lemma_setup_all_add(a, b.drop_last(), crtc);
        assert((a + b).drop_last() =~= a + b.drop_last());
        assert((a + b).last() == b.last());
        assert(spec_setup_all(a + b, crtc) =~= spec_setup_all(a, crtc) + spec_setup_all(b, crtc));
    }
}

impl Display {
    /// Structural invariant: every layer's swapchain is well formed.
    pub open spec fn wf(self) -> bool {
        &&& self.primary.wf()
        &&& (self.cursor matches Some(c) ==> c.wf())
        &&& forall|i: int| 0 <= i < self.overlays@.len() ==> (#[trigger] self.overlays@[i]).wf()
    }

    /// Assemble a live output from its discovery plan, the resolved
    /// property tables, and the allocated swapchains.  The cursor
    /// swapchain is given exactly when the plan claimed a cursor plane.
    pub fn new(
        plan: OutputPlan,
        connector_table: &Vec<(String, u32)>,
        crtc_table: &Vec<(String, u32)>,
        primary_table: &Vec<(String, u32)>,
        primary_buffers: TripleBuffer,
        cursor_table: &Vec<(String, u32)>,
        cursor_buffers: Option<TripleBuffer>,
    ) -> (r: Result<Display, CompositorError>)
        requires
            primary_buffers.wf(),
            cursor_buffers matches Some(b) ==> b.wf(),
            plan.cursor_plane is Some <==> cursor_buffers is Some,
        ensures
            r is Ok <==> ({
                &&& crate::commit::spec_lookup(connector_table.deep_view(), "CRTC_ID"@) is Some
                &&& crate::commit::spec_lookup(crtc_table.deep_view(), "MODE_ID"@) is Some
                &&& crate::commit::spec_lookup(crtc_table.deep_view(), "ACTIVE"@) is Some
                &&& crate::commit::spec_plane_table_complete(primary_table.deep_view())
                &&& (plan.cursor_plane is Some ==> crate::commit::spec_plane_table_complete(
                    cursor_table.deep_view(),
                ))
            }),
            r matches Ok(d) ==> {
                &&& d.wf()
                &&& d.name == plan.name
                &&& d.size == (plan.mode.width, plan.mode.height)
                &&& d.pos == (0i32, 0i32)
                &&& d.connector == plan.connector
                &&& d.crtc == plan.crtc
                &&& d.mode == plan.mode
                &&& d.primary.plane == plan.primary_plane
                &&& d.primary.size == (plan.mode.width, plan.mode.height)
                &&& d.primary.buffers == primary_buffers
                &&& spec_plane_props_of(primary_table.deep_view(), d.primary.plane_props)
                &&& d.cursor is Some <==> plan.cursor_plane is Some
                &&& (d.cursor matches Some(c) ==> {
                    &&& c.plane == plan.cursor_plane->0
                    &&& c.size == (CURSOR_DIM, CURSOR_DIM)
                    &&& c.buffers == cursor_buffers->0
                    &&& spec_plane_props_of(cursor_table.deep_view(), c.plane_props)
                })
                &&& d.overlays@.len() == 0
                &&& d.state == LifecycleState::Acquired
                &&& crate::commit::spec_lookup(connector_table.deep_view(), "CRTC_ID"@)
                    == Some(d.connector_props.crtc_id)
                &&& crate::commit::spec_lookup(crtc_table.deep_view(), "MODE_ID"@)
                    == Some(d.crtc_props.mode_id)
                &&& crate::commit::spec_lookup(crtc_table.deep_view(), "ACTIVE"@)
                    == Some(d.crtc_props.active)
            },
            r matches Err(e) ==> e == CompositorError::PropsToHashMap,
    {
        let connector_props = match resolve_connector_props(connector_table) {
            Ok(p) => p,
            Err(e) => return Err(e),
        };
        let crtc_props = match resolve_crtc_props(crtc_table) {
            Ok(p) => p,
            Err(e) => return Err(e),
        };
        let size = (plan.mode.width, plan.mode.height);
        let primary = match DrmCtx::new(plan.primary_plane, primary_table, size, primary_buffers) {
            Ok(c) => c,
            Err(e) => return Err(e),
        };
        let cursor = match (plan.cursor_plane, cursor_buffers) {
            (Some(plane), Some(buffers)) => {
                match DrmCtx::new(plane, cursor_table, (CURSOR_DIM, CURSOR_DIM), buffers) {
                    Ok(c) => Some(c),
                    Err(e) => return Err(e),
                }
            }
            _ => None,
        };
        Ok(Display {
            name: plan.name,
            size,
            pos: (0, 0),
            connector: plan.connector,
            crtc: plan.crtc,
            connector_props,
            crtc_props,
            mode: plan.mode,
            primary,
            cursor,
            overlays: Vec::new(),
            state: LifecycleState::Acquired,
        })
    }

    /// Append the connector and CRTC writes of a modeset; `blob` is the
    /// property blob the device created for the mode.
    pub fn init_req(&self, blob: u64, req: &mut AtomicRequest)
        ensures
            final(req).props@ == old(req).props@ + spec_modeset_head(*self, blob),
    {
        req.add_property(self.connector, self.connector_props.crtc_id, PropValue::Crtc(Some(self.crtc)));
        req.add_property(self.crtc, self.crtc_props.mode_id, PropValue::Blob(blob));
        req.add_property(self.crtc, self.crtc_props.active, PropValue::Boolean(true));
        proof {
            assert(final(req).props@ =~= old(req).props@ + spec_modeset_head(*self, blob));
        }
    }

    /// Build the whole modeset request for this output: connector and
    /// CRTC writes, then the full property set of every plane.
    pub fn build_modeset_request(&self, blob: u64) -> (r: AtomicRequest)
        requires
            self.wf(),
        ensures
            r.props@ == spec_modeset_writes(*self, blob),
    {
        let mut req = AtomicRequest::new();
        self.init_req(blob, &mut req);
        self.primary.init_req(&mut req, self.crtc);
        match &self.cursor {
            Some(c) => c.init_req(&mut req, self.crtc),
            None => (),
        }
        let ghost before_overlays = req.props@;
        let mut i: usize = 0;
        while i < self.overlays.len()
            invariant
                i <= self.overlays@.len(),
                self.wf(),
                req.props@ == before_overlays + spec_setup_all(self.overlays@.subrange(0, i as int), self.crtc),
            decreases self.overlays@.len() - i,
        {
            let ghost prefix = self.overlays@.subrange(0, i as int);
            self.overlays[i].init_req(&mut req, self.crtc);
            proof {
                let ext = self.overlays@.subrange(0, i as int + 1);
                assert(ext.drop_last() =~= prefix);
                assert(ext.last() == self.overlays@[i as int]);
                assert(req.props@ =~= before_overlays + spec_setup_all(ext, self.crtc));
            }
            i += 1;
        }
        proof {
            assert(self.overlays@.subrange(0, self.overlays@.len() as int) =~= self.overlays@);
            let cs = match &self.cursor {
                Some(c) => seq![*c],
                None => Seq::<DrmCtx>::empty(),
            };
            lemma_setup_all_add(seq![self.primary] + cs, self.overlays@, self.crtc);
            lemma_setup_all_add(seq![self.primary], cs, self.crtc);
            assert(spec_setup_all(Seq::<DrmCtx>::empty(), self.crtc) == Seq::<PropWrite>::empty());
            assert(seq![self.primary].drop_last() =~= Seq::<DrmCtx>::empty());
            assert(seq![self.primary].last() == self.primary);
            assert(spec_setup_all(seq![self.primary], self.crtc) =~= spec_setup_writes(
                self.primary,
                self.crtc,
            ));
            if self.cursor is Some {
                assert(cs.drop_last() =~= Seq::<DrmCtx>::empty());
                assert(spec_setup_all(cs, self.crtc) =~= spec_setup_writes(
                    self.cursor->0,
                    self.crtc,
                ));
            }
            assert(req.props@ =~= spec_modeset_writes(*self, blob));
        }
        req
    }
}

} // verus!
