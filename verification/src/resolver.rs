//! Output resolver: pairs connected connectors with CRTCs, claims a
//! primary and (when available) a cursor plane for each pairing from a
//! shared pool, and derives each output's stable identity.
//!
//! The resolver works on plain snapshots of the device's resources;
//! the application gathers them from the kernel and performs the
//! allocations the returned plans call for.
use vstd::prelude::*;
use crate::error::CompositorError;
use crate::ident::spec_identity;
use crate::ident::output_identity;

verus! {

/// Role a plane plays in a CRTC's composition.
#[derive(Clone, Copy, Debug, PartialEq, Eq, Structural)]
pub enum PlaneKind {
    Overlay,
    Primary,
    Cursor,
}

/// A display mode's resolution; the full timing data stays with the
/// application, keyed by connector.
#[derive(Clone, Copy, Debug, PartialEq, Eq, Structural)]
pub struct ModeInfo {
    pub width: u32,
    pub height: u32,
}

/// What the resolver reads of one plane: its handle, the bitmask of
/// CRTCs it can serve (bit `i` stands for the CRTC at index `i` of the
/// device's CRTC list), and its property-declared role.
#[derive(Clone, Copy, Debug, PartialEq, Eq, Structural)]
pub struct PlaneSnapshot {
    pub handle: u32,
    pub possible_crtcs: u32,
    pub kind: PlaneKind,
}

/// Bit `crtc_idx` of a plane's possible-CRTC mask.
pub open spec fn spec_covers(mask: u32, crtc_idx: nat) -> bool {
    crtc_idx < 32 && (mask >> (crtc_idx as u32)) & 1 == 1
}

/// A plane may be claimed for a pairing when it can serve the CRTC and
/// its declared role is the requested one.
pub open spec fn spec_claimable(p: PlaneSnapshot, crtc_idx: nat, kind: PlaneKind) -> bool {
    spec_covers(p.possible_crtcs, crtc_idx) && p.kind == kind
}

/// Whether the plane's possible-CRTC mask covers the CRTC at `crtc_idx`.
pub fn is_plane_compatible_with_crtc(p: &PlaneSnapshot, crtc_idx: usize) -> (r: bool)
    ensures
        r == spec_covers(p.possible_crtcs, crtc_idx as nat),
{
    crtc_idx < 32 && (p.possible_crtcs >> (crtc_idx as u32)) & 1 == 1
}

/// Index of the first claimable plane in the pool, if any.
pub open spec fn spec_find_plane(pool: Seq<PlaneSnapshot>, crtc_idx: nat, kind: PlaneKind) -> Option<int>
    decreases pool.len(),
{
    if pool.len() == 0 {
        None
    } else if spec_claimable(pool[0], crtc_idx, kind) {
        Some(0int)
    } else {
        match spec_find_plane(pool.drop_first(), crtc_idx, kind) {
            None => None,
            Some(i) => Some(i + 1),
        }
    }
}

/// `spec_find_plane` returns the least index of a claimable plane.
pub proof fn lemma_find_plane_characterization(pool: Seq<PlaneSnapshot>, crtc_idx: nat, kind: PlaneKind)
    ensures
        match spec_find_plane(pool, crtc_idx, kind) {
            Some(i) => {
                &&& 0 <= i < pool.len()
                &&& spec_claimable(pool[i], crtc_idx, kind)
                &&& forall|j: int| 0 <= j < i ==> !spec_claimable(#[trigger] pool[j], crtc_idx, kind)
            },
            None => forall|j: int| 0 <= j < pool.len() ==> !spec_claimable(#[trigger] pool[j], crtc_idx, kind),
        },
    decreases pool.len(),
{
    if pool.len() > 0 && !spec_claimable(pool[0], crtc_idx, kind) {
        lemma_find_plane_characterization(pool.drop_first(), crtc_idx, kind);
        assert(forall|j: int| 1 <= j < pool.len() ==> #[trigger] pool[j] == pool.drop_first()[j - 1]);
    }
}

/// Find the first plane of the pool that can serve the CRTC and has
/// the requested role.
pub fn find_compatible_plane(pool: &Vec<PlaneSnapshot>, crtc_idx: usize, kind: PlaneKind) -> (r: Option<usize>)
    ensures
        match r {
            Some(i) => spec_find_plane(pool@, crtc_idx as nat, kind) == Some(i as int),
            None => spec_find_plane(pool@, crtc_idx as nat, kind) is None,
        },
{
    proof {
        lemma_find_plane_characterization(pool@, crtc_idx as nat, kind);
    }
    let mut j: usize = 0;
    while j < pool.len()
        invariant
            j <= pool@.len(),
            forall|i: int| 0 <= i < j ==> !spec_claimable(#[trigger] pool@[i], crtc_idx as nat, kind),
        decreases pool@.len() - j,
    {
        let p = &pool[j];
        if is_plane_compatible_with_crtc(p, crtc_idx) && p.kind == kind {
            proof {
                lemma_find_plane_characterization(pool@, crtc_idx as nat, kind);
                let found = spec_find_plane(pool@, crtc_idx as nat, kind);
                assert(spec_claimable(pool@[j as int], crtc_idx as nat, kind));
                if found is Some {
                    let i0 = found->0;
                    if i0 < j {
                        assert(!spec_claimable(pool@[i0], crtc_idx as nat, kind));
                    }
                    if i0 > j {
                        assert(!spec_claimable(pool@[j as int], crtc_idx as nat, kind));
                    }
                }
            }
            return Some(j);
        }
        j += 1;
    }
    None
}

/// Claim the first matching plane: remove it from the pool and hand it
/// back.  A plane claimed here can no longer be claimed for another
/// output of the same discovery pass.
pub fn claim_plane(pool: &mut Vec<PlaneSnapshot>, crtc_idx: usize, kind: PlaneKind) -> (r: Option<PlaneSnapshot>)
    ensures
        r is Some <==> spec_find_plane(old(pool)@, crtc_idx as nat, kind) is Some,
        r matches Some(p) ==> {
            let i = spec_find_plane(old(pool)@, crtc_idx as nat, kind)->0;
            &&& 0 <= i < old(pool)@.len()
            &&& p == old(pool)@[i]
            &&& spec_claimable(p, crtc_idx as nat, kind)
            &&& final(pool)@ == old(pool)@.remove(i)
        },
        r is None ==> final(pool)@ == old(pool)@,
{
    proof {
        lemma_find_plane_characterization(pool@, crtc_idx as nat, kind);
    }
    match find_compatible_plane(pool, crtc_idx, kind) {
        Some(i) => Some(pool.remove(i)),
        None => None,
    }
}

/// What the resolver reads of one connector.
#[derive(Debug)]
pub struct ConnectorSnapshot {
    pub handle: u32,
    /// Interface name, e.g. `HDMI-A`.
    pub interface: String,
    pub interface_id: u32,
    /// Whether the connector reports the connected state.
    pub connected: bool,
    /// The connector's mode list; the first entry is the preferred mode.
    pub modes: Vec<ModeInfo>,
}

/// Mathematical image of a connector snapshot.
pub ghost struct ConnectorView {
    pub handle: u32,
    pub interface: Seq<char>,
    pub interface_id: u32,
    pub connected: bool,
    pub modes: Seq<ModeInfo>,
}

impl View for ConnectorSnapshot {
    type V = ConnectorView;

    open spec fn view(&self) -> ConnectorView {
        ConnectorView {
            handle: self.handle,
            interface: self.interface@,
            interface_id: self.interface_id,
            connected: self.connected,
            modes: self.modes@,
        }
    }
}

/// One newly discoverable output: the resources it will use and the
/// planes claimed for it.  The application allocates swapchains for
/// the primary (and, when claimed, the cursor) plane and then builds
/// the live output from this plan.
#[derive(Debug)]
pub struct OutputPlan {
    /// Stable identity `card<device>-<interface>-<interface_id>`.
    pub name: String,
    pub connector: u32,
    pub crtc: u32,
    /// Position of the CRTC in the device's CRTC list.
    pub crtc_idx: usize,
    /// The negotiated mode: the first of the connector's mode list.
    pub mode: ModeInfo,
    /// The claimed primary plane.
    pub primary_plane: u32,
    /// The claimed cursor plane; absence of a claimable cursor plane is
    /// not an error, the output simply has no cursor layer.
    pub cursor_plane: Option<u32>,
}

/// Mathematical image of an output plan.
pub ghost struct OutputPlanView {
    pub name: Seq<char>,
    pub connector: u32,
    pub crtc: u32,
    pub crtc_idx: nat,
    pub mode: ModeInfo,
    pub primary_plane: u32,
    pub cursor_plane: Option<u32>,
}

impl View for OutputPlan {
    type V = OutputPlanView;

    open spec fn view(&self) -> OutputPlanView {
        OutputPlanView {
            name: self.name@,
            connector: self.connector,
            crtc: self.crtc,
            crtc_idx: self.crtc_idx as nat,
            mode: self.mode,
            primary_plane: self.primary_plane,
            cursor_plane: self.cursor_plane,
        }
    }
}

/// A connector qualifies for discovery when it is connected and offers
/// at least one mode.
pub open spec fn spec_qualified(c: ConnectorView) -> bool {
    c.connected && c.modes.len() > 0
}

/// The qualified connectors of the device, in enumeration order.
pub open spec fn qualified_views(cs: Seq<ConnectorSnapshot>) -> Seq<ConnectorView> {
    cs.map_values(|c: ConnectorSnapshot| c@).filter(|cv: ConnectorView| spec_qualified(cv))
}

/// Whether `name` is one of the identities in the ignore set.
pub open spec fn spec_ignored(ignore: Seq<Seq<char>>, name: Seq<char>) -> bool {
    exists|j: int| 0 <= j < ignore.len() && ignore[j] == name
}

/// The plan built for one surviving pairing.
pub open spec fn spec_plan(
    device: u32,
    c: ConnectorView,
    crtc: u32,
    crtc_idx: nat,
    primary: u32,
    cursor: Option<u32>,
) -> OutputPlanView {
    OutputPlanView {
        name: spec_identity(device, c.interface, c.interface_id),
        connector: c.handle,
        crtc: crtc,
        crtc_idx: crtc_idx,
        mode: c.modes[0],
        primary_plane: primary,
        cursor_plane: cursor,
    }
}

/// The whole discovery, as a function: walk the positional pairings of
/// qualified connectors and CRTCs from pairing `i` on, skipping
/// identities in the ignore set, claiming a primary plane (an error
/// for that pairing if none is claimable) and then a cursor plane
/// (optional) from the evolving pool.  Yields the per-pairing results
/// and the pool that is left.
pub open spec fn spec_discover(
    device: u32,
    qs: Seq<ConnectorView>,
    crtcs: Seq<u32>,
    pool: Seq<PlaneSnapshot>,
    ignore: Seq<Seq<char>>,
    i: nat,
) -> (Seq<Result<OutputPlanView, CompositorError>>, Seq<PlaneSnapshot>)
    decreases vstd::math::min(qs.len() as int, crtcs.len() as int) - i,
{
    if i >= vstd::math::min(qs.len() as int, crtcs.len() as int) {
        (Seq::empty(), pool)
    } else {
        let c = qs[i as int];
        let name = spec_identity(device, c.interface, c.interface_id);
        if spec_ignored(ignore, name) {
            spec_discover(device, qs, crtcs, pool, ignore, i + 1)
        } else {
            let found = spec_find_plane(pool, i, PlaneKind::Primary);
            if found is None {
                let rest = spec_discover(device, qs, crtcs, pool, ignore, i + 1);
                (
                    seq![Err(CompositorError::NoCompatiblePrimaryPlane(crtcs[i as int]))] + rest.0,
                    rest.1,
                )
            } else {
                let primary = pool[found->0];
                let pool1 = pool.remove(found->0);
                let found_cursor = spec_find_plane(pool1, i, PlaneKind::Cursor);
                let cursor = if found_cursor is Some {
                    Some(pool1[found_cursor->0].handle)
                } else {
                    None
                };
                let pool2 = if found_cursor is Some {
                    pool1.remove(found_cursor->0)
                } else {
                    pool1
                };
                let plan = spec_plan(device, c, crtcs[i as int], i, primary.handle, cursor);
                let rest = spec_discover(device, qs, crtcs, pool2, ignore, i + 1);
                (seq![Ok(plan)] + rest.0, rest.1)
            }
        }
    }
}

/// The per-pairing results of a plan list, seen mathematically.
pub open spec fn plan_results_view(
    s: Seq<Result<OutputPlan, CompositorError>>,
) -> Seq<Result<OutputPlanView, CompositorError>> {
    s.map_values(
        |r: Result<OutputPlan, CompositorError>|
            match r {
                Ok(p) => Ok(p@),
                Err(e) => Err(e),
            },
    )
}

/// Discover the newly available outputs of a device.
///
/// Pairs the qualified connectors positionally with the CRTCs, skips
/// pairings whose identity is already in `ignore`, and claims planes
/// from `planes` for the rest.  The one hard failure is a device with
/// no qualified connector; a pairing without a claimable primary plane
/// fails that pairing alone.
#[verifier::loop_isolation(false)]
pub fn init_displays(
    device: u32,
    connectors: &Vec<ConnectorSnapshot>,
    crtcs: &Vec<u32>,
    planes: &mut Vec<PlaneSnapshot>,
    ignore: &Vec<String>,
) -> (r: Result<Vec<Result<OutputPlan, CompositorError>>, CompositorError>)
    ensures
        r is Err <==> qualified_views(connectors@).len() == 0,
        r matches Err(e) ==> e == CompositorError::NoQualifiedConnectors && final(planes)@ == old(planes)@,
        r matches Ok(plans) ==> ({
            let d = spec_discover(
                device,
                qualified_views(connectors@),
                crtcs@,
                old(planes)@,
                ignore.deep_view(),
                0,
            );
            &&& plan_results_view(plans@) == d.0
            &&& final(planes)@ == d.1
        }),
{
    let ghost qv = qualified_views(connectors@);
    let ghost ig = ignore.deep_view();
    let ghost pool0 = planes@;

    // Collect the indices of the qualified connectors, in order.
    let mut qual: Vec<usize> = Vec::new();
    let mut ci: usize = 0;
    while ci < connectors.len()
        invariant
            ci <= connectors@.len(),
            forall|k: int| 0 <= k < qual@.len() ==> (#[trigger] qual@[k]) < ci,
            qual@.map_values(|k: usize| connectors@[k as int]@)
                == qualified_views(connectors@.subrange(0, ci as int)),
        decreases connectors@.len() - ci,
    {
        let c = &connectors[ci];
        let ghost prefix = connectors@.subrange(0, ci as int);
        let ghost prev = qual@.map_values(|k: usize| connectors@[k as int]@);
        if c.connected && c.modes.len() > 0 {
            qual.push(ci);
        }
        proof {
            let ext = connectors@.subrange(0, ci as int + 1);
            assert(ext =~= prefix + seq![connectors@[ci as int]]);
            let f = |cv: ConnectorView| spec_qualified(cv);
            let pm = prefix.map_values(|c: ConnectorSnapshot| c@);
            let xm = seq![connectors@[ci as int]].map_values(|c: ConnectorSnapshot| c@);
            assert(ext.map_values(|c: ConnectorSnapshot| c@) =~= pm + xm);
            Seq::filter_distributes_over_add(pm, xm, f);
            assert(xm =~= seq![connectors@[ci as int]@]);
            reveal_with_fuel(Seq::filter, 2);
            if spec_qualified(connectors@[ci as int]@) {
                assert(xm.filter(f) =~= seq![connectors@[ci as int]@]);
                assert(qual@.map_values(|k: usize| connectors@[k as int]@)
                    =~= prev.push(connectors@[ci as int]@));
            } else {
                assert(xm.filter(f) =~= Seq::<ConnectorView>::empty());
                assert(qualified_views(ext) =~= pm.filter(f));
            }
        }
        ci += 1;
    }
    proof {
        assert(connectors@.subrange(0, connectors@.len() as int) =~= connectors@);
        assert(qual@.map_values(|k: usize| connectors@[k as int]@) == qv);
        assert(qual@.len() == qv.len());
    }

    if qual.len() == 0 {
        return Err(CompositorError::NoQualifiedConnectors);
    }

    // Walk the positional pairings.
    let n = if qual.len() < crtcs.len() { qual.len() } else { crtcs.len() };
    let mut out: Vec<Result<OutputPlan, CompositorError>> = Vec::new();
    let mut i: usize = 0;
    while i < n
        invariant
            i <= n,
            n == vstd::math::min(qv.len() as int, crtcs@.len() as int),
            spec_discover(device, qv, crtcs@, pool0, ig, 0).0
                == plan_results_view(out@) + spec_discover(device, qv, crtcs@, planes@, ig, i as nat).0,
            spec_discover(device, qv, crtcs@, pool0, ig, 0).1
                == spec_discover(device, qv, crtcs@, planes@, ig, i as nat).1,
        decreases n - i,
    {
        let ghost dcur = spec_discover(device, qv, crtcs@, planes@, ig, i as nat);
        let ghost prev_out = out@;
        let cidx = qual[i];
        let c = &connectors[cidx];
        proof {
            assert(c@ == qv[i as int]);
            assert(spec_qualified(qv[i as int]));
        }
        let name = output_identity(device, c.interface.as_str(), c.interface_id);
        if contains_name(ignore, &name) {
            // Already live: leave the pairing (and its CRTC) alone.
        } else {
            match claim_plane(planes, i, PlaneKind::Primary) {
                None => {
                    out.push(Err(CompositorError::NoCompatiblePrimaryPlane(crtcs[i])));
                }
                Some(primary) => {
                    let cursor = claim_plane(planes, i, PlaneKind::Cursor);
                    let cursor_plane = match &cursor {
                        Some(p) => Some(p.handle),
                        None => None,
                    };
                    let plan = OutputPlan {
                        name,
                        connector: c.handle,
                        crtc: crtcs[i],
                        crtc_idx: i,
                        mode: c.modes[0],
                        primary_plane: primary.handle,
                        cursor_plane,
                    };
                    out.push(Ok(plan));
                }
            }
        }
        proof {
            let dnext = spec_discover(device, qv, crtcs@, planes@, ig, (i + 1) as nat);
            assert(plan_results_view(out@) =~= plan_results_view(prev_out) + plan_results_view(
                out@.subrange(prev_out.len() as int, out@.len() as int),
            ));
            assert(dcur.0 =~= plan_results_view(
                out@.subrange(prev_out.len() as int, out@.len() as int),
            ) + dnext.0);
            assert(plan_results_view(out@) + dnext.0 =~= plan_results_view(prev_out) + dcur.0);
        }
        i += 1;
    }
    proof {
        let dend = spec_discover(device, qv, crtcs@, planes@, ig, i as nat);
        assert(dend.0 =~= Seq::empty());
        assert(plan_results_view(out@) + dend.0 =~= plan_results_view(out@));
    }
    Ok(out)
}

/// The plane handles one per-pairing result claims.
pub open spec fn plan_claims(r: Result<OutputPlanView, CompositorError>) -> Set<u32> {
    match r {
        Ok(p) => match p.cursor_plane {
            Some(cu) => set![p.primary_plane, cu],
            None => set![p.primary_plane],
        },
        Err(_) => Set::empty(),
    }
}

/// The handles present in a plane pool.
pub open spec fn pool_handles(pool: Seq<PlaneSnapshot>) -> Set<u32> {
    Set::new(|h: u32| exists|i: int| 0 <= i < pool.len() && pool[i].handle == h)
}

/// No two planes of the pool share a handle (kernel handles are unique
/// per device).
pub open spec fn distinct_handles(pool: Seq<PlaneSnapshot>) -> bool {
    forall|i: int, j: int| 0 <= i < j < pool.len() ==> pool[i].handle != pool[j].handle
}

/// Removing the plane at `i` removes exactly its handle from the pool.
proof fn lemma_remove_pool(pool: Seq<PlaneSnapshot>, i: int)
    requires
        0 <= i < pool.len(),
        distinct_handles(pool),
    ensures
        distinct_handles(pool.remove(i)),
        pool_handles(pool.remove(i)) =~= pool_handles(pool).remove(pool[i].handle),
{
    pool.remove_ensures(i);
    let rem = pool.remove(i);
    assert forall|k1: int, k2: int| 0 <= k1 < k2 < rem.len() implies rem[k1].handle != rem[k2].handle by {
        if k1 < i {
            assert(rem[k1] == pool[k1]);
        } else {
            assert(rem[k1] == pool[k1 + 1]);
        }
        if k2 < i {
            assert(rem[k2] == pool[k2]);
        } else {
            assert(rem[k2] == pool[k2 + 1]);
        }
    }
    assert forall|h: u32| pool_handles(rem).contains(h) implies pool_handles(pool).remove(
        pool[i].handle,
    ).contains(h) by {
        let k = choose|k: int| 0 <= k < rem.len() && rem[k].handle == h;
        if k < i {
            assert(pool[k].handle == h);
        } else {
            assert(pool[k + 1].handle == h);
        }
    }
    assert forall|h: u32| pool_handles(pool).remove(pool[i].handle).contains(h) implies pool_handles(
        rem,
    ).contains(h) by {
        let k = choose|k: int| 0 <= k < pool.len() && pool[k].handle == h;
        if k < i {
            assert(rem[k].handle == h);
        } else {
            assert(rem[k - 1].handle == h);
        }
    }
}

/// Law: the outputs discovered in one pass claim pairwise disjoint
/// sets of plane handles, every claimed handle comes from the pool the
/// pass started with, and the pool that is left holds none of them.
pub proof fn lemma_discover_claims_disjoint(
    device: u32,
    qs: Seq<ConnectorView>,
    crtcs: Seq<u32>,
    pool: Seq<PlaneSnapshot>,
    ignore: Seq<Seq<char>>,
    i: nat,
)
    requires
        distinct_handles(pool),
    ensures
        ({
            let d = spec_discover(device, qs, crtcs, pool, ignore, i);
            &&& distinct_handles(d.1)
            &&& pool_handles(d.1).subset_of(pool_handles(pool))
            &&& forall|k: int|
                0 <= k < d.0.len() ==> (#[trigger] plan_claims(d.0[k])).subset_of(
                    pool_handles(pool),
                )
            &&& forall|k: int|
                0 <= k < d.0.len() ==> (#[trigger] plan_claims(d.0[k])).disjoint(pool_handles(d.1))
            &&& forall|k1: int, k2: int|
                0 <= k1 < k2 < d.0.len() ==> (#[trigger] plan_claims(d.0[k1])).disjoint(
                    #[trigger] plan_claims(d.0[k2]),
                )
            &&& forall|k: int|
                0 <= k < d.0.len() ==> ((#[trigger] d.0[k]) is Ok
                    && d.0[k]->Ok_0.cursor_plane is Some
                    ==> d.0[k]->Ok_0.cursor_plane->0 != d.0[k]->Ok_0.primary_plane)
        }),
    decreases vstd::math::min(qs.len() as int, crtcs.len() as int) - i,
{
    let d = spec_discover(device, qs, crtcs, pool, ignore, i);
    let n = vstd::math::min(qs.len() as int, crtcs.len() as int);
    if i < n {
        let c = qs[i as int];
        let name = spec_identity(device, c.interface, c.interface_id);
        if spec_ignored(ignore, name) {
            lemma_discover_claims_disjoint(device, qs, crtcs, pool, ignore, i + 1);
        } else {
            let found = spec_find_plane(pool, i, PlaneKind::Primary);
            if found is None {
                lemma_discover_claims_disjoint(device, qs, crtcs, pool, ignore, i + 1);
                let rest = spec_discover(device, qs, crtcs, pool, ignore, (i + 1) as nat);
                assert(d.0 == seq![
                    Err::<OutputPlanView, CompositorError>(
                        CompositorError::NoCompatiblePrimaryPlane(crtcs[i as int]),
                    ),
                ] + rest.0);
                assert(plan_claims(d.0[0]) =~= Set::empty());
                assert(forall|k: int| 1 <= k < d.0.len() ==> d.0[k] == rest.0[k - 1]);
            } else {
                lemma_find_plane_characterization(pool, i, PlaneKind::Primary);
                let pi = found->0;
                let primary = pool[pi].handle;
                lemma_remove_pool(pool, pi);
                let pool1 = pool.remove(pi);
                let fc = spec_find_plane(pool1, i, PlaneKind::Cursor);
                let pool2 = if fc is Some {
                    pool1.remove(fc->0)
                } else {
                    pool1
                };
                if fc is Some {
                    lemma_find_plane_characterization(pool1, i, PlaneKind::Cursor);
                    lemma_remove_pool(pool1, fc->0);
                }
                lemma_discover_claims_disjoint(device, qs, crtcs, pool2, ignore, i + 1);
                let rest = spec_discover(device, qs, crtcs, pool2, ignore, (i + 1) as nat);
                let head = plan_claims(d.0[0]);
                assert(forall|k: int| 1 <= k < d.0.len() ==> d.0[k] == rest.0[k - 1]);
                assert(pool_handles(pool).contains(primary));
                if fc is Some {
                    assert(pool_handles(pool1).contains(pool1[fc->0].handle));
                }
                assert(head.subset_of(pool_handles(pool)));
                assert(!pool_handles(pool2).contains(primary));
                assert(head.disjoint(pool_handles(pool2)));
                assert(pool_handles(d.1).subset_of(pool_handles(pool2)));
                assert forall|k: int|
                    1 <= k < d.0.len() implies (#[trigger] plan_claims(d.0[k])).disjoint(head) by {
                    assert(plan_claims(rest.0[k - 1]).subset_of(pool_handles(pool2)));
                }
            }
        }
    }
}

/// Law: discovery never reconstructs an output whose identity is in
/// the ignore set: every plan it yields carries a name outside it.
pub proof fn lemma_discover_respects_ignore(
    device: u32,
    qs: Seq<ConnectorView>,
    crtcs: Seq<u32>,
    pool: Seq<PlaneSnapshot>,
    ignore: Seq<Seq<char>>,
    i: nat,
)
    ensures
        forall|k: int|
            0 <= k < spec_discover(device, qs, crtcs, pool, ignore, i).0.len() ==> {
                let p = #[trigger] spec_discover(device, qs, crtcs, pool, ignore, i).0[k];
                p matches Ok(plan) ==> !spec_ignored(ignore, plan.name)
            },
    decreases vstd::math::min(qs.len() as int, crtcs.len() as int) - i,
{
    let n = vstd::math::min(qs.len() as int, crtcs.len() as int);
    if i < n {
        let c = qs[i as int];
        let name = spec_identity(device, c.interface, c.interface_id);
        if spec_ignored(ignore, name) {
            lemma_discover_respects_ignore(device, qs, crtcs, pool, ignore, i + 1);
        } else {
            let found = spec_find_plane(pool, i, PlaneKind::Primary);
            if found is None {
                lemma_discover_respects_ignore(device, qs, crtcs, pool, ignore, i + 1);
            } else {
                let pool1 = pool.remove(found->0);
                let found_cursor = spec_find_plane(pool1, i, PlaneKind::Cursor);
                let pool2 = if found_cursor is Some {
                    pool1.remove(found_cursor->0)
                } else {
                    pool1
                };
                lemma_discover_respects_ignore(device, qs, crtcs, pool2, ignore, i + 1);
            }
        }
    }
}

/// Whether `name` equals one of the strings of `ignore`.
pub fn contains_name(ignore: &Vec<String>, name: &String) -> (r: bool)
    ensures
        r == spec_ignored(ignore.deep_view(), name@),
{
    let mut j: usize = 0;
    while j < ignore.len()
        invariant
            j <= ignore@.len(),
            forall|i: int| 0 <= i < j ==> ignore.deep_view()[i] != name@,
    decreases ignore@.len() - j,
    {
        if name.eq(&ignore[j]) {
            proof {
                assert(ignore.deep_view()[j as int] == name@);
            }
            return true;
        }
        j += 1;
    }
    false
}

} // verus!
