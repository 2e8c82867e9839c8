//! Atomic commit builder: a request accumulates (object, property,
//! value) writes and is consumed by one device commit.  The builder
//! also resolves the property-name dictionaries the device hands back
//! into the fixed property ids the pipeline writes.
use vstd::prelude::*;
use vstd::string::StringExecFns;
use crate::error::CompositorError;

verus! {

/// A value written to a KMS property.
#[derive(Clone, Copy, Debug, PartialEq, Eq)]
pub enum PropValue {
    Framebuffer(Option<u32>),
    Crtc(Option<u32>),
    UnsignedRange(u64),
    SignedRange(i64),
    Boolean(bool),
    Blob(u64),
}

/// One accumulated property write.
pub type PropWrite = (u32, u32, PropValue);

/// Flags of an atomic commit.
#[derive(Clone, Copy, Debug, PartialEq, Eq, Structural)]
pub struct CommitFlags {
    pub allow_modeset: bool,
    pub nonblock: bool,
    pub page_flip_event: bool,
}

/// The flags of a modeset commit: allow-modeset, non-blocking, and
/// request a completion event.
pub fn modeset_flags() -> (r: CommitFlags)
    ensures
        r == (CommitFlags { allow_modeset: true, nonblock: true, page_flip_event: true }),
{
    CommitFlags { allow_modeset: true, nonblock: true, page_flip_event: true }
}

/// The flags of a flip commit: non-blocking and request a completion
/// event only.
pub fn flip_flags() -> (r: CommitFlags)
    ensures
        r == (CommitFlags { allow_modeset: false, nonblock: true, page_flip_event: true }),
{
    CommitFlags { allow_modeset: false, nonblock: true, page_flip_event: true }
}

/// A pending atomic request: a mutable accumulator of property writes,
/// valid until committed; committing consumes it.
#[derive(Debug)]
pub struct AtomicRequest {
    pub props: Vec<PropWrite>,
}

impl AtomicRequest {
    /// A fresh, empty request.
    pub fn new() -> (r: AtomicRequest)
        ensures
            r.props@ == Seq::<PropWrite>::empty(),
    {
        AtomicRequest { props: Vec::new() }
    }

    /// Append one property write.
    pub fn add_property(&mut self, obj: u32, prop: u32, value: PropValue)
        ensures
            final(self).props@ == old(self).props@.push((obj, prop, value)),
    {
        self.props.push((obj, prop, value));
    }
}

/// First value bound to `name` in a resolved property table.
pub open spec fn spec_lookup(t: Seq<(Seq<char>, u32)>, name: Seq<char>) -> Option<u32>
    decreases t.len(),
{
    if t.len() == 0 {
        None
    } else if t[0].0 == name {
        Some(t[0].1)
    } else {
        spec_lookup(t.drop_first(), name)
    }
}

/// Find the property id bound to `name` in a (name, id) table.
pub fn lookup_prop(table: &Vec<(String, u32)>, name: &str) -> (r: Option<u32>)
    ensures
        r == spec_lookup(table.deep_view(), name@),
{
    let needle = String::from_str(name);
    proof {
        assert(table.deep_view().subrange(0, table.deep_view().len() as int) =~= table.deep_view());
    }
    let mut j: usize = 0;
    while j < table.len()
        invariant
            j <= table@.len(),
            needle@ == name@,
            spec_lookup(table.deep_view(), name@) == spec_lookup(
                table.deep_view().subrange(j as int, table.deep_view().len() as int),
                name@,
            ),
        decreases table@.len() - j,
    {
        let ghost tail = table.deep_view().subrange(j as int, table.deep_view().len() as int);
        let entry = &table[j];
        if entry.0.eq(&needle) {
            proof {
                assert(tail[0] == table.deep_view()[j as int]);
            }
            return Some(entry.1);
        }
        proof {
            assert(tail[0] == table.deep_view()[j as int]);
            assert(tail.drop_first() =~= table.deep_view().subrange(
                j as int + 1,
                table.deep_view().len() as int,
            ));
        }
        j += 1;
    }
    proof {
        assert(table.deep_view().subrange(
            table.deep_view().len() as int,
            table.deep_view().len() as int,
        ) =~= Seq::<(Seq<char>, u32)>::empty());
    }
    None
}

/// The property ids a plane is driven through.
#[derive(Clone, Copy, Debug, PartialEq, Eq, Structural)]
pub struct PlaneProps {
    pub fb_id: u32,
    pub crtc_id: u32,
    pub src_x: u32,
    pub src_y: u32,
    pub src_w: u32,
    pub src_h: u32,
    pub crtc_x: u32,
    pub crtc_y: u32,
    pub crtc_w: u32,
    pub crtc_h: u32,
}

/// The property ids a connector is driven through.
#[derive(Clone, Copy, Debug, PartialEq, Eq, Structural)]
pub struct ConnectorProps {
    pub crtc_id: u32,
}

/// The property ids a CRTC is driven through.
#[derive(Clone, Copy, Debug, PartialEq, Eq, Structural)]
pub struct CrtcProps {
    pub mode_id: u32,
    pub active: u32,
}

/// Whether a resolved plane table binds every property the pipeline
/// writes, with the given ids.
pub open spec fn spec_plane_props_of(t: Seq<(Seq<char>, u32)>, p: PlaneProps) -> bool {
    &&& spec_lookup(t, "FB_ID"@) == Some(p.fb_id)
    &&& spec_lookup(t, "CRTC_ID"@) == Some(p.crtc_id)
    &&& spec_lookup(t, "SRC_X"@) == Some(p.src_x)
    &&& spec_lookup(t, "SRC_Y"@) == Some(p.src_y)
    &&& spec_lookup(t, "SRC_W"@) == Some(p.src_w)
    &&& spec_lookup(t, "SRC_H"@) == Some(p.src_h)
    &&& spec_lookup(t, "CRTC_X"@) == Some(p.crtc_x)
    &&& spec_lookup(t, "CRTC_Y"@) == Some(p.crtc_y)
    &&& spec_lookup(t, "CRTC_W"@) == Some(p.crtc_w)
    &&& spec_lookup(t, "CRTC_H"@) == Some(p.crtc_h)
}

/// Whether a resolved plane table binds every property the pipeline
/// writes.
pub open spec fn spec_plane_table_complete(t: Seq<(Seq<char>, u32)>) -> bool {
    &&& spec_lookup(t, "FB_ID"@) is Some
    &&& spec_lookup(t, "CRTC_ID"@) is Some
    &&& spec_lookup(t, "SRC_X"@) is Some
    &&& spec_lookup(t, "SRC_Y"@) is Some
    &&& spec_lookup(t, "SRC_W"@) is Some
    &&& spec_lookup(t, "SRC_H"@) is Some
    &&& spec_lookup(t, "CRTC_X"@) is Some
    &&& spec_lookup(t, "CRTC_Y"@) is Some
    &&& spec_lookup(t, "CRTC_W"@) is Some
    &&& spec_lookup(t, "CRTC_H"@) is Some
}

/// Resolve a plane's property table into the fixed ids the pipeline
/// writes.  A missing name is the property-map lookup failure of the
/// discovery error class.
pub fn resolve_plane_props(table: &Vec<(String, u32)>) -> (r: Result<PlaneProps, CompositorError>)
    ensures
        r is Ok <==> spec_plane_table_complete(table.deep_view()),
        r matches Ok(p) ==> spec_plane_props_of(table.deep_view(), p),
        r matches Err(e) ==> e == CompositorError::PropsToHashMap,
{
    let fb_id = match lookup_prop(table, "FB_ID") {
        Some(v) => v,
        None => return Err(CompositorError::PropsToHashMap),
    };
    let crtc_id = match lookup_prop(table, "CRTC_ID") {
        Some(v) => v,
        None => return Err(CompositorError::PropsToHashMap),
    };
    let src_x = match lookup_prop(table, "SRC_X") {
        Some(v) => v,
        None => return Err(CompositorError::PropsToHashMap),
    };
    let src_y = match lookup_prop(table, "SRC_Y") {
        Some(v) => v,
        None => return Err(CompositorError::PropsToHashMap),
    };
    let src_w = match lookup_prop(table, "SRC_W") {
        Some(v) => v,
        None => return Err(CompositorError::PropsToHashMap),
    };
    let src_h = match lookup_prop(table, "SRC_H") {
        Some(v) => v,
        None => return Err(CompositorError::PropsToHashMap),
    };
    let crtc_x = match lookup_prop(table, "CRTC_X") {
        Some(v) => v,
        None => return Err(CompositorError::PropsToHashMap),
    };
    let crtc_y = match lookup_prop(table, "CRTC_Y") {
        Some(v) => v,
        None => return Err(CompositorError::PropsToHashMap),
    };
    let crtc_w = match lookup_prop(table, "CRTC_W") {
        Some(v) => v,
        None => return Err(CompositorError::PropsToHashMap),
    };
    let crtc_h = match lookup_prop(table, "CRTC_H") {
        Some(v) => v,
        None => return Err(CompositorError::PropsToHashMap),
    };
    Ok(PlaneProps { fb_id, crtc_id, src_x, src_y, src_w, src_h, crtc_x, crtc_y, crtc_w, crtc_h })
}

/// Resolve a connector's property table.
pub fn resolve_connector_props(table: &Vec<(String, u32)>) -> (r: Result<ConnectorProps, CompositorError>)
    ensures
        r matches Ok(p) ==> spec_lookup(table.deep_view(), "CRTC_ID"@) == Some(p.crtc_id),
        r matches Err(e) ==> e == CompositorError::PropsToHashMap && spec_lookup(
            table.deep_view(),
            "CRTC_ID"@,
        ) is None,
{
    match lookup_prop(table, "CRTC_ID") {
        Some(crtc_id) => Ok(ConnectorProps { crtc_id }),
        None => Err(CompositorError::PropsToHashMap),
    }
}

/// Resolve a CRTC's property table.
pub fn resolve_crtc_props(table: &Vec<(String, u32)>) -> (r: Result<CrtcProps, CompositorError>)
    ensures
        r matches Ok(p) ==> spec_lookup(table.deep_view(), "MODE_ID"@) == Some(p.mode_id)
            && spec_lookup(table.deep_view(), "ACTIVE"@) == Some(p.active),
        r matches Err(e) ==> e == CompositorError::PropsToHashMap && (spec_lookup(
            table.deep_view(),
            "MODE_ID"@,
        ) is None || spec_lookup(table.deep_view(), "ACTIVE"@) is None),
{
    let mode_id = match lookup_prop(table, "MODE_ID") {
        Some(v) => v,
        None => return Err(CompositorError::PropsToHashMap),
    };
    let active = match lookup_prop(table, "ACTIVE") {
        Some(v) => v,
        None => return Err(CompositorError::PropsToHashMap),
    };
    Ok(CrtcProps { mode_id, active })
}

} // verus!
