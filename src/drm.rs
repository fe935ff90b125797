//! The display topology as plain values, the choice of an output path through
//! it, and the session that drives the chosen CRTC.

use vstd::prelude::*;
use crate::events::{completes_flip, flip_completion_observed, DeviceEvent};
use crate::naming::{connector_name, connector_name_of};
use crate::search::{
    first_index_where, lemma_first_index_where, lemma_first_index_where_found,
    lemma_first_index_where_none,
};

verus! {

/// The bit of a mode's type flags that marks the mode the display prefers.
pub const PREFERRED_MODE_BIT: u32 = 8;

/// Whether a display is attached to a connector.
#[derive(Clone, Copy, Debug, PartialEq, Eq, Structural)]
pub enum ConnectionState {
    Connected,
    Disconnected,
    Unknown,
}

/// A display mode: resolution, refresh rate and the kernel's type flags.
#[derive(Clone, Copy, Debug, PartialEq, Eq, Structural)]
pub struct ModeDescriptor {
    pub width: u16,
    pub height: u16,
    pub refresh: u32,
    pub mode_type: u32,
}

/// A connector as the kernel reports it. `interface` is the kernel's
/// connector type number; `encoders` holds the handles of the encoders that
/// can drive it, in the kernel's order.
#[derive(Debug)]
pub struct ConnectorDescriptor {
    pub handle: u32,
    pub interface: u32,
    pub interface_id: u32,
    pub state: ConnectionState,
    pub modes: Vec<ModeDescriptor>,
    pub encoders: Vec<u32>,
}

/// An encoder; bit `i` of `possible_crtcs` is set when the CRTC at position
/// `i` of the device's CRTC list can be used with it.
#[derive(Clone, Copy, Debug, PartialEq, Eq, Structural)]
pub struct EncoderDescriptor {
    pub handle: u32,
    pub possible_crtcs: u32,
}

/// A CRTC and the framebuffer it scans out, if any.
#[derive(Clone, Copy, Debug, PartialEq, Eq, Structural)]
pub struct CrtcDescriptor {
    pub handle: u32,
    pub framebuffer: Option<u32>,
}

/// Everything that the choice of an output path reads.
#[derive(Debug)]
pub struct DisplayResources {
    pub connectors: Vec<ConnectorDescriptor>,
    pub encoders: Vec<EncoderDescriptor>,
    pub crtcs: Vec<CrtcDescriptor>,
}

/// Why no output path could be found.
#[derive(Clone, Copy, Debug, PartialEq, Eq, Structural)]
pub enum DiscoveryError {
    /// The requested connector does not exist or has no display attached.
    ConnectorNotFound,
    /// No connector has a display attached.
    NoConnectedConnector,
    /// The chosen connector has no preferred mode.
    NoPreferredMode,
    /// The chosen connector has no usable encoder.
    NoEncoder,
    /// No CRTC can be driven by the chosen encoder.
    NoCrtc,
}

pub open spec fn as_int_option(o: Option<usize>) -> Option<int> {
    match o {
        Some(k) => Some(k as int),
        None => None,
    }
}

pub open spec fn name_view(name: Option<&String>) -> Option<Seq<char>> {
    match name {
        Some(n) => Some(n@),
        None => None,
    }
}

pub open spec fn is_connected(c: ConnectorDescriptor) -> bool {
    c.state == ConnectionState::Connected
}

pub open spec fn connector_name_spec(c: ConnectorDescriptor) -> Seq<char> {
    connector_name_of(c.interface, c.interface_id)
}

/// A connector that may be chosen when `name` is requested (or none is).
pub open spec fn is_candidate(c: ConnectorDescriptor, name: Option<Seq<char>>) -> bool {
    &&& is_connected(c)
    &&& match name {
        Some(n) => connector_name_spec(c) == n,
        None => true,
    }
}

/// The position of the connector that is chosen: the first candidate.
pub open spec fn selected_connector(
    cs: Seq<ConnectorDescriptor>,
    name: Option<Seq<char>>,
) -> Option<int> {
    first_index_where(cs.len(), |i: int| is_candidate(cs[i], name))
}

/// The positions of the connected connectors, in order.
pub open spec fn connected_positions(cs: Seq<ConnectorDescriptor>) -> Seq<int>
    decreases cs.len(),
{
    if cs.len() == 0 {
        seq![]
    } else {
        let rest = connected_positions(cs.drop_last());
        if is_connected(cs.last()) {
            rest.push(cs.len() - 1)
        } else {
            rest
        }
    }
}

pub open spec fn is_preferred(m: ModeDescriptor) -> bool {
    m.mode_type & PREFERRED_MODE_BIT != 0
}

/// The position of the first preferred mode of a connector.
pub open spec fn preferred_mode_position(c: ConnectorDescriptor) -> Option<int> {
    first_index_where(c.modes@.len(), |i: int| is_preferred(c.modes@[i]))
}

/// Relies on drm's `ModeTypeFlags::from_bits_truncate` and
/// `ModeTypeFlags::contains`: whether the type flags hold `PREFERRED`, whose
/// value drm takes from the kernel's `DRM_MODE_TYPE_PREFERRED`.
#[verifier::external_body]
fn mode_type_is_preferred(mode_type: u32) -> (r: bool)
    ensures
        r == (mode_type & PREFERRED_MODE_BIT != 0),
{
    ::drm::control::ModeTypeFlags::from_bits_truncate(mode_type).contains(
        ::drm::control::ModeTypeFlags::PREFERRED,
    )
}

/// The name of a connector, such as `HDMI-A-1`.
pub fn get_connector_name(info: &ConnectorDescriptor) -> (r: String)
    ensures
        r@ == connector_name_spec(*info),
{
    connector_name(info.interface, info.interface_id)
}

/// The positions of the connectors that have a display attached, in order.
pub fn get_connected_connectors(connectors: &Vec<ConnectorDescriptor>) -> (r: Vec<usize>)
    ensures
        r@.map_values(|k: usize| k as int) == connected_positions(connectors@),
{
    let mut r: Vec<usize> = Vec::new();
    let mut i: usize = 0;
    while i < connectors.len()
        invariant
            i <= connectors@.len(),
            r@.map_values(|k: usize| k as int) == connected_positions(connectors@.subrange(0, i as int)),
        decreases connectors@.len() - i,
    {
        let ghost before = r@;
        assert(connectors@.subrange(0, i + 1).drop_last() == connectors@.subrange(0, i as int));
        if connectors[i].state == ConnectionState::Connected {
            r.push(i);
            assert(r@.map_values(|k: usize| k as int) == before.map_values(|k: usize| k as int).push(i as int));
        }
        i += 1;
    }
    assert(connectors@.subrange(0, connectors@.len() as int) == connectors@);
    r
}

/// The position of the first mode of `connector_info` flagged as preferred.
pub fn preferred_mode_index(connector_info: &ConnectorDescriptor) -> (r: Option<usize>)
    ensures
        as_int_option(r) == preferred_mode_position(*connector_info),
        r matches Some(k) ==> k < connector_info.modes@.len(),
{
    let ghost p = |i: int| is_preferred(connector_info.modes@[i]);
    let mut i: usize = 0;
    while i < connector_info.modes.len()
        invariant
            i <= connector_info.modes@.len(),
            p == (|i: int| is_preferred(connector_info.modes@[i])),
            forall|j: int| 0 <= j < i ==> !#[trigger] p(j),
        decreases connector_info.modes@.len() - i,
    {
        if mode_type_is_preferred(connector_info.modes[i].mode_type) {
            proof {
                assert(p(i as int));
                lemma_first_index_where_found(connector_info.modes@.len(), i as int, p);
            }
            return Some(i);
        }
        assert(!p(i as int));
        i += 1;
    }
    proof {
        lemma_first_index_where_none(connector_info.modes@.len(), p);
    }
    None
}

/// The first mode of `connector_info` flagged as preferred.
pub fn connector_preferred_mode(connector_info: &ConnectorDescriptor) -> (r: Option<ModeDescriptor>)
    ensures
        r == match preferred_mode_position(*connector_info) {
            Some(k) => Some(connector_info.modes@[k]),
            None => None,
        },
{
    proof {
        lemma_first_index_where(connector_info.modes@.len(), |i: int| is_preferred(connector_info.modes@[i]));
    }
    match preferred_mode_index(connector_info) {
        Some(k) => Some(connector_info.modes[k]),
        None => None,
    }
}

/// The first encoder that can drive `connector_info`.
pub fn first_encoder(connector_info: &ConnectorDescriptor) -> (r: Option<u32>)
    ensures
        r == if connector_info.encoders@.len() > 0 {
            Some(connector_info.encoders@[0])
        } else {
            None
        },
{
    if connector_info.encoders.len() > 0 {
        Some(connector_info.encoders[0])
    } else {
        None
    }
}


/// The position of the first encoder whose handle is `handle`.
pub open spec fn encoder_position(encoders: Seq<EncoderDescriptor>, handle: u32) -> Option<int> {
    first_index_where(encoders.len(), |i: int| encoders[i].handle == handle)
}

/// The encoder chosen for a connector: its first encoder, looked up by handle.
pub open spec fn encoder_choice(c: ConnectorDescriptor, encoders: Seq<EncoderDescriptor>) -> Option<int> {
    if c.encoders@.len() == 0 {
        None
    } else {
        encoder_position(encoders, c.encoders@[0])
    }
}

/// Whether the CRTC at position `i` is in the capability mask `mask`.
pub open spec fn crtc_allowed(mask: u32, i: int) -> bool {
    0 <= i < 32 && (mask >> (i as u32)) & 1u32 == 1u32
}

/// The first CRTC that the capability mask `mask` allows.
pub open spec fn crtc_choice(crtcs: Seq<CrtcDescriptor>, mask: u32) -> Option<int> {
    first_index_where(crtcs.len(), |i: int| crtc_allowed(mask, i))
}

/// The session settings that follow from the chosen positions.
pub open spec fn config_for(
    res: DisplayResources,
    ci: int,
    mi: int,
    ei: int,
    ri: int,
) -> DisplayConfig {
    let c = res.connectors@[ci];
    let m = c.modes@[mi];
    DisplayConfig {
        connector: c.handle,
        connector_index: ci as usize,
        encoder: res.encoders@[ei].handle,
        crtc: res.crtcs@[ri].handle,
        mode: m,
        mode_index: mi as usize,
        width: m.width as u32,
        height: m.height as u32,
        original_framebuffer: res.crtcs@[ri].framebuffer,
    }
}

/// The whole choice of an output path: connector, its preferred mode, its
/// first encoder, and the first CRTC that encoder can drive.
pub open spec fn display_plan(
    res: DisplayResources,
    name: Option<Seq<char>>,
) -> Result<DisplayConfig, DiscoveryError> {
    match selected_connector(res.connectors@, name) {
        None => Err(
            if name is Some {
                DiscoveryError::ConnectorNotFound
            } else {
                DiscoveryError::NoConnectedConnector
            },
        ),
        Some(ci) => {
            let c = res.connectors@[ci];
            match preferred_mode_position(c) {
                None => Err(DiscoveryError::NoPreferredMode),
                Some(mi) => match encoder_choice(c, res.encoders@) {
                    None => Err(DiscoveryError::NoEncoder),
                    Some(ei) => match crtc_choice(res.crtcs@, res.encoders@[ei].possible_crtcs) {
                        None => Err(DiscoveryError::NoCrtc),
                        Some(ri) => Ok(config_for(res, ci, mi, ei, ri)),
                    },
                },
            }
        },
    }
}

/// Picks a connector: the first connected one named `name`, or the first
/// connected one when no name is given.
pub fn select_connector(
    connectors: &Vec<ConnectorDescriptor>,
    name: Option<&String>,
) -> (r: Result<usize, DiscoveryError>)
    ensures
        match r {
            Ok(k) => selected_connector(connectors@, name_view(name)) == Some(k as int) && k
                < connectors@.len(),
            Err(e) => {
                &&& selected_connector(connectors@, name_view(name)) == None::<int>
                &&& e == if name is Some {
                    DiscoveryError::ConnectorNotFound
                } else {
                    DiscoveryError::NoConnectedConnector
                }
            },
        },
{
    let ghost p = |i: int| is_candidate(connectors@[i], name_view(name));
    let mut i: usize = 0;
    while i < connectors.len()
        invariant
            i <= connectors@.len(),
            p == (|i: int| is_candidate(connectors@[i], name_view(name))),
            forall|j: int| 0 <= j < i ==> !#[trigger] p(j),
        decreases connectors@.len() - i,
    {
        let c = &connectors[i];
        let found = if c.state == ConnectionState::Connected {
            match name {
                Some(n) => {
                    let this_name = get_connector_name(c);
                    this_name == *n
                },
                None => true,
            }
        } else {
            false
        };
        if found {
            proof {
                assert(p(i as int));
                lemma_first_index_where_found(connectors@.len(), i as int, p);
            }
            return Ok(i);
        }
        assert(!p(i as int));
        i += 1;
    }
    proof {
        lemma_first_index_where_none(connectors@.len(), p);
    }
    match name {
        Some(_) => Err(DiscoveryError::ConnectorNotFound),
        None => Err(DiscoveryError::NoConnectedConnector),
    }
}

/// The position of the first encoder whose handle is `handle`.
pub fn find_encoder(encoders: &Vec<EncoderDescriptor>, handle: u32) -> (r: Option<usize>)
    ensures
        as_int_option(r) == encoder_position(encoders@, handle),
        r matches Some(k) ==> k < encoders@.len(),
{
    let ghost p = |i: int| encoders@[i].handle == handle;
    let mut i: usize = 0;
    while i < encoders.len()
        invariant
            i <= encoders@.len(),
            p == (|i: int| encoders@[i].handle == handle),
            forall|j: int| 0 <= j < i ==> !#[trigger] p(j),
        decreases encoders@.len() - i,
    {
        if encoders[i].handle == handle {
            proof {
                assert(p(i as int));
                lemma_first_index_where_found(encoders@.len(), i as int, p);
            }
            return Some(i);
        }
        assert(!p(i as int));
        i += 1;
    }
    proof {
        lemma_first_index_where_none(encoders@.len(), p);
    }
    None
}

/// The position of the first CRTC that the capability mask `possible_crtcs`
/// allows.
pub fn first_possible_crtc(crtcs: &Vec<CrtcDescriptor>, possible_crtcs: u32) -> (r: Option<usize>)
    ensures
        as_int_option(r) == crtc_choice(crtcs@, possible_crtcs),
        r matches Some(k) ==> k < crtcs@.len(),
{
    let ghost p = |i: int| crtc_allowed(possible_crtcs, i);
    let mut i: usize = 0;
    while i < crtcs.len()
        invariant
            i <= crtcs@.len(),
            p == (|i: int| crtc_allowed(possible_crtcs, i)),
            forall|j: int| 0 <= j < i ==> !#[trigger] p(j),
        decreases crtcs@.len() - i,
    {
        if i < 32 && (possible_crtcs >> (i as u32)) & 1 == 1 {
            proof {
                assert(p(i as int));
                lemma_first_index_where_found(crtcs@.len(), i as int, p);
            }
            return Some(i);
        }
        assert(!p(i as int));
        i += 1;
    }
    proof {
        lemma_first_index_where_none(crtcs@.len(), p);
    }
    None
}

/// Picks the encoder and the CRTC for a connector: its first encoder, then
/// the first CRTC whose capability mask includes that encoder. Returns their
/// positions in `resources`.
pub fn select_encoder_and_crtc(
    connector_info: &ConnectorDescriptor,
    resources: &DisplayResources,
) -> (r: Result<(usize, usize), DiscoveryError>)
    ensures
        match r {
            Ok((ei, ri)) => {
                &&& encoder_choice(*connector_info, resources.encoders@) == Some(ei as int)
                &&& crtc_choice(resources.crtcs@, resources.encoders@[ei as int].possible_crtcs)
                    == Some(ri as int)
            },
            Err(e) => match encoder_choice(*connector_info, resources.encoders@) {
                None => e == DiscoveryError::NoEncoder,
                Some(ei) => {
                    &&& e == DiscoveryError::NoCrtc
                    &&& crtc_choice(resources.crtcs@, resources.encoders@[ei].possible_crtcs)
                        == None::<int>
                },
            },
        },
        r matches Ok((ei, ri)) ==> ei < resources.encoders@.len() && ri < resources.crtcs@.len(),
{
    proof {
        lemma_first_index_where(
            resources.encoders@.len(),
            |i: int| resources.encoders@[i].handle == connector_info.encoders@[0],
        );
    }
    let handle = match first_encoder(connector_info) {
        Some(h) => h,
        None => return Err(DiscoveryError::NoEncoder),
    };
    let ei = match find_encoder(&resources.encoders, handle) {
        Some(k) => k,
        None => return Err(DiscoveryError::NoEncoder),
    };
    proof {
        lemma_first_index_where(
            resources.crtcs@.len(),
            |i: int| crtc_allowed(resources.encoders@[ei as int].possible_crtcs, i),
        );
    }
    match first_possible_crtc(&resources.crtcs, resources.encoders[ei].possible_crtcs) {
        Some(ri) => Ok((ei, ri)),
        None => Err(DiscoveryError::NoCrtc),
    }
}

/// The settings of a display session: the chosen connector, encoder, CRTC and
/// mode, with their positions in the resources they were chosen from, the
/// session's resolution, and the framebuffer the CRTC showed before.
#[derive(Clone, Copy, Debug, PartialEq, Eq, Structural)]
pub struct DisplayConfig {
    pub connector: u32,
    pub connector_index: usize,
    pub encoder: u32,
    pub crtc: u32,
    pub mode: ModeDescriptor,
    pub mode_index: usize,
    pub width: u32,
    pub height: u32,
    pub original_framebuffer: Option<u32>,
}

/// A synchronous mode set: bind `framebuffer` to `crtc` and `connector` at
/// offset (0, 0) in `mode`.
#[derive(Clone, Copy, Debug, PartialEq, Eq, Structural)]
pub struct ModeSetRequest {
    pub crtc: u32,
    pub framebuffer: Option<u32>,
    pub connector: u32,
    pub mode: ModeDescriptor,
}

/// An asynchronous page flip of `crtc` to `framebuffer` at the next vertical
/// blank, with a completion event.
#[derive(Clone, Copy, Debug, PartialEq, Eq, Structural)]
pub struct PageFlipRequest {
    pub crtc: u32,
    pub framebuffer: u32,
}

/// Why a page flip could not be scheduled.
#[derive(Clone, Copy, Debug, PartialEq, Eq, Structural)]
pub enum FlipSchedulingError {
    /// A flip is already outstanding on this CRTC.
    ConcurrentFlip,
}

/// A display session on one CRTC and connector. It tracks whether a page flip
/// is outstanding, so that at most one is ever in flight.
#[derive(Debug)]
pub struct DrmDisplay {
    pub config: DisplayConfig,
    pub flip_pending: bool,
}

impl DrmDisplay {
    /// Whether a page flip has been scheduled and its completion not yet seen.
    pub open spec fn flip_pending(&self) -> bool {
        self.flip_pending
    }

    pub open spec fn mode_set_request(&self, framebuffer: Option<u32>) -> ModeSetRequest {
        ModeSetRequest {
            crtc: self.config.crtc,
            framebuffer,
            connector: self.config.connector,
            mode: self.config.mode,
        }
    }

    /// Chooses the output path in `resources`, with the connector named
    /// `connector` if one is given; no flip is outstanding at the start.
    pub fn new(resources: &DisplayResources, connector: Option<&String>) -> (r: Result<
        DrmDisplay,
        DiscoveryError,
    >)
        ensures
            match r {
                Ok(d) => display_plan(*resources, name_view(connector)) == Ok::<
                    DisplayConfig,
                    DiscoveryError,
                >(d.config) && !d.flip_pending(),
                Err(e) => display_plan(*resources, name_view(connector)) == Err::<
                    DisplayConfig,
                    DiscoveryError,
                >(e),
            },
    {
        let ci = match select_connector(&resources.connectors, connector) {
            Ok(k) => k,
            Err(e) => return Err(e),
        };
        let c = &resources.connectors[ci];
        let mi = match preferred_mode_index(c) {
            Some(k) => k,
            None => return Err(DiscoveryError::NoPreferredMode),
        };
        let (ei, ri) = match select_encoder_and_crtc(c, resources) {
            Ok(pair) => pair,
            Err(e) => return Err(e),
        };
        let mode = c.modes[mi];
        let crtc = resources.crtcs[ri];
        let config = DisplayConfig {
            connector: c.handle,
            connector_index: ci,
            encoder: resources.encoders[ei].handle,
            crtc: crtc.handle,
            mode,
            mode_index: mi,
            width: mode.width as u32,
            height: mode.height as u32,
            original_framebuffer: crtc.framebuffer,
        };
        Ok(DrmDisplay { config, flip_pending: false })
    }

    /// Whether a page flip is outstanding.
    pub fn is_flip_pending(&self) -> (r: bool)
        ensures
            r == self.flip_pending(),
    {
        self.flip_pending
    }

    /// The mode set that shows `fb` on this session's CRTC and connector.
    pub fn set_mode_with_framebuffer(&self, fb: Option<u32>) -> (r: ModeSetRequest)
        ensures
            r == self.mode_set_request(fb),
    {
        ModeSetRequest {
            crtc: self.config.crtc,
            framebuffer: fb,
            connector: self.config.connector,
            mode: self.config.mode,
        }
    }

    /// Requests a flip to `fb` at the next vertical blank; refused while
    /// another flip is outstanding.
    pub fn schedule_page_flip(&mut self, fb: u32) -> (r: Result<PageFlipRequest, FlipSchedulingError>)
        ensures
            final(self).config == old(self).config,
            old(self).flip_pending() ==> r == Err::<PageFlipRequest, FlipSchedulingError>(
                FlipSchedulingError::ConcurrentFlip,
            ) && final(self).flip_pending(),
            !old(self).flip_pending() ==> r == Ok::<PageFlipRequest, FlipSchedulingError>(
                PageFlipRequest { crtc: old(self).config.crtc, framebuffer: fb },
            ) && final(self).flip_pending(),
    {
        if self.flip_pending {
            Err(FlipSchedulingError::ConcurrentFlip)
        } else {
            self.flip_pending = true;
            Ok(PageFlipRequest { crtc: self.config.crtc, framebuffer: fb })
        }
    }

    /// Takes a batch of device events; returns whether it completes the
    /// outstanding flip, which is then no longer outstanding. Other events
    /// are discarded.
    pub fn complete_page_flip(&mut self, events: &Vec<DeviceEvent>) -> (done: bool)
        ensures
            final(self).config == old(self).config,
            done == (old(self).flip_pending() && exists|i: int|
                0 <= i < events@.len() && #[trigger] completes_flip(events@[i], old(self).config.crtc)),
            final(self).flip_pending() == (old(self).flip_pending() && !done),
    {
        if self.flip_pending && flip_completion_observed(events, self.config.crtc) {
            self.flip_pending = false;
            true
        } else {
            false
        }
    }

    /// The mode set that brings back the framebuffer the CRTC showed before
    /// the session, or `None` when there was none or it no longer resolves.
    pub fn restore(&self, resolvable: bool) -> (r: Option<ModeSetRequest>)
        ensures
            r == if resolvable && self.config.original_framebuffer is Some {
                Some(self.mode_set_request(self.config.original_framebuffer))
            } else {
                None
            },
    {
        if resolvable && self.config.original_framebuffer.is_some() {
            Some(self.set_mode_with_framebuffer(self.config.original_framebuffer))
        } else {
            None
        }
    }
}

} // verus!
