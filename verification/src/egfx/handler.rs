//! The state of the graphics channel of one client.
//!
//! The handler is told what the channel negotiated and which surfaces come and go. What
//! other tasks may know of it is written into a shared [`HandlerState`].

use crate::server::gfx_factory::HandlerState;
use vstd::prelude::*;

verus! {

/// Frames that may be unacknowledged when nothing else is configured.
pub const DEFAULT_FRAMES_IN_FLIGHT: u32 = 3;

/// A capability set of the graphics channel, with its flags as bits.
#[derive(Debug, Clone, Copy, PartialEq, Eq, Structural)]
pub enum CapabilitySet {
    V8 { flags: u32 },
    V8_1 { flags: u32 },
    V10 { flags: u32 },
    V10_1,
    V10_2 { flags: u32 },
    V10_3 { flags: u32 },
    V10_4 { flags: u32 },
    V10_5 { flags: u32 },
    V10_6 { flags: u32 },
    V10_6Err { flags: u32 },
    V10_7 { flags: u32 },
}

/// The client keeps a small bitmap cache.
pub const SMALL_CACHE: u32 = 0x02;

/// The client of version 8.1 decodes H.264.
pub const AVC420_ENABLED: u32 = 0x10;

/// The client of version 10 or later does not decode H.264.
pub const AVC_DISABLED: u32 = 0x20;

/// The client wants H.264 for a thin client.
pub const AVC_THIN_CLIENT: u32 = 0x40;

/// All bits of `mask` are set in `flags`.
pub open spec fn contains(flags: u32, mask: u32) -> bool {
    flags & mask == mask
}

impl CapabilitySet {
    /// The flags of a version that says whether H.264 is disabled.
    pub open spec fn version_10_flags(self) -> Option<u32> {
        match self {
            CapabilitySet::V10 { flags }
            | CapabilitySet::V10_2 { flags }
            | CapabilitySet::V10_3 { flags }
            | CapabilitySet::V10_4 { flags }
            | CapabilitySet::V10_5 { flags }
            | CapabilitySet::V10_6 { flags }
            | CapabilitySet::V10_6Err { flags }
            | CapabilitySet::V10_7 { flags } => Some(flags),
            _ => None,
        }
    }

    /// Whether the set disables H.264 on a version that has it by default. Such clients need
    /// explicit pointer updates.
    pub open spec fn disables_avc(self) -> bool {
        self.version_10_flags() matches Some(flags) && contains(flags, AVC_DISABLED)
    }

    /// Whether H.264 with subsampled colour can be sent.
    pub open spec fn has_avc420(self) -> bool {
        match self {
            CapabilitySet::V8 { .. } => false,
            CapabilitySet::V8_1 { flags } => contains(flags, AVC420_ENABLED),
            _ => !self.disables_avc(),
        }
    }

    /// Whether H.264 with full colour can be sent.
    pub open spec fn has_avc444(self) -> bool {
        match self {
            CapabilitySet::V8 { .. } | CapabilitySet::V8_1 { .. } => false,
            _ => !self.disables_avc(),
        }
    }

    /// Whether explicit pointer updates are needed, whether H.264 with subsampled colour can
    /// be sent, and whether with full colour.
    pub fn codecs(&self) -> (r: (bool, bool, bool))
        ensures
            r == (self.disables_avc(), self.has_avc420(), self.has_avc444()),
    {
        match *self {
            CapabilitySet::V8 { .. } => (false, false, false),
            CapabilitySet::V8_1 { flags } => (false, flags & AVC420_ENABLED == AVC420_ENABLED, false),
            CapabilitySet::V10_1 => (false, true, true),
            CapabilitySet::V10 { flags }
            | CapabilitySet::V10_2 { flags }
            | CapabilitySet::V10_3 { flags }
            | CapabilitySet::V10_4 { flags }
            | CapabilitySet::V10_5 { flags }
            | CapabilitySet::V10_6 { flags }
            | CapabilitySet::V10_6Err { flags }
            | CapabilitySet::V10_7 { flags } => {
                let disabled = flags & AVC_DISABLED == AVC_DISABLED;
                (disabled, !disabled, !disabled)
            },
        }
    }
}

/// The state of the graphics channel of one client.
#[derive(Debug, Clone, Copy, PartialEq, Eq, Structural)]
pub struct LamcoGraphicsHandler {
    pub width: u16,
    pub height: u16,
    pub avc420_enabled: bool,
    pub avc444_enabled: bool,
    pub needs_android_pointer_updates: bool,
    pub ready: bool,
    pub has_surface: bool,
    /// The first surface; meaningful while there is one.
    pub surface_id: u16,
    pub negotiated_caps: Option<CapabilitySet>,
    /// Whether the state is shared with other tasks.
    pub shares_state: bool,
    pub force_avc420_only: bool,
    pub frames_in_flight: u32,
}

impl LamcoGraphicsHandler {
    /// A handler of a channel on which nothing was negotiated yet.
    pub open spec fn fresh(
        width: u16,
        height: u16,
        shares_state: bool,
        force_avc420_only: bool,
        frames_in_flight: u32,
    ) -> Self {
        LamcoGraphicsHandler {
            width,
            height,
            avc420_enabled: false,
            avc444_enabled: false,
            needs_android_pointer_updates: false,
            ready: false,
            has_surface: false,
            surface_id: 0,
            negotiated_caps: None,
            shares_state,
            force_avc420_only,
            frames_in_flight,
        }
    }

    fn build(
        width: u16,
        height: u16,
        shares_state: bool,
        force_avc420_only: bool,
        frames_in_flight: u32,
    ) -> (r: Self)
        ensures
            r == Self::fresh(width, height, shares_state, force_avc420_only, frames_in_flight),
    {
        LamcoGraphicsHandler {
            width,
            height,
            avc420_enabled: false,
            avc444_enabled: false,
            needs_android_pointer_updates: false,
            ready: false,
            has_surface: false,
            surface_id: 0,
            negotiated_caps: None,
            shares_state,
            force_avc420_only,
            frames_in_flight,
        }
    }

    /// A handler that keeps its state to itself.
    pub fn new(width: u16, height: u16) -> (r: Self)
        ensures
            r == Self::fresh(width, height, false, false, DEFAULT_FRAMES_IN_FLIGHT),
    {
        Self::build(width, height, false, false, DEFAULT_FRAMES_IN_FLIGHT)
    }

    /// A handler that keeps its state to itself and may refuse full colour.
    pub fn with_quirks(width: u16, height: u16, force_avc420_only: bool) -> (r: Self)
        ensures
            r == Self::fresh(width, height, false, force_avc420_only, DEFAULT_FRAMES_IN_FLIGHT),
    {
        Self::build(width, height, false, force_avc420_only, DEFAULT_FRAMES_IN_FLIGHT)
    }

    /// A handler that shares its state.
    pub fn with_shared_state(width: u16, height: u16) -> (r: Self)
        ensures
            r == Self::fresh(width, height, true, false, DEFAULT_FRAMES_IN_FLIGHT),
    {
        Self::build(width, height, true, false, DEFAULT_FRAMES_IN_FLIGHT)
    }

    /// A handler that shares its state and may refuse full colour.
    pub fn with_shared_state_and_quirks(width: u16, height: u16, force_avc420_only: bool) -> (r:
        Self)
        ensures
            r == Self::fresh(width, height, true, force_avc420_only, DEFAULT_FRAMES_IN_FLIGHT),
    {
        Self::with_config(width, height, force_avc420_only, DEFAULT_FRAMES_IN_FLIGHT)
    }

    /// A handler that shares its state, with all settings given.
    pub fn with_config(
        width: u16,
        height: u16,
        force_avc420_only: bool,
        max_frames_in_flight: u32,
    ) -> (r: Self)
        ensures
            r == Self::fresh(width, height, true, force_avc420_only, max_frames_in_flight),
    {
        Self::build(width, height, true, force_avc420_only, max_frames_in_flight)
    }

    /// What other tasks may know, next to the channel that was known before.
    pub open spec fn published(self, before: Option<HandlerState>) -> HandlerState {
        HandlerState {
            is_ready: self.ready,
            is_avc420_enabled: self.avc420_enabled,
            is_avc444_enabled: self.avc444_enabled,
            needs_android_pointer_updates: self.needs_android_pointer_updates,
            primary_surface_id: if self.has_surface {
                Some(self.surface_id)
            } else {
                None
            },
            dvc_channel_id: match before {
                Some(state) => state.dvc_channel_id,
                None => 0,
            },
        }
    }

    /// Writes what other tasks may know, keeping the channel that is known already. A handler
    /// that does not share its state writes nothing.
    pub fn sync_shared_state(&self, shared: &mut Option<HandlerState>)
        ensures
            *final(shared) == if self.shares_state {
                Some(self.published(*old(shared)))
            } else {
                *old(shared)
            },
    {
        if self.shares_state {
            let dvc_channel_id: u32 = match shared {
                Some(state) => state.dvc_channel_id,
                None => 0,
            };
            let primary_surface_id: Option<u16> = if self.has_surface {
                Some(self.surface_id)
            } else {
                None
            };
            *shared = Some(
                HandlerState {
                    is_ready: self.ready,
                    is_avc420_enabled: self.avc420_enabled,
                    is_avc444_enabled: self.avc444_enabled,
                    needs_android_pointer_updates: self.needs_android_pointer_updates,
                    primary_surface_id,
                    dvc_channel_id,
                },
            );
        }
    }

    /// Whether frames can be sent.
    pub fn is_ready(&self) -> (r: bool)
        ensures
            r == self.ready,
    {
        self.ready
    }

    /// Whether H.264 with subsampled colour was negotiated.
    pub fn is_avc420_enabled(&self) -> (r: bool)
        ensures
            r == self.avc420_enabled,
    {
        self.avc420_enabled
    }

    /// The first surface, or zero before there was one.
    pub fn primary_surface_id(&self) -> (r: u16)
        ensures
            r == self.surface_id,
    {
        self.surface_id
    }

    /// Takes the size of the desktop.
    pub fn set_dimensions(&mut self, width: u16, height: u16)
        ensures
            *final(self) == (LamcoGraphicsHandler { width, height, ..*old(self) }),
    {
        self.width = width;
        self.height = height;
    }

    /// The size of the desktop.
    pub fn dimensions(&self) -> (r: (u16, u16))
        ensures
            r == (self.width, self.height),
    {
        (self.width, self.height)
    }

    /// The handler once a capability set was negotiated.
    pub open spec fn negotiated(self, caps: CapabilitySet) -> Self {
        LamcoGraphicsHandler {
            negotiated_caps: Some(caps),
            avc420_enabled: caps.has_avc420(),
            avc444_enabled: caps.has_avc444() && !self.force_avc420_only,
            needs_android_pointer_updates: caps.disables_avc(),
            ready: true,
            ..self
        }
    }

    /// Takes the negotiated capability set. Full colour is refused where it is forced off.
    pub fn on_ready(&mut self, negotiated: CapabilitySet)
        ensures
            *final(self) == old(self).negotiated(negotiated),
    {
        let (pointer, avc420, avc444) = negotiated.codecs();
        self.negotiated_caps = Some(negotiated);
        self.avc420_enabled = avc420;
        self.avc444_enabled = avc444 && !self.force_avc420_only;
        self.needs_android_pointer_updates = pointer;
        self.ready = true;
    }

    /// The handler with another surface: the first one becomes the primary surface.
    pub open spec fn with_surface(self, surface_id: u16) -> Self {
        if self.has_surface {
            self
        } else {
            LamcoGraphicsHandler { has_surface: true, surface_id, ..self }
        }
    }

    /// The handler without a surface: only the end of the primary one matters.
    pub open spec fn without_surface(self, surface_id: u16) -> Self {
        if self.has_surface && self.surface_id == surface_id {
            LamcoGraphicsHandler { has_surface: false, ..self }
        } else {
            self
        }
    }

    /// Takes a new surface; the first one becomes the primary surface. Says whether that
    /// changed what other tasks may know.
    pub fn on_surface_created(&mut self, surface_id: u16) -> (changed: bool)
        ensures
            changed == !old(self).has_surface,
            *final(self) == old(self).with_surface(surface_id),
    {
        if self.has_surface {
            return false;
        }
        self.surface_id = surface_id;
        self.has_surface = true;
        true
    }

    /// Takes the end of a surface. Says whether that changed what other tasks may know.
    pub fn on_surface_deleted(&mut self, surface_id: u16) -> (changed: bool)
        ensures
            changed == (old(self).has_surface && old(self).surface_id == surface_id),
            *final(self) == old(self).without_surface(surface_id),
    {
        if self.has_surface && self.surface_id == surface_id {
            self.has_surface = false;
            true
        } else {
            false
        }
    }

    /// The handler once its channel was closed.
    pub open spec fn closed(self) -> Self {
        LamcoGraphicsHandler {
            ready: false,
            avc420_enabled: false,
            needs_android_pointer_updates: false,
            has_surface: false,
            ..self
        }
    }

    /// Takes the end of the channel.
    pub fn on_close(&mut self)
        ensures
            *final(self) == old(self).closed(),
    {
        self.ready = false;
        self.avc420_enabled = false;
        self.needs_android_pointer_updates = false;
        self.has_surface = false;
    }

    /// Frames that may be unacknowledged.
    pub fn max_frames_in_flight(&self) -> (r: u32)
        ensures
            r == self.frames_in_flight,
    {
        self.frames_in_flight
    }

    /// The capability sets to offer, the preferred one first.
    pub open spec fn preferred() -> Seq<CapabilitySet> {
        seq![
            CapabilitySet::V10_7 { flags: SMALL_CACHE },
            CapabilitySet::V10_6 { flags: SMALL_CACHE },
            CapabilitySet::V10_5 { flags: SMALL_CACHE },
            CapabilitySet::V10_4 { flags: SMALL_CACHE },
            CapabilitySet::V10_3 { flags: AVC_THIN_CLIENT },
            CapabilitySet::V10_2 { flags: SMALL_CACHE },
            CapabilitySet::V10 { flags: SMALL_CACHE },
            CapabilitySet::V8_1 { flags: AVC420_ENABLED | SMALL_CACHE },
        ]
    }

    /// The capability sets to offer, the preferred one first.
    pub fn preferred_capabilities(&self) -> (r: Vec<CapabilitySet>)
        ensures
            r@ == Self::preferred(),
    {
        let mut r: Vec<CapabilitySet> = Vec::new();
        r.push(CapabilitySet::V10_7 { flags: SMALL_CACHE });
        r.push(CapabilitySet::V10_6 { flags: SMALL_CACHE });
        r.push(CapabilitySet::V10_5 { flags: SMALL_CACHE });
        r.push(CapabilitySet::V10_4 { flags: SMALL_CACHE });
        r.push(CapabilitySet::V10_3 { flags: AVC_THIN_CLIENT });
        r.push(CapabilitySet::V10_2 { flags: SMALL_CACHE });
        r.push(CapabilitySet::V10 { flags: SMALL_CACHE });
        r.push(CapabilitySet::V8_1 { flags: AVC420_ENABLED | SMALL_CACHE });
        r
    }
}

/// Full colour is only ever negotiated together with subsampled colour, and a client that
/// needs explicit pointer updates decodes neither.
pub proof fn full_colour_needs_subsampled(handler: LamcoGraphicsHandler, caps: CapabilitySet)
    ensures
        handler.negotiated(caps).avc444_enabled ==> handler.negotiated(caps).avc420_enabled,
        handler.negotiated(caps).needs_android_pointer_updates ==> !handler.negotiated(
            caps,
        ).avc420_enabled,
{
}

/// A handler that is forced to subsampled colour never enables full colour.
pub proof fn forced_subsampling_holds(handler: LamcoGraphicsHandler, caps: CapabilitySet)
    requires
        handler.force_avc420_only,
    ensures
        !handler.negotiated(caps).avc444_enabled,
{
}

/// Every capability set that is offered allows H.264.
pub proof fn offers_allow_h264(i: int)
    requires
        0 <= i < LamcoGraphicsHandler::preferred().len(),
    ensures
        LamcoGraphicsHandler::preferred()[i].has_avc420(),
{
    assert(0x02u32 & 0x20 != 0x20) by (bit_vector);
    assert(0x40u32 & 0x20 != 0x20) by (bit_vector);
    assert((0x10u32 | 0x02) & 0x10 == 0x10) by (bit_vector);
}

/// Once the channel was closed, other tasks see neither a ready channel nor a surface, but
/// still the channel's number.
pub proof fn closing_withdraws_everything(
    handler: LamcoGraphicsHandler,
    before: Option<HandlerState>,
)
    ensures
        ({
            let seen = handler.closed().published(Some(handler.published(before)));
            &&& !seen.is_ready
            &&& !seen.is_avc420_enabled
            &&& seen.primary_surface_id is None
            &&& seen.dvc_channel_id == handler.published(before).dvc_channel_id
        }),
{
}

/// A client of version 8 decodes no H.264; one of version 8.1 decodes it where it says so, with
/// subsampled colour only; a later one decodes both unless it says that it does not.
pub proof fn versions_decide_on_codecs(flags: u32)
    ensures
        !(CapabilitySet::V8 { flags }).has_avc420(),
        !(CapabilitySet::V8 { flags }).has_avc444(),
        (CapabilitySet::V8_1 { flags }).has_avc420() == (flags & 0x10 == 0x10),
        !(CapabilitySet::V8_1 { flags }).has_avc444(),
        CapabilitySet::V10_1.has_avc420(),
        CapabilitySet::V10_1.has_avc444(),
        (CapabilitySet::V10 { flags }).has_avc420() == (flags & 0x20 != 0x20),
        (CapabilitySet::V10 { flags }).has_avc444() == (flags & 0x20 != 0x20),
        (CapabilitySet::V10_2 { flags }).has_avc420() == (flags & 0x20 != 0x20),
        (CapabilitySet::V10_2 { flags }).has_avc444() == (flags & 0x20 != 0x20),
        (CapabilitySet::V10_3 { flags }).has_avc420() == (flags & 0x20 != 0x20),
        (CapabilitySet::V10_3 { flags }).has_avc444() == (flags & 0x20 != 0x20),
        (CapabilitySet::V10_4 { flags }).has_avc420() == (flags & 0x20 != 0x20),
        (CapabilitySet::V10_4 { flags }).has_avc444() == (flags & 0x20 != 0x20),
        (CapabilitySet::V10_5 { flags }).has_avc420() == (flags & 0x20 != 0x20),
        (CapabilitySet::V10_5 { flags }).has_avc444() == (flags & 0x20 != 0x20),
        (CapabilitySet::V10_6 { flags }).has_avc420() == (flags & 0x20 != 0x20),
        (CapabilitySet::V10_6 { flags }).has_avc444() == (flags & 0x20 != 0x20),
        (CapabilitySet::V10_6Err { flags }).has_avc420() == (flags & 0x20 != 0x20),
        (CapabilitySet::V10_6Err { flags }).has_avc444() == (flags & 0x20 != 0x20),
        (CapabilitySet::V10_7 { flags }).has_avc420() == (flags & 0x20 != 0x20),
        (CapabilitySet::V10_7 { flags }).has_avc444() == (flags & 0x20 != 0x20),
{
}

/// Explicit pointer updates are for the clients that could decode H.264 by their version and
/// say that they do not, and for no others.
pub proof fn pointer_updates_are_for_clients_without_h264(caps: CapabilitySet, flags: u32)
    ensures
        caps.disables_avc() ==> !caps.has_avc420() && !caps.has_avc444(),
        !(CapabilitySet::V8 { flags }).disables_avc(),
        !(CapabilitySet::V8_1 { flags }).disables_avc(),
        !CapabilitySet::V10_1.disables_avc(),
        !(caps is V8) && !(caps is V8_1) ==> caps.disables_avc() == !caps.has_avc420(),
{
}

/// Negotiation makes the channel ready and takes over what the client decodes, but for full
/// colour where that is forced off. It changes neither the size nor the surface.
pub proof fn negotiation_takes_what_the_client_decodes(
    handler: LamcoGraphicsHandler,
    caps: CapabilitySet,
)
    ensures
        handler.negotiated(caps).ready,
        handler.negotiated(caps).negotiated_caps == Some(caps),
        handler.negotiated(caps).avc420_enabled == caps.has_avc420(),
        !handler.force_avc420_only ==> handler.negotiated(caps).avc444_enabled
            == caps.has_avc444(),
        handler.force_avc420_only ==> !handler.negotiated(caps).avc444_enabled,
        handler.negotiated(caps).needs_android_pointer_updates == caps.disables_avc(),
        handler.negotiated(caps).width == handler.width,
        handler.negotiated(caps).height == handler.height,
        handler.negotiated(caps).has_surface == handler.has_surface,
        handler.negotiated(caps).surface_id == handler.surface_id,
        handler.negotiated(caps).frames_in_flight == handler.frames_in_flight,
        handler.negotiated(caps).force_avc420_only == handler.force_avc420_only,
        handler.negotiated(caps).shares_state == handler.shares_state,
{
}

/// What is negotiated last counts.
pub proof fn last_negotiation_counts(
    handler: LamcoGraphicsHandler,
    first: CapabilitySet,
    second: CapabilitySet,
)
    ensures
        handler.negotiated(first).negotiated(second) == handler.negotiated(second),
{
}

/// A new channel is not ready, decodes nothing and has no surface.
pub proof fn new_channels_have_nothing(
    width: u16,
    height: u16,
    shares: bool,
    force: bool,
    frames: u32,
)
    ensures
        ({
            let h = LamcoGraphicsHandler::fresh(width, height, shares, force, frames);
            &&& !h.ready && !h.avc420_enabled && !h.avc444_enabled
            &&& !h.has_surface && !h.needs_android_pointer_updates
            &&& h.negotiated_caps is None
            &&& h.width == width && h.height == height
            &&& h.shares_state == shares
            &&& h.force_avc420_only == force
            &&& h.frames_in_flight == frames
        }),
{
}

/// Other tasks learn exactly what the handler knows, and no surface where there is none. The
/// number of the channel is left as it was.
pub proof fn other_tasks_learn_what_is_known(
    handler: LamcoGraphicsHandler,
    before: Option<HandlerState>,
)
    ensures
        handler.published(before).is_ready == handler.ready,
        handler.published(before).is_avc420_enabled == handler.avc420_enabled,
        handler.published(before).is_avc444_enabled == handler.avc444_enabled,
        handler.published(before).needs_android_pointer_updates
            == handler.needs_android_pointer_updates,
        handler.has_surface ==> handler.published(before).primary_surface_id == Some(
            handler.surface_id,
        ),
        !handler.has_surface ==> handler.published(before).primary_surface_id is None,
        before matches Some(b) ==> handler.published(before).dvc_channel_id == b.dvc_channel_id,
        before is None ==> handler.published(before).dvc_channel_id == 0,
{
}

/// The first surface stays the primary one until it ends: others come and go without changing
/// anything, and once it ended the next one takes its place.
pub proof fn first_surface_is_primary(handler: LamcoGraphicsHandler, first: u16, second: u16)
    requires
        !handler.has_surface,
    ensures
        handler.with_surface(first).has_surface,
        handler.with_surface(first).surface_id == first,
        handler.with_surface(first).with_surface(second) == handler.with_surface(first),
        second != first ==> handler.with_surface(first).without_surface(second)
            == handler.with_surface(first),
        !handler.with_surface(first).without_surface(first).has_surface,
        handler.with_surface(first).without_surface(first).with_surface(second).surface_id
            == second,
        handler.with_surface(first).ready == handler.ready,
        handler.with_surface(first).avc420_enabled == handler.avc420_enabled,
        handler.with_surface(first).avc444_enabled == handler.avc444_enabled,
        handler.without_surface(first) == handler,
{
}

/// Once a channel was closed nothing more goes out on it, until it is negotiated again.
pub proof fn closed_channels_send_nothing(
    handler: LamcoGraphicsHandler,
    before: Option<HandlerState>,
    caps: CapabilitySet,
)
    ensures
        !handler.closed().published(before).is_ready,
        !handler.closed().published(before).is_avc420_enabled,
        handler.closed().published(before).primary_surface_id is None,
        handler.closed().negotiated(caps).ready,
        handler.closed().width == handler.width,
        handler.closed().height == handler.height,
        handler.closed().closed() == handler.closed(),
{
}

/// The newest version is offered first and every version once, each older than the one before
/// it. They come with a small cache, but for version 10.3, which has no such flag; the oldest
/// one, where H.264 has to be named, names it.
pub proof fn newest_version_is_offered_first()
    ensures
        LamcoGraphicsHandler::preferred().len() == 8,
        LamcoGraphicsHandler::preferred()[0] == (CapabilitySet::V10_7 { flags: 0x02 }),
        LamcoGraphicsHandler::preferred()[1] == (CapabilitySet::V10_6 { flags: 0x02 }),
        LamcoGraphicsHandler::preferred()[2] == (CapabilitySet::V10_5 { flags: 0x02 }),
        LamcoGraphicsHandler::preferred()[3] == (CapabilitySet::V10_4 { flags: 0x02 }),
        LamcoGraphicsHandler::preferred()[4] == (CapabilitySet::V10_3 { flags: 0x40 }),
        LamcoGraphicsHandler::preferred()[5] == (CapabilitySet::V10_2 { flags: 0x02 }),
        LamcoGraphicsHandler::preferred()[6] == (CapabilitySet::V10 { flags: 0x02 }),
        LamcoGraphicsHandler::preferred()[7] == (CapabilitySet::V8_1 { flags: 0x12 }),
{
    assert(0x10u32 | 0x02u32 == 0x12u32) by (bit_vector);
}

/// A handler is set up as it was told, and nothing is negotiated on its channel yet.
pub proof fn handlers_begin_unnegotiated(
    width: u16,
    height: u16,
    shares_state: bool,
    force_avc420_only: bool,
    frames: u32,
)
    ensures
        ({
            let r = LamcoGraphicsHandler::fresh(
                width,
                height,
                shares_state,
                force_avc420_only,
                frames,
            );
            &&& r.width == width && r.height == height
            &&& r.shares_state == shares_state
            &&& r.force_avc420_only == force_avc420_only
            &&& r.frames_in_flight == frames
            &&& !r.ready && !r.has_surface && !r.avc420_enabled && !r.avc444_enabled
            &&& !r.needs_android_pointer_updates && r.negotiated_caps is None
        }),
{
}

} // verus!
