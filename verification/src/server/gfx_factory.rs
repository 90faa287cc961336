//! Graphics channels for new connections.

use crate::egfx::handler::{LamcoGraphicsHandler, DEFAULT_FRAMES_IN_FLIGHT};
use vstd::prelude::*;

verus! {

/// What other tasks may know of the graphics channel.
#[derive(Debug, Clone, Copy, PartialEq, Eq, Structural)]
pub struct HandlerState {
    /// Whether capabilities were negotiated.
    pub is_ready: bool,
    /// Whether H.264 with subsampled colour can be sent.
    pub is_avc420_enabled: bool,
    /// Whether H.264 with full colour can be sent.
    pub is_avc444_enabled: bool,
    /// Whether the client needs explicit pointer updates.
    pub needs_android_pointer_updates: bool,
    /// The surface that frames are sent to. Zero is a valid surface.
    pub primary_surface_id: Option<u16>,
    /// The channel's number.
    pub dvc_channel_id: u32,
}

impl Default for HandlerState {
    fn default() -> (r: Self)
        ensures
            r == (HandlerState {
                is_ready: false,
                is_avc420_enabled: false,
                is_avc444_enabled: false,
                needs_android_pointer_updates: false,
                primary_surface_id: None,
                dvc_channel_id: 0,
            }),
    {
        HandlerState {
            is_ready: false,
            is_avc420_enabled: false,
            is_avc444_enabled: false,
            needs_android_pointer_updates: false,
            primary_surface_id: None,
            dvc_channel_id: 0,
        }
    }
}

/// When messages on the graphics channel are compressed.
#[derive(Debug, Clone, Copy, PartialEq, Eq, Structural)]
pub enum CompressionMode {
    Never,
    Auto,
    Always,
}

/// How to wait before trying a lock again.
#[derive(Debug, Clone, Copy, PartialEq, Eq, Structural)]
pub enum RetryPause {
    Yield,
    SleepMs(u64),
}

/// How to wait after a lock was not free at the given attempt: the first ten times only give
/// way, later ones sleep, and after a hundred attempts there is no other.
pub open spec fn pause_after(attempt: int) -> Option<RetryPause> {
    if attempt >= 100 {
        None
    } else if attempt < 10 {
        Some(RetryPause::Yield)
    } else {
        Some(RetryPause::SleepMs(1))
    }
}

/// How to wait after a lock was not free at the given attempt: the first ten times only give
/// way, later ones sleep, and after a hundred attempts there is no other.
pub fn retry_pause(attempt: u32) -> (r: Option<RetryPause>)
    ensures
        r == pause_after(attempt as int),
{
    if attempt >= 100 {
        None
    } else if attempt < 10 {
        Some(RetryPause::Yield)
    } else {
        Some(RetryPause::SleepMs(1))
    }
}

/// Builds the graphics channel of each connection.
#[derive(Debug, Clone, Copy, PartialEq, Eq, Structural)]
pub struct LamcoGfxFactory {
    pub width: u16,
    pub height: u16,
    /// What other tasks may know of the channel of the current connection.
    pub shared: Option<HandlerState>,
    /// Whether the channel of the current connection was handed to other tasks.
    pub has_server: bool,
    pub force_avc420_only: bool,
    pub max_frames_in_flight: u32,
    pub compression_mode: CompressionMode,
}

impl LamcoGfxFactory {
    /// A factory without connections.
    pub open spec fn fresh(
        width: u16,
        height: u16,
        force_avc420_only: bool,
        max_frames_in_flight: u32,
        compression_mode: CompressionMode,
    ) -> Self {
        LamcoGfxFactory {
            width,
            height,
            shared: None,
            has_server: false,
            force_avc420_only,
            max_frames_in_flight,
            compression_mode,
        }
    }

    /// A factory with default settings.
    pub fn new(width: u16, height: u16) -> (r: Self)
        ensures
            r == Self::fresh(
                width,
                height,
                false,
                DEFAULT_FRAMES_IN_FLIGHT,
                CompressionMode::Never,
            ),
    {
        Self::with_quirks(width, height, false)
    }

    /// A factory with default settings that may refuse full colour.
    pub fn with_quirks(width: u16, height: u16, force_avc420_only: bool) -> (r: Self)
        ensures
            r == Self::fresh(
                width,
                height,
                force_avc420_only,
                DEFAULT_FRAMES_IN_FLIGHT,
                CompressionMode::Never,
            ),
    {
        Self::with_config(
            width,
            height,
            force_avc420_only,
            DEFAULT_FRAMES_IN_FLIGHT,
            CompressionMode::Never,
        )
    }

    /// A factory with all settings given.
    pub fn with_config(
        width: u16,
        height: u16,
        force_avc420_only: bool,
        max_frames_in_flight: u32,
        compression_mode: CompressionMode,
    ) -> (r: Self)
        ensures
            r == Self::fresh(
                width,
                height,
                force_avc420_only,
                max_frames_in_flight,
                compression_mode,
            ),
    {
        LamcoGfxFactory {
            width,
            height,
            shared: None,
            has_server: false,
            force_avc420_only,
            max_frames_in_flight,
            compression_mode,
        }
    }

    /// What other tasks may know of the channel of the current connection.
    pub fn handler_state(&self) -> (r: Option<HandlerState>)
        ensures
            r == self.shared,
    {
        self.shared
    }

    /// Whether the channel of the current connection was handed to other tasks.
    pub fn server_handle(&self) -> (r: bool)
        ensures
            r == self.has_server,
    {
        self.has_server
    }

    /// A handler that keeps its state to itself.
    pub fn build_gfx_handler(&self) -> (r: LamcoGraphicsHandler)
        ensures
            r == LamcoGraphicsHandler::fresh(
                self.width,
                self.height,
                false,
                self.force_avc420_only,
                DEFAULT_FRAMES_IN_FLIGHT,
            ),
    {
        LamcoGraphicsHandler::with_quirks(self.width, self.height, self.force_avc420_only)
    }

    /// The factory while a new connection is set up: what was known of the one before is
    /// forgotten where its lock could be taken.
    pub open spec fn connecting(self, state_locked: bool) -> Self {
        LamcoGfxFactory {
            shared: if state_locked {
                None
            } else {
                self.shared
            },
            ..self
        }
    }

    /// The factory after the channel of a new connection was to be handed to other tasks.
    pub open spec fn handed_out(self, stored: bool) -> Self {
        LamcoGfxFactory { has_server: self.has_server || stored, ..self }
    }

    /// The handler of a new connection. What was known of the connection before is forgotten
    /// where its lock could be taken. The channel of the connection before stays with the other
    /// tasks until the new one is handed out.
    pub fn build_server_with_handle(&mut self, state_locked: bool) -> (r: LamcoGraphicsHandler)
        ensures
            r == LamcoGraphicsHandler::fresh(
                old(self).width,
                old(self).height,
                true,
                old(self).force_avc420_only,
                old(self).max_frames_in_flight,
            ),
            *final(self) == old(self).connecting(state_locked),
    {
        if state_locked {
            self.shared = None;
        }
        LamcoGraphicsHandler::with_config(
            self.width,
            self.height,
            self.force_avc420_only,
            self.max_frames_in_flight,
        )
    }

    /// The channel of a new connection was to be handed to other tasks, and that worked or not.
    pub fn handle_stored(&mut self, stored: bool)
        ensures
            *final(self) == old(self).handed_out(stored),
    {
        if stored {
            self.has_server = true;
        }
    }
}

/// A lock is tried a hundred times. It is given way to without delay the first ten times, and
/// slept for a millisecond after each of the others.
pub proof fn locks_are_tried_a_hundred_times(attempt: int)
    ensures
        attempt <= 9 ==> pause_after(attempt) == Some(RetryPause::Yield),
        10 <= attempt <= 99 ==> pause_after(attempt) == Some(RetryPause::SleepMs(1)),
        attempt >= 100 ==> pause_after(attempt) is None,
{
}

/// A new connection keeps the settings of the factory and knows nothing of the connection
/// before. The channel of that one stays with the other tasks until there is another.
pub proof fn connections_keep_the_settings(factory: LamcoGfxFactory, locked: bool, stored: bool)
    ensures
        factory.connecting(true).shared is None,
        factory.connecting(false) == factory,
        factory.connecting(locked).has_server == factory.has_server,
        factory.connecting(locked).width == factory.width,
        factory.connecting(locked).height == factory.height,
        factory.connecting(locked).force_avc420_only == factory.force_avc420_only,
        factory.connecting(locked).max_frames_in_flight == factory.max_frames_in_flight,
        factory.connecting(locked).compression_mode == factory.compression_mode,
        factory.handed_out(true).has_server,
        factory.handed_out(false) == factory,
        factory.handed_out(stored).shared == factory.shared,
{
}

/// A factory is set up as it was told and knows of no connection yet.
pub proof fn factories_begin_without_connections(
    width: u16,
    height: u16,
    force_avc420_only: bool,
    frames: u32,
    compression: CompressionMode,
)
    ensures
        ({
            let r = LamcoGfxFactory::fresh(width, height, force_avc420_only, frames, compression);
            &&& r.width == width
            &&& r.height == height
            &&& r.force_avc420_only == force_avc420_only
            &&& r.max_frames_in_flight == frames
            &&& r.compression_mode == compression
            &&& r.shared is None
            &&& !r.has_server
        }),
        DEFAULT_FRAMES_IN_FLIGHT == 3,
{
}

} // verus!
