//! Sending frames over the graphics channel.
//!
//! A frame goes out in two parts. First the sender says what to hand to the graphics server,
//! or why nothing can be sent; then it takes what became of that and says what the caller
//! gets.

use crate::server::gfx_factory::HandlerState;
use crate::text::{decimal, number};
use ironrdp_egfx::pdu::Avc420Region as PduRegion;
use ironrdp_graphics::rdp6::{BgrAChannels, BitmapEncodeError, BitmapStreamEncoder};
use vstd::prelude::*;

verus! {

/// The quantizer of every region.
pub const REGION_QP: u8 = 22;

/// The quality of every region.
pub const REGION_QUALITY: u8 = 100;

/// Frames that are written to disk for diagnostics.
pub const DUMPED_FRAMES: u32 = 3;

/// Room for an encoded picture beyond its plain size.
pub const PLANAR_SLACK: usize = 1024;

/// Why a frame was not sent.
#[derive(Debug)]
pub enum SendError {
    /// The graphics channel is not negotiated yet.
    NotReady,
    /// The client does not decode H.264.
    Avc420NotSupported,
    /// There is no surface to draw on.
    NoSurface,
    /// Too many frames are unacknowledged.
    Backpressure,
    /// The connection's event channel is closed.
    ChannelClosed,
    /// A message could not be encoded.
    EncodingFailed(String),
    /// A lock could not be taken.
    LockFailed,
}

impl SendError {
    /// The error in words.
    pub open spec fn text(self) -> Seq<char> {
        match self {
            SendError::NotReady => "EGFX channel not ready"@,
            SendError::Avc420NotSupported => "AVC420 not supported by client"@,
            SendError::NoSurface => "No primary surface available"@,
            SendError::Backpressure => "Frame dropped due to backpressure"@,
            SendError::ChannelClosed => "Server event channel closed"@,
            SendError::EncodingFailed(e) => "DVC encoding failed: "@ + e@,
            SendError::LockFailed => "Failed to acquire lock"@,
        }
    }

    /// The error in words.
    pub fn to_text(&self) -> (r: String)
        ensures
            r@ == self.text(),
    {
        match self {
            SendError::NotReady => "EGFX channel not ready".to_owned(),
            SendError::Avc420NotSupported => "AVC420 not supported by client".to_owned(),
            SendError::NoSurface => "No primary surface available".to_owned(),
            SendError::Backpressure => "Frame dropped due to backpressure".to_owned(),
            SendError::ChannelClosed => "Server event channel closed".to_owned(),
            SendError::EncodingFailed(e) => {
                let mut r = "DVC encoding failed: ".to_owned();
                r.append(e.as_str());
                r
            },
            SendError::LockFailed => "Failed to acquire lock".to_owned(),
        }
    }
}

/// A part of a picture that changed.
#[derive(Debug, Clone, Copy, PartialEq, Eq, Structural)]
pub struct DamageRegion {
    pub x: u32,
    pub y: u32,
    pub width: u32,
    pub height: u32,
}

impl DamageRegion {
    /// The whole picture.
    pub open spec fn everything(width: u32, height: u32) -> Self {
        DamageRegion { x: 0, y: 0, width, height }
    }

    /// The whole picture.
    pub fn full_frame(width: u32, height: u32) -> (r: Self)
        ensures
            r == Self::everything(width, height),
    {
        DamageRegion { x: 0, y: 0, width, height }
    }

    /// The number of pixels.
    pub open spec fn pixels(self) -> int {
        self.width * self.height
    }

    /// The number of pixels.
    pub fn area(&self) -> (r: u64)
        ensures
            r == self.pixels(),
    {
        proof {
            lemma_area(self.width, self.height);
        }
        self.width as u64 * self.height as u64
    }

    /// The region's far edges are numbers.
    pub open spec fn wf(self) -> bool {
        self.x + self.width <= u32::MAX && self.y + self.height <= u32::MAX
    }

    /// The pixel lies in the region.
    pub open spec fn covers(self, px: int, py: int) -> bool {
        self.x <= px < self.x + self.width && self.y <= py < self.y + self.height
    }
}

proof fn lemma_area(width: u32, height: u32)
    ensures
        0 <= width * height <= u64::MAX,
{
    assert(0 <= width * height <= 0xffff_ffff * 0xffff_ffff) by (nonlinear_arith)
        requires
            0 <= width <= 0xffff_ffff,
            0 <= height <= 0xffff_ffff,
    ;
}

/// A part of a picture, for the codec. The far edges of a part that changed belong to it; the
/// region of a whole picture has the picture's size in their place.
#[derive(Debug, Clone, Copy, PartialEq, Eq, Structural)]
pub struct Avc420Region {
    pub left: u16,
    pub top: u16,
    pub right: u16,
    pub bottom: u16,
    pub quantization_parameter: u8,
    pub quality: u8,
}

impl Avc420Region {
    /// The region of a whole picture.
    pub open spec fn whole(width: u16, height: u16) -> Self {
        Avc420Region {
            left: 0,
            top: 0,
            right: width,
            bottom: height,
            quantization_parameter: REGION_QP,
            quality: REGION_QUALITY,
        }
    }

    /// The pixel lies in the part, far edges included.
    pub open spec fn covers(self, px: int, py: int) -> bool {
        self.left <= px <= self.right && self.top <= py <= self.bottom
    }
}

/// `ironrdp_egfx::pdu::Avc420Region::full_frame`: a region from the origin to the given size,
/// with the given quantizer and the best quality.
#[verifier::external_body]
fn full_frame_region(width: u16, height: u16, qp: u8) -> (r: Avc420Region)
    ensures
        r == (Avc420Region {
            left: 0,
            top: 0,
            right: width,
            bottom: height,
            quantization_parameter: qp,
            quality: 100,
        }),
{
    let region = PduRegion::full_frame(width, height, qp);
    Avc420Region {
        left: region.left,
        top: region.top,
        right: region.right,
        bottom: region.bottom,
        quantization_parameter: region.quantization_parameter,
        quality: region.quality,
    }
}

fn whole_frame(width: u16, height: u16) -> (r: Vec<Avc420Region>)
    ensures
        r@ == seq![Avc420Region::whole(width, height)],
{
    let mut r: Vec<Avc420Region> = Vec::new();
    r.push(full_frame_region(width, height, REGION_QP));
    r
}

/// The smaller number.
pub open spec fn least(a: int, b: int) -> int {
    if a < b {
        a
    } else {
        b
    }
}

/// The last pixel before `end`, where there is one.
pub open spec fn last_before(end: int) -> int {
    if end > 0 {
        end - 1
    } else {
        0
    }
}

/// The codec's region for a changed part, cut to the display; none where nothing of it is
/// left.
pub open spec fn region_of(r: DamageRegion, width: u16, height: u16) -> Option<Avc420Region> {
    let left = least(r.x as int, width as int);
    let top = least(r.y as int, height as int);
    let right = last_before(least(r.x + r.width, width as int));
    let bottom = last_before(least(r.y + r.height, height as int));
    if right < left || bottom < top {
        None
    } else {
        Some(
            Avc420Region {
                left: left as u16,
                top: top as u16,
                right: right as u16,
                bottom: bottom as u16,
                quantization_parameter: REGION_QP,
                quality: REGION_QUALITY,
            },
        )
    }
}

/// The codec's regions for the changed parts, in their order.
pub open spec fn regions_of(rs: Seq<DamageRegion>, width: u16, height: u16) -> Seq<Avc420Region>
    decreases rs.len(),
{
    if rs.len() == 0 {
        seq![]
    } else {
        let before = regions_of(rs.drop_last(), width, height);
        match region_of(rs.last(), width, height) {
            Some(r) => before.push(r),
            None => before,
        }
    }
}

/// Every region's far edges are numbers.
pub open spec fn all_wf(rs: Seq<DamageRegion>) -> bool {
    forall|i: int| 0 <= i < rs.len() ==> (#[trigger] rs[i]).wf()
}

fn cut(from: u32, size: u32, limit: u16) -> (r: (u16, u16))
    requires
        from + size <= u32::MAX,
    ensures
        r.0 == least(from as int, limit as int),
        r.1 == last_before(least(from + size, limit as int)),
{
    let first: u16 = if from < limit as u32 {
        from as u16
    } else {
        limit
    };
    let end: u16 = if from + size < limit as u32 {
        (from + size) as u16
    } else {
        limit
    };
    (first, end.saturating_sub(1))
}

/// The codec's regions for the changed parts, each cut to the display.
pub fn damage_regions_to_avc420(
    regions: &Vec<DamageRegion>,
    display_width: u16,
    display_height: u16,
) -> (r: Vec<Avc420Region>)
    requires
        all_wf(regions@),
    ensures
        r@ == regions_of(regions@, display_width, display_height),
{
    let mut r: Vec<Avc420Region> = Vec::new();
    let mut i: usize = 0;
    while i < regions.len()
        invariant
            i <= regions@.len(),
            all_wf(regions@),
            r@ == regions_of(regions@.take(i as int), display_width, display_height),
        decreases regions@.len() - i,
    {
        let region: DamageRegion = regions[i];
        assert(region.wf());
        let (left, right) = cut(region.x, region.width, display_width);
        let (top, bottom) = cut(region.y, region.height, display_height);
        assert(regions@.take(i + 1).drop_last() =~= regions@.take(i as int));
        if right >= left && bottom >= top {
            r.push(
                Avc420Region {
                    left,
                    top,
                    right,
                    bottom,
                    quantization_parameter: REGION_QP,
                    quality: REGION_QUALITY,
                },
            );
        }
        i += 1;
    }
    assert(regions@.take(i as int) =~= regions@);
    r
}

/// What to send a picture with: the changed parts cut to the display, or the whole encoded
/// picture where no part is named.
pub open spec fn picture_regions(
    damage: Seq<DamageRegion>,
    encoded: (u16, u16),
    display: (u16, u16),
) -> Seq<Avc420Region> {
    let (encoded_width, encoded_height) = encoded;
    let (display_width, display_height) = display;
    if damage.len() == 0 {
        seq![Avc420Region::whole(encoded_width, encoded_height)]
    } else {
        regions_of(damage, display_width, display_height)
    }
}

fn regions_for(damage: &Vec<DamageRegion>, encoded: (u16, u16), display: (u16, u16)) -> (r: Vec<
    Avc420Region,
>)
    requires
        all_wf(damage@),
    ensures
        r@ == picture_regions(damage@, encoded, display),
{
    let (encoded_width, encoded_height) = encoded;
    let (display_width, display_height) = display;
    if damage.len() == 0 {
        whole_frame(encoded_width, encoded_height)
    } else {
        damage_regions_to_avc420(damage, display_width, display_height)
    }
}

/// What to hand to the graphics server.
#[derive(Debug)]
pub enum FrameRequest {
    Avc420 { surface_id: u16, data: Vec<u8>, regions: Vec<Avc420Region>, timestamp_ms: u32 },
    Avc444 {
        surface_id: u16,
        luma: Vec<u8>,
        luma_regions: Vec<Avc420Region>,
        chroma: Option<Vec<u8>>,
        /// The regions of the second stream, which are those of the first.
        chroma_regions: Option<Vec<Avc420Region>>,
        timestamp_ms: u32,
    },
    Planar { surface_id: u16, data: Vec<u8>, width: u16, height: u16, timestamp_ms: u32 },
    Uncompressed { surface_id: u16, data: Vec<u8>, width: u16, height: u16, timestamp_ms: u32 },
}

/// What became of the messages of a frame.
#[derive(Debug)]
pub enum Delivery {
    /// The server had nothing to say.
    NoMessages,
    /// The messages could not be encoded.
    EncodeFailed(String),
    /// The messages were handed to the connection.
    Delivered,
    /// The connection is gone.
    Closed,
}

/// What the graphics server made of a request.
#[derive(Debug)]
pub enum ServerReply {
    /// The server's lock could not be taken.
    LockFailed,
    /// The server has no channel yet.
    NoChannel,
    /// Too many frames are unacknowledged.
    Refused,
    /// The frame was taken.
    Queued { frame_id: u32, delivery: Delivery },
}

/// The surface to draw on, or why there is none.
pub open spec fn surface_for(state: Option<HandlerState>, needs_h264: bool) -> Result<u16, SendError> {
    match state {
        None => Err(SendError::NotReady),
        Some(s) => if !s.is_ready {
            Err(SendError::NotReady)
        } else if needs_h264 && !s.is_avc420_enabled {
            Err(SendError::Avc420NotSupported)
        } else {
            match s.primary_surface_id {
                Some(id) => Ok(id),
                None => Err(SendError::NoSurface),
            }
        },
    }
}

fn find_surface(state: &Option<HandlerState>, needs_h264: bool) -> (r: Result<u16, SendError>)
    ensures
        r == surface_for(*state, needs_h264),
{
    match state {
        None => Err(SendError::NotReady),
        Some(s) => if !s.is_ready {
            Err(SendError::NotReady)
        } else if needs_h264 && !s.is_avc420_enabled {
            Err(SendError::Avc420NotSupported)
        } else {
            match s.primary_surface_id {
                Some(id) => Ok(id),
                None => Err(SendError::NoSurface),
            }
        },
    }
}

/// What the caller of a send gets for the server's reply.
pub open spec fn outcome(reply: ServerReply) -> Result<u32, SendError> {
    match reply {
        ServerReply::LockFailed => Err(SendError::LockFailed),
        ServerReply::NoChannel => Err(SendError::NotReady),
        ServerReply::Refused => Err(SendError::Backpressure),
        ServerReply::Queued { frame_id, delivery } => match delivery {
            Delivery::NoMessages | Delivery::Delivered => Ok(frame_id),
            Delivery::EncodeFailed(e) => Err(SendError::EncodingFailed(e)),
            Delivery::Closed => Err(SendError::ChannelClosed),
        },
    }
}

/// Why a picture could not be encoded as planes.
#[derive(Debug, Clone, Copy, PartialEq, Eq, Structural)]
pub enum PlanarError {
    /// A plane could not be compressed.
    Compress,
    /// The header could not be written.
    Header,
}

impl PlanarError {
    /// The error in words.
    pub open spec fn text(self) -> Seq<char> {
        match self {
            PlanarError::Compress => "Planar encode: failed to rle compress"@,
            PlanarError::Header => "Planar encode: failed to encode pdu"@,
        }
    }

    fn to_text(&self) -> (r: String)
        ensures
            r@ == self.text(),
    {
        match self {
            PlanarError::Compress => "Planar encode: failed to rle compress".to_owned(),
            PlanarError::Header => "Planar encode: failed to encode pdu".to_owned(),
        }
    }
}

/// The planes of a picture with four bytes to a pixel, run length encoded into at most `room`
/// bytes, as `ironrdp_graphics` writes them.
pub uninterp spec fn planar_stream(
    width: nat,
    height: nat,
    pixels: Seq<u8>,
    room: nat,
) -> Result<Seq<u8>, PlanarError>;

/// `ironrdp_graphics::rdp6::BitmapStreamEncoder::encode_bitmap` with run length encoding, on an
/// encoder that was made for the given size. It writes to the front of the buffer and returns
/// how many bytes that were.
#[verifier::external_body]
fn encode_planes(width: usize, height: usize, pixels: &Vec<u8>, buffer: &mut Vec<u8>) -> (r: Result<
    usize,
    PlanarError,
>)
    ensures
        final(buffer)@.len() == old(buffer)@.len(),
        match r {
            Ok(n) => n <= final(buffer)@.len() && planar_stream(
                width as nat,
                height as nat,
                pixels@,
                old(buffer)@.len(),
            ) == Ok::<Seq<u8>, PlanarError>(final(buffer)@.take(n as int)),
            Err(e) => planar_stream(width as nat, height as nat, pixels@, old(buffer)@.len())
                == Err::<Seq<u8>, PlanarError>(e),
        },
{
    match BitmapStreamEncoder::new(width, height).encode_bitmap::<BgrAChannels>(
        pixels,
        buffer,
        true,
    ) {
        Ok(n) => Ok(n),
        Err(BitmapEncodeError::Rle(_)) => Err(PlanarError::Compress),
        Err(BitmapEncodeError::Encode(_)) => Err(PlanarError::Header),
    }
}

/// The room that a picture is encoded into.
pub open spec fn planar_room(width: u16, height: u16) -> nat {
    (width * height * 4 + PLANAR_SLACK) as nat
}

/// Sends frames over the graphics channel of one connection.
#[derive(Debug)]
pub struct EgfxFrameSender {
    pub frame_count: u64,
}

impl EgfxFrameSender {
    /// A sender that sent nothing yet.
    pub fn new() -> (r: Self)
        ensures
            r.frame_count == 0,
    {
        EgfxFrameSender { frame_count: 0 }
    }

    /// Whether H.264 frames can be sent.
    pub fn is_ready(&self, state: &Option<HandlerState>) -> (r: bool)
        ensures
            r == takes_video(*state),
    {
        match state {
            Some(s) => s.is_ready && s.is_avc420_enabled,
            None => false,
        }
    }

    /// Whether frames of any kind can be sent.
    pub fn is_egfx_ready(&self, state: &Option<HandlerState>) -> (r: bool)
        ensures
            r == takes_pictures(*state),
    {
        match state {
            Some(s) => s.is_ready,
            None => false,
        }
    }

    /// The surface that frames are sent to.
    pub fn primary_surface_id(&self, state: &Option<HandlerState>) -> (r: Option<u16>)
        ensures
            r == known_surface(*state),
    {
        match state {
            Some(s) => s.primary_surface_id,
            None => None,
        }
    }

    /// Whether full colour frames can be sent, which is so where H.264 frames can.
    pub fn is_avc444_supported(&self, state: &Option<HandlerState>) -> (r: bool)
        ensures
            r == takes_video(*state),
    {
        self.is_ready(state)
    }

    /// The number of frames that were sent.
    pub fn frames_sent(&self) -> (r: u64)
        ensures
            r == self.frame_count,
    {
        self.frame_count
    }

    /// What to hand to the server for an H.264 frame that changed everywhere.
    pub fn send_frame(
        &self,
        state: &Option<HandlerState>,
        h264_data: Vec<u8>,
        display_width: u16,
        display_height: u16,
        timestamp_ms: u32,
    ) -> (r: Result<FrameRequest, SendError>)
        ensures
            match surface_for(*state, true) {
                Err(e) => r == Err::<FrameRequest, SendError>(e),
                Ok(id) => r matches Ok(
                    FrameRequest::Avc420 { surface_id, data, regions, timestamp_ms: stamp },
                ) && surface_id == id && data == h264_data && regions@ == seq![
                    Avc420Region::whole(display_width, display_height),
                ] && stamp == timestamp_ms,
            },
    {
        match find_surface(state, true) {
            Err(e) => Err(e),
            Ok(surface_id) => Ok(
                FrameRequest::Avc420 {
                    surface_id,
                    data: h264_data,
                    regions: whole_frame(display_width, display_height),
                    timestamp_ms,
                },
            ),
        }
    }

    /// What to hand to the server for a full colour frame that changed everywhere.
    pub fn send_avc444_frame(
        &self,
        state: &Option<HandlerState>,
        stream1_data: Vec<u8>,
        stream2_data: Vec<u8>,
        display_width: u16,
        display_height: u16,
        timestamp_ms: u32,
    ) -> (r: Result<FrameRequest, SendError>)
        ensures
            match surface_for(*state, true) {
                Err(e) => r == Err::<FrameRequest, SendError>(e),
                Ok(id) => r matches Ok(
                    FrameRequest::Avc444 {
                        surface_id,
                        luma,
                        luma_regions,
                        chroma: Some(chroma),
                        chroma_regions: Some(chroma_regions),
                        timestamp_ms: stamp,
                    },
                ) && surface_id == id && luma == stream1_data && chroma == stream2_data
                    && luma_regions@ == seq![Avc420Region::whole(display_width, display_height)]
                    && chroma_regions@ == luma_regions@ && stamp == timestamp_ms,
            },
    {
        match find_surface(state, true) {
            Err(e) => Err(e),
            Ok(surface_id) => Ok(
                FrameRequest::Avc444 {
                    surface_id,
                    luma: stream1_data,
                    luma_regions: whole_frame(display_width, display_height),
                    chroma: Some(stream2_data),
                    chroma_regions: Some(whole_frame(display_width, display_height)),
                    timestamp_ms,
                },
            ),
        }
    }

    /// What to hand to the server for an H.264 frame that changed in some parts.
    pub fn send_frame_with_regions(
        &self,
        state: &Option<HandlerState>,
        h264_data: Vec<u8>,
        encoded: (u16, u16),
        display: (u16, u16),
        damage_regions: &Vec<DamageRegion>,
        timestamp_ms: u32,
    ) -> (r: Result<FrameRequest, SendError>)
        requires
            all_wf(damage_regions@),
        ensures
            match surface_for(*state, true) {
                Err(e) => r == Err::<FrameRequest, SendError>(e),
                Ok(id) => r matches Ok(
                    FrameRequest::Avc420 { surface_id, data, regions, timestamp_ms: stamp },
                ) && surface_id == id && data == h264_data && regions@ == picture_regions(
                    damage_regions@,
                    encoded,
                    display,
                ) && stamp == timestamp_ms,
            },
    {
        match find_surface(state, true) {
            Err(e) => Err(e),
            Ok(surface_id) => Ok(
                FrameRequest::Avc420 {
                    surface_id,
                    data: h264_data,
                    regions: regions_for(damage_regions, encoded, display),
                    timestamp_ms,
                },
            ),
        }
    }

    /// What to hand to the server for a full colour frame that changed in some parts. The
    /// second stream may be left out.
    pub fn send_avc444_frame_with_regions(
        &self,
        state: &Option<HandlerState>,
        stream1_data: Vec<u8>,
        stream2_data: Option<Vec<u8>>,
        encoded: (u16, u16),
        display: (u16, u16),
        damage_regions: &Vec<DamageRegion>,
        timestamp_ms: u32,
    ) -> (r: Result<FrameRequest, SendError>)
        requires
            all_wf(damage_regions@),
        ensures
            match surface_for(*state, true) {
                Err(e) => r == Err::<FrameRequest, SendError>(e),
                Ok(id) => r matches Ok(
                    FrameRequest::Avc444 {
                        surface_id,
                        luma,
                        luma_regions,
                        chroma,
                        chroma_regions,
                        timestamp_ms: stamp,
                    },
                ) && surface_id == id && luma == stream1_data && chroma == stream2_data
                    && luma_regions@ == picture_regions(damage_regions@, encoded, display) && (
                match chroma_regions {
                    Some(rs) => stream2_data is Some && rs@ == luma_regions@,
                    None => stream2_data is None,
                }) && stamp == timestamp_ms,
            },
    {
        match find_surface(state, true) {
            Err(e) => Err(e),
            Ok(surface_id) => {
                let chroma_regions: Option<Vec<Avc420Region>> = match stream2_data {
                    Some(_) => Some(regions_for(damage_regions, encoded, display)),
                    None => None,
                };
                Ok(
                    FrameRequest::Avc444 {
                        surface_id,
                        luma: stream1_data,
                        luma_regions: regions_for(damage_regions, encoded, display),
                        chroma: stream2_data,
                        chroma_regions,
                        timestamp_ms,
                    },
                )
            },
        }
    }

    /// What to hand to the server for a picture that was encoded as planes.
    pub fn planes_encoded(
        &self,
        state: &Option<HandlerState>,
        encoded: Result<Vec<u8>, PlanarError>,
        display_width: u16,
        display_height: u16,
        timestamp_ms: u32,
    ) -> (r: Result<FrameRequest, SendError>)
        ensures
            match surface_for(*state, false) {
                Err(e) => r == Err::<FrameRequest, SendError>(e),
                Ok(id) => match encoded {
                    Err(e) => r matches Err(SendError::EncodingFailed(t)) && t@ == e.text(),
                    Ok(stream) => r == Ok::<FrameRequest, SendError>(
                        FrameRequest::Planar {
                            surface_id: id,
                            data: stream,
                            width: display_width,
                            height: display_height,
                            timestamp_ms,
                        },
                    ),
                },
            },
    {
        match find_surface(state, false) {
            Err(e) => Err(e),
            Ok(surface_id) => match encoded {
                Err(e) => Err(SendError::EncodingFailed(e.to_text())),
                Ok(data) => Ok(
                    FrameRequest::Planar {
                        surface_id,
                        data,
                        width: display_width,
                        height: display_height,
                        timestamp_ms,
                    },
                ),
            },
        }
    }

    /// What to hand to the server for a picture that is encoded as planes.
    pub fn send_planar_frame(
        &self,
        state: &Option<HandlerState>,
        bitmap_width: u16,
        bitmap_height: u16,
        pixels: &Vec<u8>,
        display_width: u16,
        display_height: u16,
        timestamp_ms: u32,
    ) -> (r: Result<FrameRequest, SendError>)
        requires
            planar_room(bitmap_width, bitmap_height) <= usize::MAX,
        ensures
            match surface_for(*state, false) {
                Err(e) => r == Err::<FrameRequest, SendError>(e),
                Ok(id) => match planar_stream(
                    bitmap_width as nat,
                    bitmap_height as nat,
                    pixels@,
                    planar_room(bitmap_width, bitmap_height),
                ) {
                    Err(e) => r matches Err(SendError::EncodingFailed(t)) && t@ == e.text(),
                    Ok(stream) => r matches Ok(
                        FrameRequest::Planar {
                            surface_id,
                            data,
                            width,
                            height,
                            timestamp_ms: stamp,
                        },
                    ) && surface_id == id && data@ == stream && width == display_width && height
                        == display_height && stamp == timestamp_ms,
                },
            },
    {
        if let Err(e) = find_surface(state, false) {
            return Err(e);
        }
        proof {
            lemma_planar_room(bitmap_width, bitmap_height);
        }
        let width: usize = bitmap_width as usize;
        let height: usize = bitmap_height as usize;
        let room: usize = width * height * 4 + PLANAR_SLACK;
        let mut buffer: Vec<u8> = vec![0u8; room];
        let encoded: Result<Vec<u8>, PlanarError> = match encode_planes(
            width,
            height,
            pixels,
            &mut buffer,
        ) {
            Ok(n) => {
                buffer.truncate(n);
                Ok(buffer)
            },
            Err(e) => Err(e),
        };
        self.planes_encoded(state, encoded, display_width, display_height, timestamp_ms)
    }

    /// What to hand to the server for a plain picture.
    pub fn send_uncompressed_frame(
        &self,
        state: &Option<HandlerState>,
        pixels: Vec<u8>,
        display_width: u16,
        display_height: u16,
        timestamp_ms: u32,
    ) -> (r: Result<FrameRequest, SendError>)
        ensures
            match surface_for(*state, false) {
                Err(e) => r == Err::<FrameRequest, SendError>(e),
                Ok(id) => r == Ok::<FrameRequest, SendError>(
                    FrameRequest::Uncompressed {
                        surface_id: id,
                        data: pixels,
                        width: display_width,
                        height: display_height,
                        timestamp_ms,
                    },
                ),
            },
    {
        match find_surface(state, false) {
            Err(e) => Err(e),
            Ok(surface_id) => Ok(
                FrameRequest::Uncompressed {
                    surface_id,
                    data: pixels,
                    width: display_width,
                    height: display_height,
                    timestamp_ms,
                },
            ),
        }
    }

    /// Takes what the server made of a request. Only a frame that went out is counted.
    pub fn finish(&mut self, reply: ServerReply) -> (r: Result<u32, SendError>)
        ensures
            r == outcome(reply),
            final(self).frame_count == if r is Ok {
                vstd::wrapping::u64_specs::wrapping_add(old(self).frame_count, 1)
            } else {
                old(self).frame_count
            },
    {
        match reply {
            ServerReply::LockFailed => Err(SendError::LockFailed),
            ServerReply::NoChannel => Err(SendError::NotReady),
            ServerReply::Refused => Err(SendError::Backpressure),
            ServerReply::Queued { frame_id, delivery } => match delivery {
                Delivery::EncodeFailed(e) => Err(SendError::EncodingFailed(e)),
                Delivery::Closed => Err(SendError::ChannelClosed),
                Delivery::NoMessages | Delivery::Delivered => {
                    self.frame_count = self.frame_count.wrapping_add(1);
                    Ok(frame_id)
                },
            },
        }
    }
}

proof fn lemma_planar_room(width: u16, height: u16)
    ensures
        0 <= width * height <= width * height * 4,
{
    assert(0 <= width * height <= width * height * 4) by (nonlinear_arith)
        requires
            0 <= width,
            0 <= height,
    ;
}

/// Where to write a frame for diagnostics: only the first few are written.
pub fn dump_path(dump_count: u32) -> (r: Option<String>)
    ensures
        match r {
            Some(path) => dump_count < DUMPED_FRAMES && path@ == "/tmp/rdp-frame-"@ + decimal(
                dump_count as nat,
            ) + ".h264"@,
            None => dump_count >= DUMPED_FRAMES,
        },
{
    if dump_count < DUMPED_FRAMES {
        let mut path = "/tmp/rdp-frame-".to_owned();
        path.append(number(dump_count as u64).as_str());
        path.append(".h264");
        Some(path)
    } else {
        None
    }
}

/// A changed part that is not empty covers, on a display that is not empty, exactly the
/// pixels of the display that its region covers.
pub proof fn regions_cover_damage(
    damage: DamageRegion,
    width: u16,
    height: u16,
    px: int,
    py: int,
)
    requires
        damage.wf(),
        damage.width > 0,
        damage.height > 0,
        width > 0,
        height > 0,
    ensures
        (damage.covers(px, py) && 0 <= px < width && 0 <= py < height) <==> (region_of(
            damage,
            width,
            height,
        ) matches Some(r) && r.covers(px, py)),
{
}

/// Every region that is sent for changed parts lies on the display, where there is one.
pub proof fn regions_stay_on_display(damage: Seq<DamageRegion>, width: u16, height: u16, i: int)
    requires
        width > 0,
        height > 0,
        0 <= i < regions_of(damage, width, height).len(),
    ensures
        ({
            let r = regions_of(damage, width, height)[i];
            r.left <= r.right < width && r.top <= r.bottom < height
        }),
    decreases damage.len(),
{
    if damage.len() > 0 && i < regions_of(damage.drop_last(), width, height).len() {
        regions_stay_on_display(damage.drop_last(), width, height, i);
    }
}

/// No frame goes out on a channel that is not negotiated, and no H.264 frame to a client that
/// does not decode it.
pub proof fn frames_need_negotiation(state: Option<HandlerState>, needs_h264: bool)
    requires
        surface_for(state, needs_h264) is Ok,
    ensures
        state matches Some(s) && s.is_ready && s.primary_surface_id is Some && (needs_h264
            ==> s.is_avc420_enabled),
{
}

/// A changed part that is not empty and begins on the display gets one region. It begins where
/// the part does, and ends where the part does or at the edge of the display, whichever comes
/// first.
pub proof fn parts_are_cut_to_the_display(part: DamageRegion, width: u16, height: u16)
    requires
        part.wf(),
        part.width > 0,
        part.height > 0,
        part.x < width,
        part.y < height,
    ensures
        regions_of(seq![part], width, height).len() == 1,
        ({
            let r = regions_of(seq![part], width, height)[0];
            &&& r.left == part.x
            &&& r.top == part.y
            &&& r.right + 1 <= part.x + part.width
            &&& r.right + 1 <= width
            &&& r.right + 1 == part.x + part.width || r.right + 1 == width
            &&& r.bottom + 1 <= part.y + part.height
            &&& r.bottom + 1 <= height
            &&& r.bottom + 1 == part.y + part.height || r.bottom + 1 == height
            &&& r.quantization_parameter == 22
            &&& r.quality == 100
        }),
{
    reveal_with_fuel(regions_of, 2);
    assert(seq![part].drop_last() =~= Seq::<DamageRegion>::empty());
}

/// A changed part that begins beyond the display gets no region.
pub proof fn parts_beyond_the_display_are_left_out(part: DamageRegion, width: u16, height: u16)
    requires
        part.wf(),
        width > 0,
        height > 0,
        part.x >= width || part.y >= height,
    ensures
        regions_of(seq![part], width, height).len() == 0,
{
    reveal_with_fuel(regions_of, 2);
    assert(seq![part].drop_last() =~= Seq::<DamageRegion>::empty());
}

/// The regions of two lists of changed parts, taken together, are those of the one followed by
/// those of the other: how many parts there are and what else changed makes no difference to a
/// part.
pub proof fn parts_do_not_depend_on_each_other(
    first: Seq<DamageRegion>,
    second: Seq<DamageRegion>,
    width: u16,
    height: u16,
)
    ensures
        regions_of(first + second, width, height) == regions_of(first, width, height) + regions_of(
            second,
            width,
            height,
        ),
    decreases second.len(),
{
    if second.len() == 0 {
        assert(first + second =~= first);
        assert(regions_of(first, width, height) + regions_of(second, width, height) =~= regions_of(
            first,
            width,
            height,
        ));
    } else {
        parts_do_not_depend_on_each_other(first, second.drop_last(), width, height);
        assert((first + second).drop_last() =~= first + second.drop_last());
        assert((first + second).last() == second.last());
        assert(regions_of(first + second, width, height) =~= regions_of(first, width, height)
            + regions_of(second, width, height));
    }
}

/// Every changed part that is not empty and begins on the display has a region of its own,
/// between those of the parts before it and those of the parts after it. It covers a pixel
/// exactly if the part does and the pixel lies on the display.
pub proof fn every_part_has_its_own_region(
    damage: Seq<DamageRegion>,
    i: int,
    width: u16,
    height: u16,
    px: int,
    py: int,
)
    requires
        all_wf(damage),
        0 <= i < damage.len(),
        damage[i].width > 0,
        damage[i].height > 0,
        damage[i].x < width,
        damage[i].y < height,
    ensures
        ({
            let before = regions_of(damage.take(i), width, height);
            let after = regions_of(damage.skip(i + 1), width, height);
            let all = regions_of(damage, width, height);
            &&& all.len() == before.len() + 1 + after.len()
            &&& all.take(before.len() as int) == before
            &&& all.skip(before.len() as int + 1) == after
            &&& all[before.len() as int].left == damage[i].x
            &&& all[before.len() as int].top == damage[i].y
            &&& (all[before.len() as int].left <= px <= all[before.len() as int].right
                && all[before.len() as int].top <= py <= all[before.len() as int].bottom) <==> (
            damage[i].x <= px < damage[i].x + damage[i].width && px < width && damage[i].y <= py
                < damage[i].y + damage[i].height && py < height)
        }),
{
    let part = damage[i];
    let before = damage.take(i);
    let after = damage.skip(i + 1);
    assert(damage =~= before + (seq![part] + after));
    parts_do_not_depend_on_each_other(before, seq![part] + after, width, height);
    parts_do_not_depend_on_each_other(seq![part], after, width, height);
    parts_are_cut_to_the_display(part, width, height);
    let all = regions_of(damage, width, height);
    let b = regions_of(before, width, height);
    assert(all.take(b.len() as int) =~= b);
    assert(all.skip(b.len() as int + 1) =~= regions_of(after, width, height));
}

/// Every pixel of the display that changed is sent: where one of the changed parts covers it,
/// one of the regions does.
pub proof fn every_changed_pixel_is_sent(
    damage: Seq<DamageRegion>,
    i: int,
    width: u16,
    height: u16,
    px: int,
    py: int,
)
    requires
        all_wf(damage),
        0 <= i < damage.len(),
        damage[i].x <= px < damage[i].x + damage[i].width,
        damage[i].y <= py < damage[i].y + damage[i].height,
        px < width,
        py < height,
    ensures
        exists|j: int|
            {
                &&& 0 <= j < regions_of(damage, width, height).len()
                &&& (#[trigger] regions_of(damage, width, height)[j]).left <= px
                &&& px <= regions_of(damage, width, height)[j].right
                &&& regions_of(damage, width, height)[j].top <= py
                &&& py <= regions_of(damage, width, height)[j].bottom
            },
{
    every_part_has_its_own_region(damage, i, width, height, px, py);
    let j = regions_of(damage.take(i), width, height).len() as int;
    assert(regions_of(damage, width, height)[j].left <= px);
}

/// Nothing is sent that did not change: where all changed parts are of some size, a pixel that
/// a region covers is one of the display that a changed part covers.
pub proof fn only_changed_pixels_are_sent(
    damage: Seq<DamageRegion>,
    width: u16,
    height: u16,
    j: int,
    px: int,
    py: int,
)
    requires
        all_wf(damage),
        forall|k: int|
            0 <= k < damage.len() ==> (#[trigger] damage[k]).width > 0 && damage[k].height > 0,
        width > 0,
        height > 0,
        0 <= j < regions_of(damage, width, height).len(),
        regions_of(damage, width, height)[j].left <= px <= regions_of(
            damage,
            width,
            height,
        )[j].right,
        regions_of(damage, width, height)[j].top <= py <= regions_of(
            damage,
            width,
            height,
        )[j].bottom,
    ensures
        px < width,
        py < height,
        exists|i: int|
            {
                &&& 0 <= i < damage.len()
                &&& (#[trigger] damage[i]).x <= px < damage[i].x + damage[i].width
                &&& damage[i].y <= py < damage[i].y + damage[i].height
            },
    decreases damage.len(),
{
    if damage.len() > 0 {
        let rest = damage.drop_last();
        assert forall|k: int| 0 <= k < rest.len() implies (#[trigger] rest[k]).width > 0
            && rest[k].height > 0 && rest[k].wf() by {
            assert(rest[k] == damage[k]);
        }
        if j < regions_of(rest, width, height).len() {
            assert(regions_of(damage, width, height)[j] == regions_of(rest, width, height)[j]);
            only_changed_pixels_are_sent(rest, width, height, j, px, py);
            let i = choose|i: int|
                {
                    &&& 0 <= i < rest.len()
                    &&& (#[trigger] rest[i]).x <= px < rest[i].x + rest[i].width
                    &&& rest[i].y <= py < rest[i].y + rest[i].height
                };
            assert(damage[i] == rest[i]);
        } else {
            assert(damage[damage.len() - 1].wf());
            assert(damage[damage.len() - 1].x <= px);
        }
    }
}

/// A picture without a named change is sent as a whole: from the origin to its encoded size.
/// Else the changed parts decide, whatever the encoded size is.
pub proof fn unnamed_changes_mean_the_whole_picture(
    damage: Seq<DamageRegion>,
    encoded: (u16, u16),
    display: (u16, u16),
)
    ensures
        damage.len() == 0 ==> {
            &&& picture_regions(damage, encoded, display).len() == 1
            &&& picture_regions(damage, encoded, display)[0].left == 0
            &&& picture_regions(damage, encoded, display)[0].top == 0
            &&& picture_regions(damage, encoded, display)[0].right == encoded.0
            &&& picture_regions(damage, encoded, display)[0].bottom == encoded.1
            &&& picture_regions(damage, encoded, display)[0].quantization_parameter == 22
            &&& picture_regions(damage, encoded, display)[0].quality == 100
        },
        damage.len() > 0 ==> picture_regions(damage, encoded, display) == regions_of(
            damage,
            display.0,
            display.1,
        ),
{
}

/// A frame goes to the client's surface exactly where the channel is negotiated, there is a
/// surface, and the client decodes what it is sent. Else the first of these that is missing is
/// the reason.
pub proof fn negotiated_frames_go_to_the_surface(
    state: Option<HandlerState>,
    needs_h264: bool,
    id: u16,
)
    ensures
        surface_for(state, needs_h264) == Ok::<u16, SendError>(id) <==> (state matches Some(s)
            && s.is_ready && (s.is_avc420_enabled || !needs_h264) && s.primary_surface_id == Some(
            id,
        )),
        surface_for(state, needs_h264) == Err::<u16, SendError>(SendError::NotReady) <==> (
        state matches Some(s) ==> !s.is_ready),
        surface_for(state, needs_h264) == Err::<u16, SendError>(SendError::Avc420NotSupported)
            <==> (state matches Some(s) && s.is_ready && needs_h264 && !s.is_avc420_enabled),
        surface_for(state, needs_h264) == Err::<u16, SendError>(SendError::NoSurface) <==> (
        state matches Some(s) && s.is_ready && (s.is_avc420_enabled || !needs_h264)
            && s.primary_surface_id is None),
{
}

/// A client that takes H.264 frames takes plain pictures too, on the same surface.
pub proof fn plain_pictures_ask_for_less(state: Option<HandlerState>)
    ensures
        surface_for(state, true) is Ok ==> surface_for(state, false) == surface_for(state, true),
{
}

/// A send succeeds exactly where the server took the frame and its messages got through, and
/// then gives the number that the server gave the frame. A frame that the server had no room
/// for is reported as such.
pub proof fn sends_report_what_became_of_the_frame(reply: ServerReply, id: u32)
    ensures
        outcome(reply) == Ok::<u32, SendError>(id) <==> (reply matches ServerReply::Queued {
            frame_id,
            delivery,
        } && frame_id == id && (delivery is Delivered || delivery is NoMessages)),
        outcome(reply) == Err::<u32, SendError>(SendError::Backpressure) <==> reply is Refused,
        outcome(reply) == Err::<u32, SendError>(SendError::NotReady) <==> reply is NoChannel,
        outcome(reply) == Err::<u32, SendError>(SendError::LockFailed) <==> reply is LockFailed,
        outcome(reply) == Err::<u32, SendError>(SendError::ChannelClosed) <==> (
        reply matches ServerReply::Queued { delivery, .. } && delivery is Closed),
        reply matches ServerReply::Queued { delivery: Delivery::EncodeFailed(e), .. } ==> outcome(
            reply,
        ) == Err::<u32, SendError>(SendError::EncodingFailed(e)),
{
}

/// A picture of a size is encoded into room for its four bytes a pixel and one kilobyte more.
pub proof fn pictures_fit_their_room(width: u16, height: u16)
    ensures
        planar_room(width, height) == 4 * (width * height) + 1024,
{
}

/// Whether a client takes H.264 frames.
pub open spec fn takes_video(state: Option<HandlerState>) -> bool {
    state matches Some(s) && s.is_ready && s.is_avc420_enabled
}

/// Whether a client takes frames of any kind.
pub open spec fn takes_pictures(state: Option<HandlerState>) -> bool {
    state matches Some(s) && s.is_ready
}

/// The surface that frames are sent to, as far as it is known.
pub open spec fn known_surface(state: Option<HandlerState>) -> Option<u16> {
    match state {
        Some(s) => s.primary_surface_id,
        None => None,
    }
}

/// A channel that nothing is known of takes nothing. A client that takes video takes plain
/// pictures too; one that takes pictures takes video only where it decodes it.
pub proof fn video_needs_more_than_pictures(state: Option<HandlerState>)
    ensures
        state is None ==> !takes_pictures(state) && known_surface(state) is None,
        takes_video(state) ==> takes_pictures(state),
        state is Some ==> (takes_pictures(state) <==> state->0.is_ready),
        state is Some && state->0.is_ready ==> (takes_video(state) <==> state->0.is_avc420_enabled),
        state is Some ==> known_surface(state) == state->0.primary_surface_id,
{
}

/// A frame is accepted for sending exactly where the client takes its kind and has a surface.
pub proof fn frames_go_where_they_are_taken(state: Option<HandlerState>)
    ensures
        surface_for(state, true) is Ok <==> takes_video(state) && known_surface(state) is Some,
        surface_for(state, true) is Ok ==> known_surface(state) == Some(surface_for(state, true)->Ok_0),
        surface_for(state, false) is Ok <==> takes_pictures(state) && known_surface(state) is Some,
        surface_for(state, false) is Ok ==> known_surface(state) == Some(
            surface_for(state, false)->Ok_0,
        ),
{
}

/// The whole picture holds every pixel of it and begins at its corner.
pub proof fn whole_pictures_hold_every_pixel(width: u32, height: u32, px: int, py: int)
    ensures
        ({
            let all = DamageRegion::everything(width, height);
            &&& all.pixels() == width * height
            &&& (all.x <= px < all.x + all.width && all.y <= py < all.y + all.height) <==> (0 <= px
                < width && 0 <= py < height)
        }),
{
}

} // verus!
