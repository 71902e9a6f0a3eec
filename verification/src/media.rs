//! The GStreamer pipeline descriptions of the host: the capture source, the
//! H.264 encoder and the whole chain from the capture to WebRTC, and the local
//! preview.
use vstd::prelude::*;

use crate::cli::{EncoderArg, ServeArgs, SourceArg};
use crate::portal::CaptureInfo;
use crate::protocol::ServerMessage;
use crate::text::{decimal, push_decimal, push_signed_decimal, push_text, same_text_outcome, signed_decimal};

verus! {

/// Whether the host encodes with NVENC: when asked to, or by default when the
/// NVENC element is available.
pub open spec fn wants_nvenc(encoder: EncoderArg, nvenc_available: bool) -> bool {
    match encoder {
        EncoderArg::Nvenc => true,
        EncoderArg::X264 => false,
        EncoderArg::Auto => nvenc_available,
    }
}

/// The name of the encoder that the host selects.
pub open spec fn spec_encoder_name(encoder: EncoderArg, nvenc_available: bool) -> Seq<char> {
    if wants_nvenc(encoder, nvenc_available) {
        "nvenc"@
    } else {
        "x264"@
    }
}

/// The name of the encoder that the host selects: `nvenc` or `x264`.
pub fn encoder_name(config: &ServeArgs, nvenc_available: bool) -> (name: &'static str)
    ensures
        name@ == spec_encoder_name(config.encoder, nvenc_available),
{
    match config.encoder {
        EncoderArg::Nvenc => "nvenc",
        EncoderArg::X264 => "x264",
        EncoderArg::Auto => if nvenc_available {
            "nvenc"
        } else {
            "x264"
        },
    }
}

/// The NVENC element with its low-latency settings at this bitrate and key-frame interval.
pub open spec fn nvenc_description(bitrate_kbps: u32, fps: u32) -> Seq<char> {
    "nvh264enc preset=p1 tune=ultra-low-latency zerolatency=true rc-mode=cbr bitrate="@ + decimal(
        bitrate_kbps as nat,
    ) + " gop-size="@ + decimal(fps as nat)
        + " bframes=0 rc-lookahead=0 multi-pass=disabled cabac=false aud=true repeat-sequence-header=true"@
}

/// The x264 element with its low-latency settings at this bitrate and key-frame interval.
pub open spec fn x264_description(bitrate_kbps: u32, fps: u32) -> Seq<char> {
    "x264enc tune=zerolatency speed-preset=ultrafast bitrate="@ + decimal(bitrate_kbps as nat) + " key-int-max="@
        + decimal(fps as nat)
        + " bframes=0 sliced-threads=true rc-lookahead=0 sync-lookahead=0 vbv-buf-capacity=50 byte-stream=false aud=true"@
}

/// The message for NVENC requested where it is unavailable.
pub open spec fn nvenc_unavailable_message() -> Seq<char> {
    "NVENC was requested but nvh264enc is unavailable; verify the GStreamer nvcodec plugin and NVIDIA driver"@
}

/// The encoder element of the pipeline, with the configured bitrate and a key
/// frame every `fps` frames.
pub open spec fn spec_encoder_description(config: ServeArgs, nvenc_available: bool) -> Result<Seq<char>, Seq<char>> {
    if wants_nvenc(config.encoder, nvenc_available) {
        if nvenc_available {
            Ok(nvenc_description(config.bitrate_kbps, config.fps))
        } else {
            Err(nvenc_unavailable_message())
        }
    } else {
        Ok(x264_description(config.bitrate_kbps, config.fps))
    }
}

/// Describes the encoder element of the pipeline.
pub fn encoder_description(config: &ServeArgs, nvenc_available: bool) -> (r: Result<String, String>)
    ensures
        same_text_outcome(r, spec_encoder_description(*config, nvenc_available)),
{
    let name = encoder_name(config, nvenc_available);
    let nvenc = match config.encoder {
        EncoderArg::Nvenc => true,
        EncoderArg::X264 => false,
        EncoderArg::Auto => nvenc_available,
    };
    if nvenc {
        if !nvenc_available {
            return Err(
                String::from_str(
                    "NVENC was requested but nvh264enc is unavailable; verify the GStreamer nvcodec plugin and NVIDIA driver",
                ),
            );
        }
        let mut d = String::from_str(
            "nvh264enc preset=p1 tune=ultra-low-latency zerolatency=true rc-mode=cbr bitrate=",
        );
        push_decimal(&mut d, config.bitrate_kbps as u64);
        push_text(&mut d, " gop-size=");
        push_decimal(&mut d, config.fps as u64);
        push_text(
            &mut d,
            " bframes=0 rc-lookahead=0 multi-pass=disabled cabac=false aud=true repeat-sequence-header=true",
        );
        assert(d@ =~= nvenc_description(config.bitrate_kbps, config.fps));
        Ok(d)
    } else {
        let mut d = String::from_str("x264enc tune=zerolatency speed-preset=ultrafast bitrate=");
        push_decimal(&mut d, config.bitrate_kbps as u64);
        push_text(&mut d, " key-int-max=");
        push_decimal(&mut d, config.fps as u64);
        push_text(
            &mut d,
            " bframes=0 sliced-threads=true rc-lookahead=0 sync-lookahead=0 vbv-buf-capacity=50 byte-stream=false aud=true",
        );
        assert(d@ =~= x264_description(config.bitrate_kbps, config.fps));
        Ok(d)
    }
}

/// The live test pattern source.
pub open spec fn test_source_description() -> Seq<char> {
    "videotestsrc pattern=ball is-live=true do-timestamp=true"@
}

/// The interval of PipeWire keep-alive buffers in milliseconds: one frame
/// period, at least one millisecond.
pub open spec fn keepalive_ms(fps: u32) -> nat {
    if 1000nat / (fps as nat) >= 1 {
        1000nat / (fps as nat)
    } else {
        1
    }
}

/// The PipeWire source for a remote with this descriptor and node.
pub open spec fn pipewire_source_description(fd: i32, node: u32, fps: u32) -> Seq<char> {
    "pipewiresrc fd="@ + signed_decimal(fd as int) + " path="@ + decimal(node as nat)
        + " do-timestamp=true keepalive-time="@ + decimal(keepalive_ms(fps))
        + " use-bufferpool=false"@
}

/// The source element of the streaming pipeline: the PipeWire stream where the
/// capture has one, else the test pattern where the test source was asked for.
pub open spec fn spec_source_description(config: ServeArgs, capture: CaptureInfo) -> Result<Seq<char>, Seq<char>> {
    match (capture.pipewire_fd, capture.node_id) {
        (Some(fd), Some(node)) => Ok(pipewire_source_description(fd, node, config.fps)),
        _ => if config.source == SourceArg::Test {
            Ok(test_source_description())
        } else {
            Err("capture source is missing its PipeWire descriptor"@)
        },
    }
}

/// Describes the source element of the streaming pipeline.
pub fn source_description(config: &ServeArgs, capture: &CaptureInfo) -> (r: Result<String, String>)
    requires
        capture.pipewire_fd is Some && capture.node_id is Some ==> config.fps > 0,
    ensures
        same_text_outcome(r, spec_source_description(*config, *capture)),
{
    match (capture.pipewire_fd, capture.node_id) {
        (Some(fd), Some(node)) => {
            let per_frame = 1000 / config.fps;
            let keepalive: u32 = if per_frame >= 1 {
                per_frame
            } else {
                1
            };
            let mut d = String::from_str("pipewiresrc fd=");
            push_signed_decimal(&mut d, fd as i64);
            push_text(&mut d, " path=");
            push_decimal(&mut d, node as u64);
            push_text(&mut d, " do-timestamp=true keepalive-time=");
            push_decimal(&mut d, keepalive as u64);
            push_text(&mut d, " use-bufferpool=false");
            assert(d@ =~= pipewire_source_description(fd, node, config.fps));
            Ok(d)
        },
        _ => if config.source == SourceArg::Test {
            Ok(String::from_str("videotestsrc pattern=ball is-live=true do-timestamp=true"))
        } else {
            Err(String::from_str("capture source is missing its PipeWire descriptor"))
        },
    }
}

/// The element chain that adapts the captured buffers for scaling: through
/// OpenGL upload and download, or a plain conversion.
pub open spec fn bridge_description(uses_gl_fallback: bool) -> Seq<char> {
    if uses_gl_fallback {
        "glupload ! glcolorconvert ! gldownload !"@
    } else {
        "videoconvert !"@
    }
}

/// The raw format that the selected encoder takes.
pub open spec fn encoder_format(encoder: EncoderArg, nvenc_available: bool) -> Seq<char> {
    if wants_nvenc(encoder, nvenc_available) {
        "NV12"@
    } else {
        "I420"@
    }
}

/// The whole streaming pipeline around a source and an encoder element: a
/// one-buffer leaky queue, the bridge, scaling and a rate cap at `fps` to the
/// encoded size, H.264 constrained baseline in RTP packets of at most 1200
/// bytes, into a `webrtcbin` named `webrtc`.
pub open spec fn assemble_pipeline(
    source: Seq<char>,
    bridge: Seq<char>,
    fps: u32,
    format: Seq<char>,
    encoded: (u32, u32),
    encoder: Seq<char>,
) -> Seq<char> {
    source + " ! queue max-size-buffers=1 max-size-bytes=0 max-size-time=0 leaky=downstream ! "@ + bridge
        + " videoscale"@ + " ! videorate drop-only=true max-rate="@ + decimal(fps as nat) + " ! video/x-raw,format="@
        + format + ",width="@ + decimal(encoded.0 as nat) + ",height="@ + decimal(encoded.1 as nat) + " ! "@
        + encoder
        + " ! video/x-h264,profile=constrained-baseline,stream-format=avc,alignment=au ! h264parse config-interval=-1 ! rtph264pay name=vpay pt=96 mtu=1200 config-interval=-1 aggregate-mode=zero-latency ! application/x-rtp,media=video,encoding-name=H264,payload=96,clock-rate=90000 ! webrtc. webrtcbin name=webrtc bundle-policy=max-bundle latency=0"@
}

/// The streaming pipeline for this configuration and capture, encoded at
/// `encoded` size; a missing source is reported before a missing encoder.
pub open spec fn spec_pipeline_description(
    config: ServeArgs,
    capture: CaptureInfo,
    encoded: (u32, u32),
    uses_gl_fallback: bool,
    nvenc_available: bool,
) -> Result<Seq<char>, Seq<char>> {
    match spec_source_description(config, capture) {
        Err(e) => Err(e),
        Ok(source) => match spec_encoder_description(config, nvenc_available) {
            Err(e) => Err(e),
            Ok(encoder) => Ok(
                assemble_pipeline(
                    source,
                    bridge_description(uses_gl_fallback),
                    config.fps,
                    encoder_format(config.encoder, nvenc_available),
                    encoded,
                    encoder,
                ),
            ),
        },
    }
}

/// Describes the streaming pipeline, given the encoded size, whether the OpenGL
/// bridge is used and whether the NVENC element is available.
pub fn pipeline_description(
    config: &ServeArgs,
    capture: &CaptureInfo,
    encoded: (u32, u32),
    uses_gl_fallback: bool,
    nvenc_available: bool,
) -> (r: Result<String, String>)
    requires
        capture.pipewire_fd is Some && capture.node_id is Some ==> config.fps > 0,
    ensures
        same_text_outcome(r, spec_pipeline_description(*config, *capture, encoded, uses_gl_fallback, nvenc_available)),
{
    let source = match source_description(config, capture) {
        Ok(s) => s,
        Err(e) => return Err(e),
    };
    let bridge = if uses_gl_fallback {
        "glupload ! glcolorconvert ! gldownload !"
    } else {
        "videoconvert !"
    };
    let nvenc = match config.encoder {
        EncoderArg::Nvenc => true,
        EncoderArg::X264 => false,
        EncoderArg::Auto => nvenc_available,
    };
    let format = if nvenc {
        "NV12"
    } else {
        "I420"
    };
    let encoder = match encoder_description(config, nvenc_available) {
        Ok(e) => e,
        Err(e) => return Err(e),
    };
    let mut d = source;
    push_text(&mut d, " ! queue max-size-buffers=1 max-size-bytes=0 max-size-time=0 leaky=downstream ! ");
    push_text(&mut d, bridge);
    push_text(&mut d, " videoscale");
    push_text(&mut d, " ! videorate drop-only=true max-rate=");
    push_decimal(&mut d, config.fps as u64);
    push_text(&mut d, " ! video/x-raw,format=");
    push_text(&mut d, format);
    push_text(&mut d, ",width=");
    push_decimal(&mut d, encoded.0 as u64);
    push_text(&mut d, ",height=");
    push_decimal(&mut d, encoded.1 as u64);
    push_text(&mut d, " ! ");
    push_text(&mut d, encoder.as_str());
    push_text(
        &mut d,
        " ! video/x-h264,profile=constrained-baseline,stream-format=avc,alignment=au ! h264parse config-interval=-1 ! rtph264pay name=vpay pt=96 mtu=1200 config-interval=-1 aggregate-mode=zero-latency ! application/x-rtp,media=video,encoding-name=H264,payload=96,clock-rate=90000 ! webrtc. webrtcbin name=webrtc bundle-policy=max-bundle latency=0",
    );
    Ok(d)
}

/// The source element of the local preview.
pub open spec fn spec_preview_source(source: SourceArg, capture: CaptureInfo) -> Result<Seq<char>, Seq<char>> {
    match source {
        SourceArg::Test => Ok(test_source_description()),
        _ => match capture.pipewire_fd {
            None => Err("missing PipeWire fd"@),
            Some(fd) => match capture.node_id {
                None => Err("missing PipeWire node"@),
                Some(node) => Ok(
                    "pipewiresrc fd="@ + signed_decimal(fd as int) + " path="@ + decimal(node as nat)
                        + " do-timestamp=true keepalive-time=16"@,
                ),
            },
        },
    }
}

/// The local preview pipeline: the source, a two-buffer leaky queue and an
/// OpenGL window that does not wait for the clock.
pub open spec fn spec_preview_description(source: SourceArg, capture: CaptureInfo) -> Result<Seq<char>, Seq<char>> {
    match spec_preview_source(source, capture) {
        Err(e) => Err(e),
        Ok(s) => Ok(s + " ! queue max-size-buffers=2 leaky=downstream ! videoconvert ! glimagesink sync=false"@),
    }
}

/// Describes the local preview pipeline.
pub fn preview_description(source: SourceArg, capture: &CaptureInfo) -> (r: Result<String, String>)
    ensures
        same_text_outcome(r, spec_preview_description(source, *capture)),
{
    let mut d = match source {
        SourceArg::Test => String::from_str("videotestsrc pattern=ball is-live=true do-timestamp=true"),
        _ => {
            let fd = match capture.pipewire_fd {
                Some(fd) => fd,
                None => return Err(String::from_str("missing PipeWire fd")),
            };
            let node = match capture.node_id {
                Some(node) => node,
                None => return Err(String::from_str("missing PipeWire node")),
            };
            let mut s = String::from_str("pipewiresrc fd=");
            push_signed_decimal(&mut s, fd as i64);
            push_text(&mut s, " path=");
            push_decimal(&mut s, node as u64);
            push_text(&mut s, " do-timestamp=true keepalive-time=16");
            s
        },
    };
    push_text(&mut d, " ! queue max-size-buffers=2 leaky=downstream ! videoconvert ! glimagesink sync=false");
    Ok(d)
}


/// How the host reports an error of the media pipeline: the path of the element
/// that raised it (`unknown` where there is none), the error and its debug
/// details (`no details` where there are none).
pub open spec fn spec_gstreamer_error_text(source: Option<Seq<char>>, error: Seq<char>, debug: Option<Seq<char>>) -> Seq<char> {
    "GStreamer error from "@ + (match source {
        Some(s) => s,
        None => "unknown"@,
    }) + ": "@ + error + " ("@ + (match debug {
        Some(d) => d,
        None => "no details"@,
    }) + ")"@
}

/// The view of an optional text.
pub open spec fn optional_text(t: Option<&str>) -> Option<Seq<char>> {
    match t {
        Some(s) => Some(s@),
        None => None,
    }
}

/// Describes an error of the media pipeline.
pub fn gstreamer_error_text(source: Option<&str>, error: &str, debug: Option<&str>) -> (t: String)
    ensures
        t@ == spec_gstreamer_error_text(optional_text(source), error@, optional_text(debug)),
{
    let mut t = String::from_str("GStreamer error from ");
    match source {
        Some(s) => push_text(&mut t, s),
        None => push_text(&mut t, "unknown"),
    }
    push_text(&mut t, ": ");
    push_text(&mut t, error);
    push_text(&mut t, " (");
    match debug {
        Some(d) => push_text(&mut t, d),
        None => push_text(&mut t, "no details"),
    }
    push_text(&mut t, ")");
    t
}

/// The message that offers a local ICE candidate of the pipeline to the client:
/// always for media stream `0`.
pub fn local_ice_candidate(index: u32, candidate: &str) -> (m: ServerMessage)
    ensures
        m matches ServerMessage::IceCandidate { candidate: c, sdp_mid: Some(mid), sdp_mline_index }
            && c@ == candidate@ && mid@ == "0"@ && sdp_mline_index == index,
{
    ServerMessage::IceCandidate {
        candidate: String::from_str(candidate),
        sdp_mid: Some(String::from_str("0")),
        sdp_mline_index: index,
    }
}


/// The text that the streaming pipeline puts between the source and the
/// scaler: a one-buffer leaky queue, then the OpenGL upload/download bridge
/// when `uses_gl_fallback` is set, else a plain conversion.
pub open spec fn queue_and_bridge(uses_gl_fallback: bool) -> Seq<char> {
    " ! queue max-size-buffers=1 max-size-bytes=0 max-size-time=0 leaky=downstream ! "@ + (if uses_gl_fallback {
        "glupload ! glcolorconvert ! gldownload !"@
    } else {
        "videoconvert !"@
    }) + " videoscale"@
}

/// Every streaming pipeline starts with its source element, then the queue and
/// the bridge that the GL flag alone selects (whatever the source, PipeWire or
/// test pattern), then scaling and a rate cap at the configured frame rate; and
/// it feeds the selected encoder element into the H.264 caps filter.
pub proof fn pipeline_layout(
    config: ServeArgs,
    capture: CaptureInfo,
    encoded: (u32, u32),
    uses_gl_fallback: bool,
    nvenc_available: bool,
)
    ensures
        spec_pipeline_description(config, capture, encoded, uses_gl_fallback, nvenc_available) matches Ok(p) ==> {
            &&& spec_source_description(config, capture) matches Ok(src)
            &&& spec_encoder_description(config, nvenc_available) matches Ok(enc)
            &&& exists|rest: Seq<char>|
                p == src + queue_and_bridge(uses_gl_fallback) + " ! videorate drop-only=true max-rate="@ + decimal(
                    config.fps as nat,
                ) + rest
            &&& exists|front: Seq<char>, back: Seq<char>|
                p == front + enc + " ! video/x-h264,profile=constrained-baseline,stream-format=avc,alignment=au"@
                    + back
        },
{
    if let Ok(p) = spec_pipeline_description(config, capture, encoded, uses_gl_fallback, nvenc_available) {
        let src = spec_source_description(config, capture)->Ok_0;
        let enc = spec_encoder_description(config, nvenc_available)->Ok_0;
        let bridge = bridge_description(uses_gl_fallback);
        let format = encoder_format(config.encoder, nvenc_available);
        let tail = " ! video/x-raw,format="@ + format + ",width="@ + decimal(encoded.0 as nat) + ",height="@
            + decimal(encoded.1 as nat) + " ! "@ + enc
            + " ! video/x-h264,profile=constrained-baseline,stream-format=avc,alignment=au ! h264parse config-interval=-1 ! rtph264pay name=vpay pt=96 mtu=1200 config-interval=-1 aggregate-mode=zero-latency ! application/x-rtp,media=video,encoding-name=H264,payload=96,clock-rate=90000 ! webrtc. webrtcbin name=webrtc bundle-policy=max-bundle latency=0"@;
        assert(p =~= src + queue_and_bridge(uses_gl_fallback) + " ! videorate drop-only=true max-rate="@ + decimal(
            config.fps as nat,
        ) + tail);
        let front = src + queue_and_bridge(uses_gl_fallback) + " ! videorate drop-only=true max-rate="@ + decimal(
            config.fps as nat,
        ) + " ! video/x-raw,format="@ + format + ",width="@ + decimal(encoded.0 as nat) + ",height="@ + decimal(
            encoded.1 as nat,
        ) + " ! "@;
        let caps = " ! video/x-h264,profile=constrained-baseline,stream-format=avc,alignment=au"@;
        let back = " ! h264parse config-interval=-1 ! rtph264pay name=vpay pt=96 mtu=1200 config-interval=-1 aggregate-mode=zero-latency ! application/x-rtp,media=video,encoding-name=H264,payload=96,clock-rate=90000 ! webrtc. webrtcbin name=webrtc bundle-policy=max-bundle latency=0"@;
        assert(p =~= front + enc + caps + back) by {
            reveal_strlit(" ! video/x-h264,profile=constrained-baseline,stream-format=avc,alignment=au ! h264parse config-interval=-1 ! rtph264pay name=vpay pt=96 mtu=1200 config-interval=-1 aggregate-mode=zero-latency ! application/x-rtp,media=video,encoding-name=H264,payload=96,clock-rate=90000 ! webrtc. webrtcbin name=webrtc bundle-policy=max-bundle latency=0");
            reveal_strlit(" ! video/x-h264,profile=constrained-baseline,stream-format=avc,alignment=au");
            reveal_strlit(" ! h264parse config-interval=-1 ! rtph264pay name=vpay pt=96 mtu=1200 config-interval=-1 aggregate-mode=zero-latency ! application/x-rtp,media=video,encoding-name=H264,payload=96,clock-rate=90000 ! webrtc. webrtcbin name=webrtc bundle-policy=max-bundle latency=0");
        }
    }
}


/// The encoder follows the request: x264 when asked for, NVENC when asked for
/// and available (an error when unavailable), and with `Auto` NVENC exactly
/// when it is available; NVENC takes NV12 frames and x264 takes I420.
pub proof fn encoder_follows_request(config: ServeArgs, nvenc_available: bool)
    ensures
        config.encoder == EncoderArg::X264 ==> spec_encoder_description(config, nvenc_available) == Ok::<
            Seq<char>,
            Seq<char>,
        >(x264_description(config.bitrate_kbps, config.fps)),
        config.encoder == EncoderArg::Nvenc && nvenc_available ==> spec_encoder_description(config, nvenc_available)
            == Ok::<Seq<char>, Seq<char>>(nvenc_description(config.bitrate_kbps, config.fps)),
        config.encoder == EncoderArg::Nvenc && !nvenc_available ==> spec_encoder_description(config, nvenc_available)
            is Err,
        config.encoder == EncoderArg::Auto ==> spec_encoder_description(config, nvenc_available) == Ok::<
            Seq<char>,
            Seq<char>,
        >(
            if nvenc_available {
                nvenc_description(config.bitrate_kbps, config.fps)
            } else {
                x264_description(config.bitrate_kbps, config.fps)
            },
        ),
        spec_encoder_name(config.encoder, nvenc_available) == (if config.encoder == EncoderArg::Nvenc || (
        config.encoder == EncoderArg::Auto && nvenc_available) {
            "nvenc"@
        } else {
            "x264"@
        }),
        encoder_format(config.encoder, nvenc_available) == (if config.encoder == EncoderArg::Nvenc || (config.encoder
            == EncoderArg::Auto && nvenc_available) {
            "NV12"@
        } else {
            "I420"@
        }),
{
}

/// Both encoder elements run at the configured bitrate, with a key frame every
/// `fps` frames.
pub proof fn encoders_use_the_configured_rates(bitrate_kbps: u32, fps: u32)
    ensures
        exists|front: Seq<char>, back: Seq<char>|
            x264_description(bitrate_kbps, fps) == front + " bitrate="@ + decimal(bitrate_kbps as nat) + " key-int-max="@
                + decimal(fps as nat) + back,
        exists|front: Seq<char>, back: Seq<char>|
            nvenc_description(bitrate_kbps, fps) == front + " bitrate="@ + decimal(bitrate_kbps as nat) + " gop-size="@
                + decimal(fps as nat) + back,
{
    reveal_strlit("x264enc tune=zerolatency speed-preset=ultrafast bitrate=");
    reveal_strlit("x264enc tune=zerolatency speed-preset=ultrafast");
    reveal_strlit(" bitrate=");
    reveal_strlit("nvh264enc preset=p1 tune=ultra-low-latency zerolatency=true rc-mode=cbr bitrate=");
    reveal_strlit("nvh264enc preset=p1 tune=ultra-low-latency zerolatency=true rc-mode=cbr");
    let xf = "x264enc tune=zerolatency speed-preset=ultrafast"@;
    let xb = " bframes=0 sliced-threads=true rc-lookahead=0 sync-lookahead=0 vbv-buf-capacity=50 byte-stream=false aud=true"@;
    assert(x264_description(bitrate_kbps, fps) =~= xf + " bitrate="@ + decimal(bitrate_kbps as nat) + " key-int-max="@
        + decimal(fps as nat) + xb);
    let nf = "nvh264enc preset=p1 tune=ultra-low-latency zerolatency=true rc-mode=cbr"@;
    let nb = " bframes=0 rc-lookahead=0 multi-pass=disabled cabac=false aud=true repeat-sequence-header=true"@;
    assert(nvenc_description(bitrate_kbps, fps) =~= nf + " bitrate="@ + decimal(bitrate_kbps as nat) + " gop-size="@
        + decimal(fps as nat) + nb);
}

/// The streaming source is the PipeWire stream whenever the capture has one,
/// whatever source was asked for; without one it is the test pattern when the
/// test source was asked for, and an error otherwise.
pub proof fn source_follows_capture(config: ServeArgs, capture: CaptureInfo)
    ensures
        (capture.pipewire_fd is Some && capture.node_id is Some) ==> (spec_source_description(config, capture) matches Ok(
            d,
        ) && exists|rest: Seq<char>|
            d == "pipewiresrc fd="@ + signed_decimal(capture.pipewire_fd->0 as int) + " path="@ + decimal(
                capture.node_id->0 as nat,
            ) + rest),
        !(capture.pipewire_fd is Some && capture.node_id is Some) ==> spec_source_description(config, capture) == (if config.source
            == SourceArg::Test {
            Ok::<Seq<char>, Seq<char>>("videotestsrc pattern=ball is-live=true do-timestamp=true"@)
        } else {
            Err::<Seq<char>, Seq<char>>("capture source is missing its PipeWire descriptor"@)
        }),
{
    if let (Some(fd), Some(node)) = (capture.pipewire_fd, capture.node_id) {
        let d = pipewire_source_description(fd, node, config.fps);
        let rest = " do-timestamp=true keepalive-time="@ + decimal(keepalive_ms(config.fps)) + " use-bufferpool=false"@;
        assert(d =~= "pipewiresrc fd="@ + signed_decimal(fd as int) + " path="@ + decimal(node as nat) + rest);
    }
}

/// The preview shows the test pattern for the test source, whatever the
/// capture, and otherwise needs both the PipeWire descriptor and node; its
/// picture always ends in an OpenGL window.
pub proof fn preview_follows_source(source: SourceArg, capture: CaptureInfo)
    ensures
        source == SourceArg::Test ==> spec_preview_description(source, capture) == Ok::<Seq<char>, Seq<char>>(
            "videotestsrc pattern=ball is-live=true do-timestamp=true"@
                + " ! queue max-size-buffers=2 leaky=downstream ! videoconvert ! glimagesink sync=false"@,
        ),
        source != SourceArg::Test ==> (spec_preview_description(source, capture) is Ok <==> (capture.pipewire_fd is Some
            && capture.node_id is Some)),
        spec_preview_description(source, capture) matches Ok(d) ==> exists|front: Seq<char>|
            d == front + " ! queue max-size-buffers=2 leaky=downstream ! videoconvert ! glimagesink sync=false"@,
{
}

} // verus!
