use auxscreen_host::cli::{EncoderArg, PortRange, ServeArgs, SourceArg};
use auxscreen_host::media::{
    encoder_description, encoder_name, gstreamer_error_text, local_ice_candidate, pipeline_description,
    preview_description, source_description,
};
use auxscreen_host::net::{IpAddress, SocketAddress};
use auxscreen_host::portal::CaptureInfo;
use auxscreen_host::protocol::ServerMessage;

fn config(source: SourceArg, encoder: EncoderArg) -> ServeArgs {
    ServeArgs {
        source,
        listen: SocketAddress { ip: IpAddress::v4(192, 168, 1, 254), port: 9898 },
        ice_ip: "192.168.1.254".to_string(),
        ice_ports: PortRange { min: 9900, max: 9910 },
        encode_max_size: (1920, 1200),
        fps: 30,
        bitrate_kbps: 6000,
        encoder,
        use_gl_fallback: false,
        no_auth: false,
    }
}

fn pipewire_capture() -> CaptureInfo {
    CaptureInfo { pipewire_fd: Some(7), node_id: Some(42), size: (2560, 1440) }
}

#[test]
fn selects_the_encoder() {
    assert_eq!(encoder_name(&config(SourceArg::Test, EncoderArg::Nvenc), false), "nvenc");
    assert_eq!(encoder_name(&config(SourceArg::Test, EncoderArg::X264), true), "x264");
    assert_eq!(encoder_name(&config(SourceArg::Test, EncoderArg::Auto), true), "nvenc");
    assert_eq!(encoder_name(&config(SourceArg::Test, EncoderArg::Auto), false), "x264");
}

#[test]
fn describes_the_encoders() {
    let c = config(SourceArg::Test, EncoderArg::Auto);
    assert_eq!(
        encoder_description(&c, true).unwrap(),
        format!(
            "nvh264enc preset=p1 tune=ultra-low-latency zerolatency=true \
             rc-mode=cbr bitrate={} gop-size={} bframes=0 rc-lookahead=0 \
             multi-pass=disabled cabac=false aud=true repeat-sequence-header=true",
            c.bitrate_kbps, c.fps
        )
    );
    assert_eq!(
        encoder_description(&c, false).unwrap(),
        format!(
            "x264enc tune=zerolatency speed-preset=ultrafast bitrate={} key-int-max={} bframes=0 \
             sliced-threads=true rc-lookahead=0 sync-lookahead=0 vbv-buf-capacity=50 byte-stream=false aud=true",
            c.bitrate_kbps, c.fps
        )
    );
    assert_eq!(
        encoder_description(&config(SourceArg::Test, EncoderArg::Nvenc), false).unwrap_err(),
        "NVENC was requested but nvh264enc is unavailable; verify the GStreamer nvcodec plugin and NVIDIA driver"
    );
    assert!(encoder_description(&config(SourceArg::Test, EncoderArg::X264), true)
        .unwrap()
        .starts_with("x264enc "));
}

#[test]
fn describes_the_sources() {
    let c = config(SourceArg::Virtual, EncoderArg::Auto);
    assert_eq!(
        source_description(&c, &pipewire_capture()).unwrap(),
        "pipewiresrc fd=7 path=42 do-timestamp=true keepalive-time=33 use-bufferpool=false"
    );
    let mut fast = config(SourceArg::Virtual, EncoderArg::Auto);
    fast.fps = 2000;
    assert_eq!(
        source_description(&fast, &pipewire_capture()).unwrap(),
        "pipewiresrc fd=7 path=42 do-timestamp=true keepalive-time=1 use-bufferpool=false"
    );
    assert_eq!(
        source_description(&config(SourceArg::Test, EncoderArg::Auto), &CaptureInfo::test_pattern((1920, 1200)))
            .unwrap(),
        "videotestsrc pattern=ball is-live=true do-timestamp=true"
    );
    assert_eq!(
        source_description(&c, &CaptureInfo::test_pattern((1920, 1200))).unwrap_err(),
        "capture source is missing its PipeWire descriptor"
    );
    let half = CaptureInfo { pipewire_fd: Some(7), node_id: None, size: (1920, 1080) };
    assert!(source_description(&c, &half).is_err());
}

#[test]
fn describes_the_streaming_pipeline() {
    let c = config(SourceArg::Test, EncoderArg::Auto);
    let capture = CaptureInfo::test_pattern((1920, 1200));
    let encoded = (1920u32, 1200u32);
    let source = "videotestsrc pattern=ball is-live=true do-timestamp=true";
    let bridge = "videoconvert !";
    let encoder = encoder_description(&c, false).unwrap();
    let rate_filter = format!("videorate drop-only=true max-rate={} !", c.fps);
    let encoder_format = "I420";
    let expected = format!(
        "{source} ! queue max-size-buffers=1 max-size-bytes=0 max-size-time=0 leaky=downstream ! {bridge} videoscale ! \
         {rate_filter} video/x-raw,format={encoder_format},width={},height={} ! \
         {encoder} ! \
         video/x-h264,profile=constrained-baseline,stream-format=avc,alignment=au ! \
         h264parse config-interval=-1 ! rtph264pay name=vpay pt=96 mtu=1200 config-interval=-1 aggregate-mode=zero-latency ! \
         application/x-rtp,media=video,encoding-name=H264,payload=96,clock-rate=90000 ! webrtc. \
         webrtcbin name=webrtc bundle-policy=max-bundle latency=0",
        encoded.0, encoded.1
    );
    assert_eq!(pipeline_description(&c, &capture, encoded, false, false).unwrap(), expected);

    let gl = pipeline_description(&c, &capture, (1280, 800), true, true).unwrap();
    assert!(gl.contains("! glupload ! glcolorconvert ! gldownload ! videoscale !"));
    assert!(gl.contains("video/x-raw,format=NV12,width=1280,height=800 ! nvh264enc "));
}

#[test]
fn pipeline_reports_the_source_before_the_encoder() {
    let c = config(SourceArg::Virtual, EncoderArg::Nvenc);
    assert_eq!(
        pipeline_description(&c, &CaptureInfo::test_pattern((1920, 1200)), (1920, 1200), false, false).unwrap_err(),
        "capture source is missing its PipeWire descriptor"
    );
    assert_eq!(
        pipeline_description(&c, &pipewire_capture(), (1920, 1080), false, false).unwrap_err(),
        "NVENC was requested but nvh264enc is unavailable; verify the GStreamer nvcodec plugin and NVIDIA driver"
    );
}

#[test]
fn describes_the_preview() {
    assert_eq!(
        preview_description(SourceArg::Test, &CaptureInfo::test_pattern((1920, 1200))).unwrap(),
        "videotestsrc pattern=ball is-live=true do-timestamp=true ! queue max-size-buffers=2 leaky=downstream ! videoconvert ! glimagesink sync=false"
    );
    assert_eq!(
        preview_description(SourceArg::Virtual, &pipewire_capture()).unwrap(),
        "pipewiresrc fd=7 path=42 do-timestamp=true keepalive-time=16 ! queue max-size-buffers=2 leaky=downstream ! videoconvert ! glimagesink sync=false"
    );
    assert_eq!(
        preview_description(SourceArg::Monitor, &CaptureInfo::test_pattern((1, 1))).unwrap_err(),
        "missing PipeWire fd"
    );
    let no_node = CaptureInfo { pipewire_fd: Some(3), node_id: None, size: (1, 1) };
    assert_eq!(preview_description(SourceArg::Monitor, &no_node).unwrap_err(), "missing PipeWire node");
}

#[test]
fn reports_pipeline_errors() {
    assert_eq!(
        gstreamer_error_text(Some("/GstPipeline:pipeline0/GstX264Enc:x264enc0"), "not-negotiated", Some("reason")),
        "GStreamer error from /GstPipeline:pipeline0/GstX264Enc:x264enc0: not-negotiated (reason)"
    );
    assert_eq!(gstreamer_error_text(None, "boom", None), "GStreamer error from unknown: boom (no details)");
}

#[test]
fn offers_local_candidates_for_the_first_media_line() {
    let message = local_ice_candidate(0, "candidate:1 1 UDP 2122252543 192.168.1.254 9900 typ host");
    assert_eq!(
        message,
        ServerMessage::IceCandidate {
            candidate: "candidate:1 1 UDP 2122252543 192.168.1.254 9900 typ host".to_string(),
            sdp_mid: Some("0".to_string()),
            sdp_mline_index: 0,
        }
    );
}
