use auxscreen_host::cli::{parse_port_range, parse_size, EncoderArg, PortRange, ServeArgs, SourceArg};
use auxscreen_host::net::{is_private_lan_ip, IpAddress, SocketAddress};

#[test]
fn parses_port_range() {
    assert_eq!(
        parse_port_range("9900-9910").unwrap(),
        PortRange {
            min: 9900,
            max: 9910
        }
    );
    assert!(parse_port_range("9910-9900").is_err());
}

#[test]
fn parses_size() {
    assert_eq!(parse_size("1920x1200").unwrap(), (1920, 1200));
    assert!(parse_size("tiny").is_err());
}

#[test]
fn recognizes_private_lan_addresses() {
    assert!(is_private_lan_ip(IpAddress::v4(192, 168, 1, 254)));
    assert!(is_private_lan_ip(IpAddress::v4(10, 0, 0, 1)));
    assert!(is_private_lan_ip(IpAddress::localhost_v4()));
    assert!(!is_private_lan_ip(IpAddress::v4(8, 8, 8, 8)));
}

#[test]
fn port_range_errors_name_the_problem() {
    assert_eq!(parse_port_range("9900").unwrap_err(), "expected MIN-MAX");
    assert_eq!(parse_port_range("x-9910").unwrap_err(), "invalid minimum port");
    assert_eq!(parse_port_range("9900-").unwrap_err(), "invalid maximum port");
    assert_eq!(parse_port_range("70000-70001").unwrap_err(), "invalid minimum port");
    assert_eq!(parse_port_range("1-65536").unwrap_err(), "invalid maximum port");
    assert_eq!(
        parse_port_range("0-10").unwrap_err(),
        "port range must be non-zero and ascending"
    );
    assert_eq!(
        parse_port_range("9910-9900").unwrap_err(),
        "port range must be non-zero and ascending"
    );
}

#[test]
fn port_range_edges() {
    assert_eq!(parse_port_range("1-65535").unwrap(), PortRange { min: 1, max: 65535 });
    assert_eq!(parse_port_range("5000-5000").unwrap(), PortRange { min: 5000, max: 5000 });
    assert_eq!(parse_port_range("+9900-+9910").unwrap(), PortRange { min: 9900, max: 9910 });
    // The range splits at the first dash only.
    assert_eq!(parse_port_range("1-2-3").unwrap_err(), "invalid maximum port");
    assert_eq!(parse_port_range("-5-6").unwrap_err(), "invalid minimum port");
    assert_eq!(parse_port_range(" 1-2").unwrap_err(), "invalid minimum port");
}

#[test]
fn size_errors_name_the_problem() {
    assert_eq!(parse_size("tiny").unwrap_err(), "expected WIDTHxHEIGHT");
    assert_eq!(parse_size("wx1200").unwrap_err(), "invalid width");
    assert_eq!(parse_size("1920x").unwrap_err(), "invalid height");
    assert_eq!(parse_size("4294967296x1200").unwrap_err(), "invalid width");
    assert_eq!(parse_size("319x240").unwrap_err(), "size must be at least 320x240");
    assert_eq!(parse_size("320x239").unwrap_err(), "size must be at least 320x240");
    assert_eq!(parse_size("320x240").unwrap(), (320, 240));
    assert_eq!(parse_size("4294967295x4294967295").unwrap(), (4294967295, 4294967295));
}

fn serve_args(listen: IpAddress, ice_ip: &str) -> ServeArgs {
    ServeArgs {
        source: SourceArg::Test,
        listen: SocketAddress { ip: listen, port: 9898 },
        ice_ip: ice_ip.to_string(),
        ice_ports: PortRange { min: 9900, max: 9910 },
        encode_max_size: (1920, 1200),
        fps: 30,
        bitrate_kbps: 6000,
        encoder: EncoderArg::Auto,
        use_gl_fallback: false,
        no_auth: false,
    }
}

#[test]
fn validate_accepts_private_lan_addresses() {
    let args = serve_args(IpAddress::v4(192, 168, 1, 254), "192.168.1.254");
    assert!(args.validate(Some(IpAddress::v4(192, 168, 1, 254))).is_ok());
}

#[test]
fn validate_rejects_public_or_wildcard_addresses() {
    let wildcard = serve_args(IpAddress::V4(0), "192.168.1.254");
    assert_eq!(
        wildcard.validate(Some(IpAddress::v4(192, 168, 1, 254))).unwrap_err(),
        "refusing to bind signaling to every interface; choose the LAN address explicitly"
    );
    let wildcard6 = serve_args(IpAddress::V6(0), "192.168.1.254");
    assert!(wildcard6.validate(Some(IpAddress::v4(192, 168, 1, 254))).is_err());

    let bad_ice = serve_args(IpAddress::v4(192, 168, 1, 254), "not-an-ip");
    assert_eq!(bad_ice.validate(None).unwrap_err(), "invalid ICE IP not-an-ip");

    let public_ice = serve_args(IpAddress::v4(192, 168, 1, 254), "8.8.8.8");
    assert_eq!(
        public_ice.validate(Some(IpAddress::v4(8, 8, 8, 8))).unwrap_err(),
        "ICE IP must be a concrete private LAN address"
    );
    let loopback_ice = serve_args(IpAddress::v4(192, 168, 1, 254), "127.0.0.1");
    assert_eq!(
        loopback_ice.validate(Some(IpAddress::localhost_v4())).unwrap_err(),
        "ICE IP must be a concrete private LAN address"
    );
    let public_listen = serve_args(IpAddress::v4(8, 8, 8, 8), "192.168.1.254");
    assert_eq!(
        public_listen.validate(Some(IpAddress::v4(192, 168, 1, 254))).unwrap_err(),
        "signaling must listen on a private LAN address"
    );
    // Loopback is acceptable for signaling, not for ICE.
    let loopback_listen = serve_args(IpAddress::localhost_v4(), "10.1.2.3");
    assert!(loopback_listen.validate(Some(IpAddress::v4(10, 1, 2, 3))).is_ok());
}

#[test]
fn classifies_address_ranges() {
    assert!(is_private_lan_ip(IpAddress::v4(172, 16, 0, 1)));
    assert!(is_private_lan_ip(IpAddress::v4(172, 31, 255, 255)));
    assert!(!is_private_lan_ip(IpAddress::v4(172, 32, 0, 1)));
    assert!(!is_private_lan_ip(IpAddress::v4(172, 15, 0, 1)));
    assert!(is_private_lan_ip(IpAddress::v4(169, 254, 3, 4)));
    assert!(!is_private_lan_ip(IpAddress::v4(169, 253, 3, 4)));
    assert!(!is_private_lan_ip(IpAddress::v4(192, 169, 0, 1)));
    assert!(is_private_lan_ip(IpAddress::V6(1)));
    assert!(is_private_lan_ip(IpAddress::V6(0xfd00_0000_0000_0000_0000_0000_0000_0001)));
    assert!(is_private_lan_ip(IpAddress::V6(0xfc00_0000_0000_0000_0000_0000_0000_0001)));
    assert!(is_private_lan_ip(IpAddress::V6(0xfe80_0000_0000_0000_0000_0000_0000_0001)));
    assert!(is_private_lan_ip(IpAddress::V6(0xfebf_0000_0000_0000_0000_0000_0000_0001)));
    assert!(!is_private_lan_ip(IpAddress::V6(0xfec0_0000_0000_0000_0000_0000_0000_0001)));
    assert!(!is_private_lan_ip(IpAddress::V6(0x2001_0db8_0000_0000_0000_0000_0000_0001)));
    assert!(!is_private_lan_ip(IpAddress::V6(0)));
    assert!(IpAddress::V6(0).is_unspecified());
    assert!(!IpAddress::V6(1).is_unspecified());
    assert!(IpAddress::v4(127, 5, 6, 7).is_loopback());
    assert!(!IpAddress::v4(128, 0, 0, 1).is_loopback());
    assert_eq!(IpAddress::v4(192, 168, 1, 254), IpAddress::V4(0xc0a8_01fe));
}

#[test]
fn serve_args_clone_keeps_every_field() {
    let args = serve_args(IpAddress::v4(192, 168, 1, 254), "192.168.1.254");
    let copy = args.clone();
    assert_eq!(copy.ice_ip, args.ice_ip);
    assert_eq!(copy.listen, args.listen);
    assert_eq!(copy.ice_ports, args.ice_ports);
    assert_eq!(copy.fps, args.fps);
}
