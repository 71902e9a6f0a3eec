//! Command-line arguments of the host and the rules that they must meet.
use vstd::prelude::*;

use crate::net::{is_private_lan_ip, spec_is_loopback, spec_is_private_lan, spec_is_unspecified, IpAddress, SocketAddress};
use crate::text::{
    all_digits, digits_value, is_digit, lemma_parse_digits, lemma_split_after_digits, parse_unsigned,
    parse_unsigned_text, same_outcome, split_once, split_once_at,
};

verus! {

/// Where the picture comes from.
#[derive(Debug, Clone, Copy, PartialEq, Eq, Structural)]
pub enum SourceArg {
    Virtual,
    Monitor,
    Test,
}

/// Which H.264 encoder to use; `Auto` prefers NVENC when it is available.
#[derive(Debug, Clone, Copy, PartialEq, Eq, Structural)]
pub enum EncoderArg {
    Auto,
    Nvenc,
    X264,
}

/// Arguments of the `doctor` command.
#[derive(Debug, Clone, Copy)]
pub struct DoctorArgs {
    pub listen: SocketAddress,
}

/// Arguments of the `preview` command.
#[derive(Debug, Clone, Copy)]
pub struct PreviewArgs {
    pub source: SourceArg,
}

/// An inclusive range of UDP ports.
#[derive(Debug, Clone, Copy, PartialEq, Eq, Structural)]
pub struct PortRange {
    pub min: u16,
    pub max: u16,
}

/// Arguments of the `serve` command.
#[derive(Debug)]
pub struct ServeArgs {
    pub source: SourceArg,
    pub listen: SocketAddress,
    pub ice_ip: String,
    pub ice_ports: PortRange,
    pub encode_max_size: (u32, u32),
    pub fps: u32,
    pub bitrate_kbps: u32,
    pub encoder: EncoderArg,
    pub use_gl_fallback: bool,
    pub no_auth: bool,
}

/// What `--ice-ports MIN-MAX` denotes: two decimal ports around the first `-`,
/// the first one non-zero and no greater than the second.
pub open spec fn spec_parse_port_range(value: Seq<char>) -> Result<PortRange, Seq<char>> {
    match split_once(value, '-') {
        None => Err("expected MIN-MAX"@),
        Some((lo, hi)) => match parse_unsigned(lo, 65535) {
            None => Err("invalid minimum port"@),
            Some(min) => match parse_unsigned(hi, 65535) {
                None => Err("invalid maximum port"@),
                Some(max) => if min == 0 || min > max {
                    Err("port range must be non-zero and ascending"@)
                } else {
                    Ok(PortRange { min: min as u16, max: max as u16 })
                },
            },
        },
    }
}

/// What `--encode-max-size WIDTHxHEIGHT` denotes: two decimal numbers around the
/// first `x`, at least 320 wide and 240 high.
pub open spec fn spec_parse_size(value: Seq<char>) -> Result<(u32, u32), Seq<char>> {
    match split_once(value, 'x') {
        None => Err("expected WIDTHxHEIGHT"@),
        Some((w, h)) => match parse_unsigned(w, 0xffff_ffff) {
            None => Err("invalid width"@),
            Some(width) => match parse_unsigned(h, 0xffff_ffff) {
                None => Err("invalid height"@),
                Some(height) => if width < 320 || height < 240 {
                    Err("size must be at least 320x240"@)
                } else {
                    Ok((width as u32, height as u32))
                },
            },
        },
    }
}

/// Parses `--ice-ports`.
pub fn parse_port_range(value: &str) -> (r: Result<PortRange, String>)
    ensures
        same_outcome(r, spec_parse_port_range(value@)),
{
    let (lo, hi) = match split_once_at(value, '-') {
        Some(parts) => parts,
        None => return Err(String::from_str("expected MIN-MAX")),
    };
    let min = match parse_unsigned_text(lo.as_str(), 65535) {
        Some(v) => v,
        None => return Err(String::from_str("invalid minimum port")),
    };
    let max = match parse_unsigned_text(hi.as_str(), 65535) {
        Some(v) => v,
        None => return Err(String::from_str("invalid maximum port")),
    };
    if min == 0 || min > max {
        return Err(String::from_str("port range must be non-zero and ascending"));
    }
    Ok(PortRange { min: min as u16, max: max as u16 })
}

/// Parses `--encode-max-size`.
pub fn parse_size(value: &str) -> (r: Result<(u32, u32), String>)
    ensures
        same_outcome(r, spec_parse_size(value@)),
{
    let (w, h) = match split_once_at(value, 'x') {
        Some(parts) => parts,
        None => return Err(String::from_str("expected WIDTHxHEIGHT")),
    };
    let width = match parse_unsigned_text(w.as_str(), 0xffff_ffff) {
        Some(v) => v,
        None => return Err(String::from_str("invalid width")),
    };
    let height = match parse_unsigned_text(h.as_str(), 0xffff_ffff) {
        Some(v) => v,
        None => return Err(String::from_str("invalid height")),
    };
    if width < 320 || height < 240 {
        return Err(String::from_str("size must be at least 320x240"));
    }
    Ok((width as u32, height as u32))
}

/// The outcome of checking the network addresses of `serve`, given the address
/// that `--ice-ip` denotes (`None` where it denotes none).
pub open spec fn spec_validate_serve(listen: IpAddress, ice_ip: Seq<char>, parsed_ice_ip: Option<IpAddress>) -> Result<(), Seq<char>> {
    if spec_is_unspecified(listen) {
        Err("refusing to bind signaling to every interface; choose the LAN address explicitly"@)
    } else {
        match parsed_ice_ip {
            None => Err("invalid ICE IP "@ + ice_ip),
            Some(ip) => if !spec_is_private_lan(ip) || spec_is_loopback(ip) {
                Err("ICE IP must be a concrete private LAN address"@)
            } else if !spec_is_private_lan(listen) {
                Err("signaling must listen on a private LAN address"@)
            } else {
                Ok(())
            },
        }
    }
}

impl Clone for ServeArgs {
    fn clone(&self) -> (r: Self)
        ensures
            r == *self,
    {
        ServeArgs {
            source: self.source,
            listen: self.listen,
            ice_ip: self.ice_ip.clone(),
            ice_ports: self.ice_ports,
            encode_max_size: self.encode_max_size,
            fps: self.fps,
            bitrate_kbps: self.bitrate_kbps,
            encoder: self.encoder,
            use_gl_fallback: self.use_gl_fallback,
            no_auth: self.no_auth,
        }
    }
}

impl ServeArgs {
    /// Checks that signaling listens on one concrete private LAN address and that
    /// the ICE address is a private, non-loopback LAN address. `parsed_ice_ip` is
    /// the address that `self.ice_ip` denotes, or `None` where the text is no IP
    /// address.
    pub fn validate(&self, parsed_ice_ip: Option<IpAddress>) -> (r: Result<(), String>)
        ensures
            same_outcome(r, spec_validate_serve(self.listen.ip, self.ice_ip@, parsed_ice_ip)),
    {
        if self.listen.ip.is_unspecified() {
            return Err(
                String::from_str(
                    "refusing to bind signaling to every interface; choose the LAN address explicitly",
                ),
            );
        }
        let ip = match parsed_ice_ip {
            Some(ip) => ip,
            None => {
                let mut message = String::from_str("invalid ICE IP ");
                message.append(self.ice_ip.as_str());
                return Err(message);
            },
        };
        if !is_private_lan_ip(ip) || ip.is_loopback() {
            return Err(String::from_str("ICE IP must be a concrete private LAN address"));
        }
        if !is_private_lan_ip(self.listen.ip) {
            return Err(String::from_str("signaling must listen on a private LAN address"));
        }
        Ok(())
    }
}


/// Every port range that `--ice-ports` accepts is non-zero and ascending.
pub proof fn parsed_port_ranges_are_ascending(value: Seq<char>)
    ensures
        spec_parse_port_range(value) matches Ok(p) ==> 0 < p.min && p.min <= p.max,
{
}

/// Every size that `--encode-max-size` accepts is at least 320x240.
pub proof fn parsed_sizes_are_at_least_minimum(value: Seq<char>)
    ensures
        spec_parse_size(value) matches Ok(size) ==> size.0 >= 320 && size.1 >= 240,
{
}

/// Accepted `serve` addresses keep the host on the local network: signaling
/// listens on one concrete private LAN address, and ICE uses a private LAN
/// address that is not loopback.
pub proof fn validated_addresses_stay_on_the_lan(listen: IpAddress, ice_ip: Seq<char>, parsed_ice_ip: Option<IpAddress>)
    ensures
        spec_validate_serve(listen, ice_ip, parsed_ice_ip) is Ok ==> {
            &&& !spec_is_unspecified(listen)
            &&& spec_is_private_lan(listen)
            &&& parsed_ice_ip matches Some(ip) && spec_is_private_lan(ip) && !spec_is_loopback(ip)
        },
{
}


/// `--encode-max-size` reads the width before the `x` and the height after it:
/// for two runs of decimal digits denoting a width of at least 320 and a height
/// of at least 240 that fit in 32 bits, the size is exactly (width, height).
pub proof fn size_is_width_then_height(width: Seq<char>, height: Seq<char>)
    requires
        width.len() > 0,
        all_digits(width),
        height.len() > 0,
        all_digits(height),
        320 <= digits_value(width) <= 0xffff_ffff,
        240 <= digits_value(height) <= 0xffff_ffff,
    ensures
        spec_parse_size(width + seq!['x'] + height) == Ok::<(u32, u32), Seq<char>>(
            (digits_value(width) as u32, digits_value(height) as u32),
        ),
{
    assert(!is_digit('x'));
    lemma_split_after_digits(width, 'x', height);
    lemma_parse_digits(width, 0xffff_ffff);
    lemma_parse_digits(height, 0xffff_ffff);
}

/// `--ice-ports` reads the lowest port before the `-` and the highest after it:
/// for two runs of decimal digits denoting ports `1 <= min <= max <= 65535`,
/// the range is exactly `min..=max`.
pub proof fn port_range_is_min_then_max(min: Seq<char>, max: Seq<char>)
    requires
        min.len() > 0,
        all_digits(min),
        max.len() > 0,
        all_digits(max),
        1 <= digits_value(min) <= digits_value(max) <= 65535,
    ensures
        spec_parse_port_range(min + seq!['-'] + max) == Ok::<PortRange, Seq<char>>(
            PortRange { min: digits_value(min) as u16, max: digits_value(max) as u16 },
        ),
{
    assert(!is_digit('-'));
    lemma_split_after_digits(min, '-', max);
    lemma_parse_digits(min, 65535);
    lemma_parse_digits(max, 65535);
}


/// Addresses that keep the host on the LAN are always accepted: a concrete
/// private signaling address with a private, non-loopback ICE address passes
/// the check, whatever the ICE text looks like.
pub proof fn lan_addresses_are_accepted(listen: IpAddress, ice_ip: Seq<char>, ice: IpAddress)
    requires
        !spec_is_unspecified(listen),
        spec_is_private_lan(listen),
        spec_is_private_lan(ice),
        !spec_is_loopback(ice),
    ensures
        spec_validate_serve(listen, ice_ip, Some(ice)) == Ok::<(), Seq<char>>(()),
{
}

} // verus!
