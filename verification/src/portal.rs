//! What the host accepts from the ScreenCast portal: the advertised source
//! kinds, the streams that a request returns, and a saved restore token.
use vstd::prelude::*;

use crate::text::{decimal, push_decimal, push_text, trim, trimmed};

verus! {

/// A capture source as the host holds it: the PipeWire remote's file descriptor
/// number and node, where there is one, and the picture size.
#[derive(Debug, Clone, Copy)]
pub struct CaptureInfo {
    pub pipewire_fd: Option<i32>,
    pub node_id: Option<u32>,
    pub size: (u32, u32),
}

impl CaptureInfo {
    /// A generated test pattern of the given size, with no PipeWire stream.
    pub fn test_pattern(size: (u32, u32)) -> (c: Self)
        ensures
            c.pipewire_fd is None,
            c.node_id is None,
            c.size == size,
    {
        CaptureInfo { pipewire_fd: None, node_id: None, size }
    }
}

/// A kind of ScreenCast source; the portal advertises them as the bits 1, 2 and 4.
#[derive(Debug, Clone, Copy, PartialEq, Eq, Structural)]
pub enum CaptureSource {
    Monitor,
    Window,
    Virtual,
}

/// The bit that stands for `s` in the portal's source mask.
pub open spec fn source_bit(s: CaptureSource) -> u32 {
    match s {
        CaptureSource::Monitor => 1,
        CaptureSource::Window => 2,
        CaptureSource::Virtual => 4,
    }
}

/// A source kind that the host asks the portal for.
#[derive(Debug, Clone, Copy, PartialEq, Eq, Structural)]
pub enum ScreenSource {
    Virtual,
    Monitor,
}

/// The portal kind of a requested source.
pub open spec fn requested_kind(s: ScreenSource) -> CaptureSource {
    match s {
        ScreenSource::Virtual => CaptureSource::Virtual,
        ScreenSource::Monitor => CaptureSource::Monitor,
    }
}

/// How the host names a requested source in its messages.
pub open spec fn source_label(s: ScreenSource) -> Seq<char> {
    match s {
        ScreenSource::Virtual => "virtual monitor"@,
        ScreenSource::Monitor => "physical monitor"@,
    }
}

/// How the host names a requested source in the name of its restore-token file.
pub open spec fn source_key(s: ScreenSource) -> Seq<char> {
    match s {
        ScreenSource::Virtual => "virtual"@,
        ScreenSource::Monitor => "monitor"@,
    }
}

/// The debug rendering of an optional source kind, as `Some(Monitor)` or `None`.
pub open spec fn optional_source_debug(s: Option<CaptureSource>) -> Seq<char> {
    match s {
        None => "None"@,
        Some(CaptureSource::Monitor) => "Some(Monitor)"@,
        Some(CaptureSource::Window) => "Some(Window)"@,
        Some(CaptureSource::Virtual) => "Some(Virtual)"@,
    }
}

impl CaptureSource {
    /// The bit of this kind in the portal's source mask.
    pub fn bit(self) -> (b: u32)
        ensures
            b == source_bit(self),
    {
        match self {
            CaptureSource::Monitor => 1,
            CaptureSource::Window => 2,
            CaptureSource::Virtual => 4,
        }
    }
}

impl ScreenSource {
    /// The portal kind of this source.
    pub fn kind(self) -> (k: CaptureSource)
        ensures
            k == requested_kind(self),
    {
        match self {
            ScreenSource::Virtual => CaptureSource::Virtual,
            ScreenSource::Monitor => CaptureSource::Monitor,
        }
    }

    /// The label of this source in messages.
    pub fn label(self) -> (l: &'static str)
        ensures
            l@ == source_label(self),
    {
        match self {
            ScreenSource::Virtual => "virtual monitor",
            ScreenSource::Monitor => "physical monitor",
        }
    }

    /// The name of this source in the restore-token file name.
    pub fn key(self) -> (k: &'static str)
        ensures
            k@ == source_key(self),
    {
        match self {
            ScreenSource::Virtual => "virtual",
            ScreenSource::Monitor => "monitor",
        }
    }
}

fn optional_source_debug_text(s: Option<CaptureSource>) -> (t: &'static str)
    ensures
        t@ == optional_source_debug(s),
{
    match s {
        None => "None",
        Some(CaptureSource::Monitor) => "Some(Monitor)",
        Some(CaptureSource::Window) => "Some(Window)",
        Some(CaptureSource::Virtual) => "Some(Virtual)",
    }
}

/// Whether the portal's source mask `available` advertises `source`.
pub fn source_advertised(available: u32, source: CaptureSource) -> (r: bool)
    ensures
        r == (available & source_bit(source) != 0),
{
    available & source.bit() != 0
}

/// The message for a portal that does not advertise the requested kind.
pub open spec fn not_advertised_message(source: ScreenSource) -> Seq<char> {
    "ScreenCast portal does not advertise "@ + source_label(source) + " sources"@
}

/// Checks that the portal advertises the requested source kind.
pub fn require_source_advertised(available: u32, source: ScreenSource) -> (r: Result<(), String>)
    ensures
        match r {
            Ok(()) => available & source_bit(requested_kind(source)) != 0,
            Err(e) => available & source_bit(requested_kind(source)) == 0 && e@ == not_advertised_message(source),
        },
{
    if source_advertised(available, source.kind()) {
        Ok(())
    } else {
        let mut message = String::from_str("ScreenCast portal does not advertise ");
        push_text(&mut message, source.label());
        push_text(&mut message, " sources");
        Err(message)
    }
}

/// The message for a portal response with `count` streams, where it is not one.
pub open spec fn stream_count_message(count: nat) -> Seq<char> {
    if count == 0 {
        "portal returned no PipeWire stream"@
    } else {
        "portal returned "@ + decimal(count) + " streams; AuxScreen requires exactly one"@
    }
}

/// Accepts a portal response with exactly one stream.
pub fn validate_stream_count(count: usize) -> (r: Result<(), String>)
    ensures
        match r {
            Ok(()) => count == 1,
            Err(e) => count != 1 && e@ == stream_count_message(count as nat),
        },
{
    if count == 1 {
        Ok(())
    } else if count == 0 {
        Err(String::from_str("portal returned no PipeWire stream"))
    } else {
        let mut message = String::from_str("portal returned ");
        push_decimal(&mut message, count as u64);
        push_text(&mut message, " streams; AuxScreen requires exactly one");
        Err(message)
    }
}

/// The size that the host records for a stream: the reported size, each side
/// taken as the unsigned 32-bit value with the same bits, or 1920x1080 where the
/// portal reports none.
pub open spec fn stream_size(reported: Option<(i32, i32)>) -> (u32, u32) {
    match reported {
        Some((w, h)) => (w as u32, h as u32),
        None => (1920, 1080),
    }
}

/// What the host makes of a portal response: exactly one stream, of the
/// requested kind; its size then comes from [`stream_size`].
pub open spec fn spec_accept_stream(
    requested: ScreenSource,
    count: nat,
    first_type: Option<CaptureSource>,
    first_size: Option<(i32, i32)>,
) -> Result<(u32, u32), Seq<char>> {
    if count != 1 {
        Err(stream_count_message(count))
    } else if first_type != Some(requested_kind(requested)) {
        Err("portal returned "@ + optional_source_debug(first_type) + " instead of a "@ + source_label(requested))
    } else {
        Ok(stream_size(first_size))
    }
}

/// Checks the streams of a portal response, given how many there are and the
/// kind and size of the first one, and returns the capture size.
pub fn accept_stream(
    requested: ScreenSource,
    count: usize,
    first_type: Option<CaptureSource>,
    first_size: Option<(i32, i32)>,
) -> (r: Result<(u32, u32), String>)
    ensures
        crate::text::same_outcome(r, spec_accept_stream(requested, count as nat, first_type, first_size)),
{
    match validate_stream_count(count) {
        Ok(()) => {},
        Err(e) => return Err(e),
    }
    let matches = match first_type {
        Some(t) => t == requested.kind(),
        None => false,
    };
    if !matches {
        let mut message = String::from_str("portal returned ");
        push_text(&mut message, optional_source_debug_text(first_type));
        push_text(&mut message, " instead of a ");
        push_text(&mut message, requested.label());
        return Err(message);
    }
    match first_size {
        Some((w, h)) => Ok((w as u32, h as u32)),
        None => Ok((1920, 1080)),
    }
}


/// The restore token that a saved token file holds: its text without leading
/// and trailing whitespace, where any remains.
pub fn restore_token_from_contents(contents: &str) -> (r: Option<String>)
    ensures
        match r {
            Some(t) => trim(contents@).len() > 0 && t@ == trim(contents@),
            None => trim(contents@).len() == 0,
        },
{
    let t = trimmed(contents);
    if t.unicode_len() == 0 {
        None
    } else {
        Some(t)
    }
}


/// A portal response is accepted only when it has exactly one stream and that
/// stream is of the kind asked for: a virtual monitor for a virtual request, a
/// physical monitor for a monitor request. Such a response is always accepted,
/// with the stream's reported size, or 1920x1080 where it reports none.
pub proof fn accepted_stream_is_the_requested_kind(count: nat, first_type: Option<CaptureSource>, first_size: Option<(i32, i32)>)
    ensures
        spec_accept_stream(ScreenSource::Virtual, count, first_type, first_size) is Ok ==> count == 1 && first_type
            == Some(CaptureSource::Virtual),
        spec_accept_stream(ScreenSource::Monitor, count, first_type, first_size) is Ok ==> count == 1 && first_type
            == Some(CaptureSource::Monitor),
        count == 1 && first_type == Some(CaptureSource::Virtual) ==> spec_accept_stream(
            ScreenSource::Virtual,
            count,
            first_type,
            first_size,
        ) == Ok::<(u32, u32), Seq<char>>(
            match first_size {
                Some((w, h)) => (w as u32, h as u32),
                None => (1920u32, 1080u32),
            },
        ),
        count == 1 && first_type == Some(CaptureSource::Monitor) ==> spec_accept_stream(
            ScreenSource::Monitor,
            count,
            first_type,
            first_size,
        ) == Ok::<(u32, u32), Seq<char>>(
            match first_size {
                Some((w, h)) => (w as u32, h as u32),
                None => (1920u32, 1080u32),
            },
        ),
{
}

} // verus!
