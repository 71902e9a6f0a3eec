//! The blocking problems that the `doctor` command reports, and its verdict.
use vstd::prelude::*;

use crate::net::{is_private_lan_ip, spec_is_private_lan, spec_is_unspecified, IpAddress};
use crate::portal::{source_advertised, source_bit, CaptureSource};
use crate::text::{decimal, push_decimal, push_text};

verus! {

/// What the probe of the ScreenCast portal found.
#[derive(Debug)]
pub enum PortalProbe {
    /// The portal answered with its version and its mask of source kinds.
    Available { version: u32, source_types: u32 },
    /// The portal could not be reached; the text says why.
    Unavailable(String),
}

/// Whether a GStreamer element is installed.
#[derive(Debug)]
pub struct ElementProbe {
    pub name: String,
    pub present: bool,
}

/// The characters of each string.
pub open spec fn texts(v: Seq<String>) -> Seq<Seq<char>> {
    Seq::new(v.len(), |i: int| v[i]@)
}

/// The blocking problem that the portal probe shows, if any: an unreachable
/// portal, or one that does not advertise virtual monitors.
pub open spec fn portal_failures(p: PortalProbe) -> Seq<Seq<char>> {
    match p {
        PortalProbe::Available { source_types, .. } => if source_types & source_bit(CaptureSource::Virtual) != 0 {
            Seq::empty()
        } else {
            seq!["portal does not advertise VIRTUAL source support"@]
        },
        PortalProbe::Unavailable(e) => seq!["portal unavailable: "@ + e@],
    }
}

/// One blocking problem per missing GStreamer element, in the order probed.
pub open spec fn element_failures(elements: Seq<ElementProbe>) -> Seq<Seq<char>>
    decreases elements.len(),
{
    if elements.len() == 0 {
        Seq::empty()
    } else {
        let earlier = element_failures(elements.drop_last());
        if elements.last().present {
            earlier
        } else {
            earlier.push("missing GStreamer element "@ + elements.last().name@)
        }
    }
}

/// The blocking problems of the signaling address, shown as `listen_text`: it
/// must be one concrete private LAN address, and it must be free to bind
/// (`bind_error` holds why it is not).
pub open spec fn address_failures(listen: IpAddress, listen_text: Seq<char>, bind_error: Option<Seq<char>>) -> Seq<
    Seq<char>,
> {
    let lan: Seq<Seq<char>> = if spec_is_unspecified(listen) || !spec_is_private_lan(listen) {
        seq!["signaling address "@ + listen_text + " is not a concrete private LAN address"@]
    } else {
        Seq::empty()
    };
    let bind: Seq<Seq<char>> = match bind_error {
        Some(e) => seq!["cannot bind "@ + listen_text + ": "@ + e],
        None => Seq::empty(),
    };
    lan + bind
}

/// All blocking problems, in the order of the checks: portal, GStreamer
/// elements, signaling address.
pub open spec fn spec_doctor_failures(
    portal: PortalProbe,
    elements: Seq<ElementProbe>,
    listen: IpAddress,
    listen_text: Seq<char>,
    bind_error: Option<Seq<char>>,
) -> Seq<Seq<char>> {
    portal_failures(portal) + element_failures(elements) + address_failures(listen, listen_text, bind_error)
}

fn push_failure(failures: &mut Vec<String>, failure: String)
    ensures
        texts(final(failures)@) == texts(old(failures)@).push(failure@),
{
    let ghost f = failure@;
    failures.push(failure);
    assert(texts(final(failures)@) =~= texts(old(failures)@).push(f));
}

/// The view of an optional string.
pub open spec fn optional_string(t: Option<String>) -> Option<Seq<char>> {
    match t {
        Some(s) => Some(s@),
        None => None,
    }
}

/// Lists the blocking problems that the probes show.
pub fn doctor_failures(
    portal: &PortalProbe,
    elements: &Vec<ElementProbe>,
    listen: IpAddress,
    listen_text: &str,
    bind_error: Option<String>,
) -> (failures: Vec<String>)
    ensures
        texts(failures@) == spec_doctor_failures(*portal, elements@, listen, listen_text@, optional_string(bind_error)),
{
    let mut failures: Vec<String> = Vec::new();
    match portal {
        PortalProbe::Available { source_types, .. } => {
            if !source_advertised(*source_types, CaptureSource::Virtual) {
                push_failure(&mut failures, String::from_str("portal does not advertise VIRTUAL source support"));
            }
        },
        PortalProbe::Unavailable(e) => {
            let mut f = String::from_str("portal unavailable: ");
            push_text(&mut f, e.as_str());
            push_failure(&mut failures, f);
        },
    }
    assert(texts(failures@) =~= portal_failures(*portal));
    let n = elements.len();
    let mut i: usize = 0;
    while i < n
        invariant
            n == elements@.len(),
            i <= n,
            texts(failures@) == portal_failures(*portal) + element_failures(elements@.subrange(0, i as int)),
        decreases n - i,
    {
        proof {
            assert(elements@.subrange(0, i + 1).drop_last() =~= elements@.subrange(0, i as int));
        }
        let e = &elements[i];
        if !e.present {
            let mut f = String::from_str("missing GStreamer element ");
            push_text(&mut f, e.name.as_str());
            push_failure(&mut failures, f);
        }
        i = i + 1;
        assert(texts(failures@) =~= portal_failures(*portal) + element_failures(elements@.subrange(0, i as int)));
    }
    assert(elements@.subrange(0, n as int) =~= elements@);
    if listen.is_unspecified() || !is_private_lan_ip(listen) {
        let mut f = String::from_str("signaling address ");
        push_text(&mut f, listen_text);
        push_text(&mut f, " is not a concrete private LAN address");
        push_failure(&mut failures, f);
    }
    match bind_error {
        Some(e) => {
            let mut f = String::from_str("cannot bind ");
            push_text(&mut f, listen_text);
            push_text(&mut f, ": ");
            push_text(&mut f, e.as_str());
            push_failure(&mut failures, f);
        },
        None => {},
    }
    assert(texts(failures@) =~= spec_doctor_failures(
        *portal,
        elements@,
        listen,
        listen_text@,
        optional_string(bind_error),
    ));
    failures
}

/// The message for a doctor run that found `count` blocking problems.
pub open spec fn problems_message(count: nat) -> Seq<char> {
    "doctor found "@ + decimal(count) + " blocking problem(s)"@
}

/// The host is ready when the doctor found no blocking problem.
pub fn doctor_verdict(failure_count: usize) -> (r: Result<(), String>)
    ensures
        match r {
            Ok(()) => failure_count == 0,
            Err(e) => failure_count > 0 && e@ == problems_message(failure_count as nat),
        },
{
    if failure_count == 0 {
        Ok(())
    } else {
        let mut message = String::from_str("doctor found ");
        push_decimal(&mut message, failure_count as u64);
        push_text(&mut message, " blocking problem(s)");
        Err(message)
    }
}


proof fn lemma_no_element_failures(elements: Seq<ElementProbe>)
    ensures
        element_failures(elements).len() == 0 <==> forall|i: int| 0 <= i < elements.len() ==> #[trigger] elements[i].present,
    decreases elements.len(),
{
    if elements.len() > 0 {
        let rest = elements.drop_last();
        lemma_no_element_failures(rest);
        if !elements.last().present {
            assert(!elements[elements.len() - 1].present);
        } else {
            if forall|i: int| 0 <= i < rest.len() ==> #[trigger] rest[i].present {
                assert forall|i: int| 0 <= i < elements.len() implies #[trigger] elements[i].present by {
                    if i < rest.len() {
                        assert(rest[i] == elements[i]);
                    }
                }
            }
            if forall|i: int| 0 <= i < elements.len() ==> #[trigger] elements[i].present {
                assert forall|i: int| 0 <= i < rest.len() implies #[trigger] rest[i].present by {
                    assert(rest[i] == elements[i]);
                }
            }
        }
    }
}

/// The doctor finds no blocking problem exactly when the portal answers and
/// advertises virtual monitors, every probed element is installed, and the
/// signaling address is a concrete private LAN address that is free to bind;
/// each missing element is one problem.
pub proof fn doctor_is_ready_exactly_when_all_checks_pass(
    portal: PortalProbe,
    elements: Seq<ElementProbe>,
    listen: IpAddress,
    listen_text: Seq<char>,
    bind_error: Option<Seq<char>>,
)
    ensures
        spec_doctor_failures(portal, elements, listen, listen_text, bind_error).len() == 0 <==> {
            &&& portal matches PortalProbe::Available { source_types, .. } && source_types & 4 != 0
            &&& forall|i: int| 0 <= i < elements.len() ==> #[trigger] elements[i].present
            &&& !spec_is_unspecified(listen)
            &&& spec_is_private_lan(listen)
            &&& bind_error is None
        },
{
    lemma_no_element_failures(elements);
}

} // verus!
