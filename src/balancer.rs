//! Direction classification, in-place rewriting and the verdict of a frame.

use vstd::prelude::*;

use crate::checksum::{checksum_for, csum_fold_helper, header_sum};
use crate::frame::{put_be16, put_be32};
use crate::headers::{
    ip_at, parse, parse_result, FrameError, Ipv4Frame, Parsed, ETH_DST_LAST_AT, ETH_SRC_LAST_AT,
    IP_CHECK_AT, IP_DST_AT, IP_SRC_AT,
};

verus! {

/// Network address of the client.
pub const CLIENT: u32 = 0xAC13_0003;

/// Last octet of the client's hardware address.
pub const CLIENT_E: u8 = 3;

/// Network address of the balancer.
pub const LB: u32 = 0xAC13_0005;

/// Last octet of the balancer's hardware address.
pub const LB_E: u8 = 5;

/// Network address of the backend.
pub const BACKEND_A: u32 = 0xAC13_0002;

/// Last octet of the backend's hardware address.
pub const BACKEND_A_E: u8 = 2;

/// A host on the segment: its network address and the last octet of its
/// hardware address.
#[derive(Clone, Copy, Debug, PartialEq, Eq, Structural)]
pub struct Endpoint {
    pub addr: u32,
    pub mac_last: u8,
}

/// The fixed endpoint table of the balancer.
#[derive(Clone, Copy, Debug, PartialEq, Eq, Structural)]
pub struct Endpoints {
    pub client: Endpoint,
    pub balancer: Endpoint,
    pub backend: Endpoint,
}

impl Endpoints {
    /// The three roles have distinct network addresses.
    pub open spec fn distinct(self) -> bool {
        &&& self.client.addr != self.backend.addr
        &&& self.client.addr != self.balancer.addr
        &&& self.backend.addr != self.balancer.addr
    }

    /// The endpoints of the demo network.
    pub fn demo() -> (r: Endpoints)
        ensures
            r == (Endpoints {
                client: Endpoint { addr: CLIENT, mac_last: CLIENT_E },
                balancer: Endpoint { addr: LB, mac_last: LB_E },
                backend: Endpoint { addr: BACKEND_A, mac_last: BACKEND_A_E },
            }),
            r.distinct(),
    {
        Endpoints {
            client: Endpoint { addr: CLIENT, mac_last: CLIENT_E },
            balancer: Endpoint { addr: LB, mac_last: LB_E },
            backend: Endpoint { addr: BACKEND_A, mac_last: BACKEND_A_E },
        }
    }
}

/// What the pipeline decided for a frame.
#[derive(Clone, Copy, Debug, PartialEq, Eq, Structural)]
pub enum Verdict {
    /// Left untouched for the host.
    Forward,
    /// A client request, rewritten toward the backend.
    TranslateToBackend,
    /// A backend response, rewritten toward the client.
    TranslateToClient,
    /// Discarded by policy.
    Drop,
    /// Malformed or unsupported.
    Abort,
}

/// The action code handed back to the caller.
#[derive(Clone, Copy, Debug, PartialEq, Eq, Structural)]
pub enum Action {
    /// Continue normal processing of the untouched frame.
    Pass,
    /// Send the rewritten frame back out.
    Transmit,
    /// Discard the frame.
    Drop,
    /// Discard the frame as an error.
    Abort,
}

/// The action code of each verdict.
pub open spec fn action_of(v: Verdict) -> Action {
    match v {
        Verdict::Forward => Action::Pass,
        Verdict::TranslateToBackend => Action::Transmit,
        Verdict::TranslateToClient => Action::Transmit,
        Verdict::Drop => Action::Drop,
        Verdict::Abort => Action::Abort,
    }
}

/// Maps a verdict to its action code.
pub fn emit(v: Verdict) -> (r: Action)
    ensures
        r == action_of(v),
{
    match v {
        Verdict::Forward => Action::Pass,
        Verdict::TranslateToBackend => Action::Transmit,
        Verdict::TranslateToClient => Action::Transmit,
        Verdict::Drop => Action::Drop,
        Verdict::Abort => Action::Abort,
    }
}

/// The frame addressed to `to` and made to come from `from`, with its IPv4
/// checksum field cleared.
pub open spec fn readdressed(s: Seq<u8>, to: Endpoint, from: Endpoint) -> Seq<u8> {
    let a = put_be32(s, ip_at() + IP_DST_AT, to.addr).update(ETH_DST_LAST_AT as int, to.mac_last);
    let b = put_be32(a, ip_at() + IP_SRC_AT, from.addr).update(
        ETH_SRC_LAST_AT as int,
        from.mac_last,
    );
    put_be16(b, ip_at() + IP_CHECK_AT, 0)
}

/// The frame readdressed from `from` to `to`, with the IPv4 checksum
/// recomputed.
pub open spec fn translated(s: Seq<u8>, to: Endpoint, from: Endpoint) -> Seq<u8> {
    let z = readdressed(s, to, from);
    put_be16(z, ip_at() + IP_CHECK_AT, checksum_for(z, ip_at(), 10))
}

/// The verdict on a frame, or the reason it cannot be handled.
pub open spec fn decide(cfg: Endpoints, s: Seq<u8>) -> Result<Verdict, FrameError> {
    match parse_result(s) {
        Err(e) => Err(e),
        Ok(None) => Ok(Verdict::Forward),
        Ok(Some(src)) => if src == cfg.client.addr {
            Ok(Verdict::TranslateToBackend)
        } else if src == cfg.backend.addr {
            Ok(Verdict::TranslateToClient)
        } else {
            Ok(Verdict::Forward)
        },
    }
}

/// The action code for a frame: an error is an abort.
pub open spec fn outcome(cfg: Endpoints, s: Seq<u8>) -> Action {
    match decide(cfg, s) {
        Ok(v) => action_of(v),
        Err(_) => Action::Abort,
    }
}

/// The frame's bytes after the pipeline ran on it.
pub open spec fn rewritten(cfg: Endpoints, s: Seq<u8>) -> Seq<u8> {
    match decide(cfg, s) {
        Ok(Verdict::TranslateToBackend) => translated(s, cfg.backend, cfg.balancer),
        Ok(Verdict::TranslateToClient) => translated(s, cfg.client, cfg.balancer),
        _ => s,
    }
}

/// Readdresses a parsed IPv4 frame to `to`, from `from`, and recomputes its
/// IPv4 header checksum.
fn rewrite(frame: &mut [u8], p: &Ipv4Frame, to: Endpoint, from: Endpoint)
    requires
        crate::headers::header_windows(*p),
        p.ip.fits(old(frame)@.len()),
    ensures
        final(frame)@ == translated(old(frame)@, to, from),
{
    p.ip.write_be32(frame, IP_DST_AT, to.addr);
    p.eth.write_u8(frame, ETH_DST_LAST_AT, to.mac_last);
    p.ip.write_be32(frame, IP_SRC_AT, from.addr);
    p.eth.write_u8(frame, ETH_SRC_LAST_AT, from.mac_last);
    p.ip.write_be16(frame, IP_CHECK_AT, 0);
    let sum = header_sum(frame, &p.ip);
    let check = csum_fold_helper(sum);
    p.ip.write_be16(frame, IP_CHECK_AT, check);
}

/// Classifies a frame by its source address and, for the client or the
/// backend, rewrites it in place toward the other one. A frame that cannot be
/// handled is left unchanged and its reason returned.
pub fn try_xdp_lb(frame: &mut [u8], cfg: &Endpoints) -> (r: Result<Verdict, FrameError>)
    ensures
        r == decide(*cfg, old(frame)@),
        final(frame)@ == rewritten(*cfg, old(frame)@),
{
    let p = match parse(frame) {
        Err(e) => return Err(e),
        Ok(Parsed::NotIpv4) => return Ok(Verdict::Forward),
        Ok(Parsed::Ipv4(p)) => p,
    };
    if p.src_addr == cfg.client.addr {
        rewrite(frame, &p, cfg.backend, cfg.balancer);
        Ok(Verdict::TranslateToBackend)
    } else if p.src_addr == cfg.backend.addr {
        rewrite(frame, &p, cfg.client, cfg.balancer);
        Ok(Verdict::TranslateToClient)
    } else {
        Ok(Verdict::Forward)
    }
}

/// Runs the pipeline on one frame and returns its action code; any failure
/// is an abort.
pub fn xdp_lb(frame: &mut [u8], cfg: &Endpoints) -> (r: Action)
    ensures
        r == outcome(*cfg, old(frame)@),
        final(frame)@ == rewritten(*cfg, old(frame)@),
{
    match try_xdp_lb(frame, cfg) {
        Ok(v) => emit(v),
        Err(_) => Action::Abort,
    }
}

} // verus!
