//! What holds of the pipeline for every frame.

use vstd::prelude::*;

use crate::balancer::{outcome, rewritten, translated, Action, Endpoint, Endpoints};
use crate::checksum::checksum_valid;
use crate::frame::{be16, lemma_be16_put, lemma_be32_put, put_be16, put_be32};
use crate::headers::{
    ether_type, ip_at, ip_dst, ip_proto, ip_src, transport_at, transport_len, ETHERTYPE_IPV4,
    ETH_DST_LAST_AT, ETH_HDR_LEN, ETH_SRC_LAST_AT, IPPROTO_TCP, IPPROTO_UDP, IP_CHECK_AT, IP_DST_AT,
    IP_SRC_AT,
};

verus! {

/// An IPv4 frame whose TCP or UDP header is complete.
pub open spec fn complete_ipv4(s: Seq<u8>) -> bool {
    &&& s.len() >= transport_at()
    &&& ether_type(s) == ETHERTYPE_IPV4
    &&& (ip_proto(s) == IPPROTO_TCP || ip_proto(s) == IPPROTO_UDP)
    &&& s.len() >= transport_at() + transport_len(ip_proto(s))->Some_0
}

/// How long a frame must be for the stage that reads it furthest: the
/// Ethernet header, then the IPv4 header, then the transport header.
pub open spec fn required_len(s: Seq<u8>) -> nat {
    if s.len() < ETH_HDR_LEN || ether_type(s) != ETHERTYPE_IPV4 {
        ETH_HDR_LEN as nat
    } else if s.len() < transport_at() {
        transport_at() as nat
    } else {
        match transport_len(ip_proto(s)) {
            Some(n) => (transport_at() + n) as nat,
            None => transport_at() as nat,
        }
    }
}

/// The bytes that a translation may change: the last octets of the two
/// hardware addresses, and the checksum and addresses of the IPv4 header.
pub open spec fn translation_touches(i: int) -> bool {
    i == ETH_DST_LAST_AT || i == ETH_SRC_LAST_AT || ip_at() + IP_CHECK_AT <= i < ip_at() + 20
}

/// A translated frame is addressed to `to`, comes from `from`, has a valid
/// IPv4 checksum and keeps every other byte.
pub proof fn lemma_translated_fields(s: Seq<u8>, to: Endpoint, from: Endpoint)
    requires
        s.len() >= transport_at(),
    ensures
        ({
            let r = translated(s, to, from);
            &&& r.len() == s.len()
            &&& ip_dst(r) == to.addr
            &&& r[ETH_DST_LAST_AT as int] == to.mac_last
            &&& ip_src(r) == from.addr
            &&& r[ETH_SRC_LAST_AT as int] == from.mac_last
            &&& checksum_valid(r, ip_at(), 10)
            &&& forall|i: int| 0 <= i < s.len() && !translation_touches(i) ==> r[i] == s[i]
        }),
{
    let dst = ip_at() + IP_DST_AT;
    let src = ip_at() + IP_SRC_AT;
    let chk = ip_at() + IP_CHECK_AT;
    let a0 = put_be32(s, dst, to.addr);
    let a = a0.update(ETH_DST_LAST_AT as int, to.mac_last);
    let b0 = put_be32(a, src, from.addr);
    let b = b0.update(ETH_SRC_LAST_AT as int, from.mac_last);
    let z = put_be16(b, chk, 0);
    let r = translated(s, to, from);
    lemma_be32_put(s, dst, to.addr);
    lemma_be32_put(a, src, from.addr);
    lemma_be16_put(b, chk, 0);
    lemma_be16_put(z, chk, crate::checksum::checksum_for(z, ip_at(), 10));
    assert(be16(z, chk) == 0);
    crate::checksum::lemma_checksum_for_validates(z, ip_at(), 10, 5);
    assert(forall|k: int| dst <= k < dst + 4 ==> r[k] == a0[k]);
    assert(forall|k: int| src <= k < src + 4 ==> r[k] == b0[k]);
    assert(ip_dst(r) == ip_dst(a0));
    assert(ip_src(r) == ip_src(b0));
}

/// A frame whose ethertype is not IPv4 is passed on untouched.
pub proof fn lemma_non_ipv4_passes(cfg: Endpoints, s: Seq<u8>)
    requires
        s.len() >= ETH_HDR_LEN,
        ether_type(s) != ETHERTYPE_IPV4,
    ensures
        outcome(cfg, s) == Action::Pass,
        rewritten(cfg, s) == s,
{
}

/// An IPv4 frame whose transport protocol is neither TCP nor UDP is aborted.
pub proof fn lemma_unsupported_protocol_aborts(cfg: Endpoints, s: Seq<u8>)
    requires
        s.len() >= transport_at(),
        ether_type(s) == ETHERTYPE_IPV4,
        ip_proto(s) != IPPROTO_TCP,
        ip_proto(s) != IPPROTO_UDP,
    ensures
        outcome(cfg, s) == Action::Abort,
        rewritten(cfg, s) == s,
{
}

/// A complete frame from the client is sent to the backend as coming from the
/// balancer, with a valid IPv4 checksum and its other bytes kept.
pub proof fn lemma_client_goes_to_backend(cfg: Endpoints, s: Seq<u8>)
    requires
        complete_ipv4(s),
        ip_src(s) == cfg.client.addr,
    ensures
        outcome(cfg, s) == Action::Transmit,
        ({
            let r = rewritten(cfg, s);
            &&& r.len() == s.len()
            &&& ip_dst(r) == cfg.backend.addr
            &&& r[ETH_DST_LAST_AT as int] == cfg.backend.mac_last
            &&& ip_src(r) == cfg.balancer.addr
            &&& r[ETH_SRC_LAST_AT as int] == cfg.balancer.mac_last
            &&& checksum_valid(r, ip_at(), 10)
            &&& forall|i: int| 0 <= i < s.len() && !translation_touches(i) ==> r[i] == s[i]
        }),
{
    lemma_translated_fields(s, cfg.backend, cfg.balancer);
}

/// A complete frame from the backend that is not also the client's address
/// is sent to the client as coming from the balancer, with a valid IPv4
/// checksum and its other bytes kept.
pub proof fn lemma_backend_goes_to_client(cfg: Endpoints, s: Seq<u8>)
    requires
        cfg.distinct(),
        complete_ipv4(s),
        ip_src(s) == cfg.backend.addr,
    ensures
        outcome(cfg, s) == Action::Transmit,
        ({
            let r = rewritten(cfg, s);
            &&& r.len() == s.len()
            &&& ip_dst(r) == cfg.client.addr
            &&& r[ETH_DST_LAST_AT as int] == cfg.client.mac_last
            &&& ip_src(r) == cfg.balancer.addr
            &&& r[ETH_SRC_LAST_AT as int] == cfg.balancer.mac_last
            &&& checksum_valid(r, ip_at(), 10)
            &&& forall|i: int| 0 <= i < s.len() && !translation_touches(i) ==> r[i] == s[i]
        }),
{
    lemma_translated_fields(s, cfg.client, cfg.balancer);
}

/// A complete frame from any other source is passed on untouched.
pub proof fn lemma_unrelated_source_passes(cfg: Endpoints, s: Seq<u8>)
    requires
        complete_ipv4(s),
        ip_src(s) != cfg.client.addr,
        ip_src(s) != cfg.backend.addr,
    ensures
        outcome(cfg, s) == Action::Pass,
        rewritten(cfg, s) == s,
{
}

/// A frame shorter than what some stage has to read is aborted and no byte
/// of it is written.
pub proof fn lemma_short_frame_aborts(cfg: Endpoints, s: Seq<u8>)
    requires
        s.len() < required_len(s),
    ensures
        outcome(cfg, s) == Action::Abort,
        rewritten(cfg, s) == s,
{
}

/// An aborted frame is never written.
pub proof fn lemma_abort_writes_nothing(cfg: Endpoints, s: Seq<u8>)
    requires
        outcome(cfg, s) == Action::Abort,
    ensures
        rewritten(cfg, s) == s,
{
}

/// A translated frame comes from the balancer, so a second run matches
/// neither endpoint and passes it on untouched.
pub proof fn lemma_second_run_passes(cfg: Endpoints, s: Seq<u8>)
    requires
        cfg.distinct(),
        outcome(cfg, s) == Action::Transmit,
    ensures
        outcome(cfg, rewritten(cfg, s)) == Action::Pass,
        rewritten(cfg, rewritten(cfg, s)) == rewritten(cfg, s),
{
    let to = if ip_src(s) == cfg.client.addr {
        cfg.backend
    } else {
        cfg.client
    };
    lemma_translated_fields(s, to, cfg.balancer);
    let r = rewritten(cfg, s);
    assert(r == translated(s, to, cfg.balancer));
    assert(!translation_touches(12) && !translation_touches(13) && !translation_touches(
        ip_at() + 9,
    ));
    assert(ether_type(r) == ether_type(s));
    assert(ip_proto(r) == ip_proto(s));
}

} // verus!
