//! Packet construction for the traffic generator: the Internet checksum
//! (RFC 1071), ICMP echo requests, bare-FIN TCP segments and gratuitous ARP
//! replies, and recognition of an ICMP echo reply inside a raw IPv4 frame.

use vstd::prelude::*;

verus! {

/// Sum of the big-endian 16-bit words of `d`; an odd trailing byte is
/// padded on the right with a zero byte.
pub open spec fn word_sum(d: Seq<u8>) -> nat
    decreases d.len(),
{
    if d.len() == 0 {
        0
    } else if d.len() == 1 {
        d[0] as nat * 256
    } else {
        d[0] as nat * 256 + d[1] as nat + word_sum(d.skip(2))
    }
}

/// End-around-carry folding of `x` into 16 bits: the unique value in
/// `0..=0xffff` congruent to `x` modulo `0xffff` that is zero only for zero.
pub open spec fn ones_fold(x: nat) -> nat {
    if x == 0 {
        0
    } else if x % 65535 == 0 {
        65535
    } else {
        x % 65535
    }
}

/// One's-complement of the folded sum.
pub open spec fn complement16(sum: nat) -> u16 {
    (65535 - ones_fold(sum)) as u16
}

/// The Internet checksum of `d` (RFC 1071).
pub open spec fn internet_checksum(d: Seq<u8>) -> u16 {
    complement16(word_sum(d))
}

/// The words of the TCP pseudo-header: source and destination address,
/// protocol number 6 and the segment length taken modulo 2^16.
pub open spec fn pseudo_header_sum(src: Seq<u8>, dst: Seq<u8>, len: nat) -> nat {
    word_sum(src) + word_sum(dst) + 6 + len % 65536
}

/// The TCP checksum of segment `tcp` sent from `src` to `dst`.
pub open spec fn tcp_checksum_of(src: Seq<u8>, dst: Seq<u8>, tcp: Seq<u8>) -> u16 {
    complement16(pseudo_header_sum(src, dst, tcp.len()) + word_sum(tcp))
}

/// The high byte of a 16-bit value.
pub open spec fn hi(x: u16) -> u8 {
    (x / 256) as u8
}

/// The low byte of a 16-bit value.
pub open spec fn lo(x: u16) -> u8 {
    (x % 256) as u8
}

/// `d` with the 16-bit value `v` written big-endian at `p` and `p + 1`.
pub open spec fn put16(d: Seq<u8>, p: int, v: u16) -> Seq<u8> {
    d.update(p, hi(v)).update(p + 1, lo(v))
}

proof fn lemma_word_sum_step(d: Seq<u8>, i: int)
    requires
        0 <= i,
        i + 1 < d.len(),
    ensures
        word_sum(d.skip(i)) == d[i] as nat * 256 + d[i + 1] as nat + word_sum(d.skip(i + 2)),
{
    assert(d.skip(i).skip(2) =~= d.skip(i + 2));
}

proof fn lemma_word_sum_last(d: Seq<u8>, i: int)
    requires
        0 <= i,
        i + 1 == d.len(),
    ensures
        word_sum(d.skip(i)) == d[i] as nat * 256,
{
}

proof fn lemma_word_sum_end(d: Seq<u8>)
    ensures
        word_sum(d.skip(d.len() as int)) == 0,
{
    assert(d.skip(d.len() as int).len() == 0);
}

proof fn lemma_word_sum_bound(d: Seq<u8>)
    ensures
        word_sum(d) <= 65535 * ((d.len() + 1) / 2),
    decreases d.len(),
{
    if d.len() >= 2 {
        lemma_word_sum_bound(d.skip(2));
    }
}

/// Adds the words of `data` to `init`.
fn add_words(data: &[u8], init: u32) -> (r: u32)
    requires
        init + 65535 * ((data@.len() + 1) / 2) < 0x1_0000_0000,
    ensures
        r == init + word_sum(data@),
{
    let n = data.len();
    let mut sum: u32 = init;
    let mut i: usize = 0;
    proof {
        assert(data@.skip(0) =~= data@);
    }
    while i + 1 < n
        invariant
            i <= n,
            n == data@.len(),
            i % 2 == 0,
            init + 65535 * ((n + 1) / 2) < 0x1_0000_0000,
            sum as nat + word_sum(data@.skip(i as int)) == init + word_sum(data@),
            sum <= init + 65535 * (i / 2),
        decreases n - i,
    {
        proof {
            lemma_word_sum_step(data@, i as int);
        }
        sum = sum + ((data[i] as u32) * 256 + data[i + 1] as u32);
        i = i + 2;
    }
    if i < n {
        proof {
            lemma_word_sum_last(data@, i as int);
        }
        sum = sum + (data[i] as u32) * 256;
    } else {
        proof {
            lemma_word_sum_end(data@);
        }
    }
    sum
}

proof fn lemma_fold_step(x: nat)
    requires
        x >= 65536,
    ensures
        (x % 65536 + x / 65536) % 65535 == x % 65535,
        x % 65536 + x / 65536 > 0,
        x % 65536 + x / 65536 < x,
{
    let q = x / 65536;
    let r = x % 65536;
    assert(x == 65536 * q + r);
    assert((65536 * q + r) % 65535 == (q + r) % 65535) by (nonlinear_arith)
        requires
            q >= 0,
            r >= 0,
    {
        assert(65536 * q + r == 65535 * q + (q + r));
        vstd::arithmetic::div_mod::lemma_mod_multiples_vanish(q as int, (q + r) as int, 65535);
    }
}

/// Folds the carries of `sum` and complements the result.
fn fold_complement(sum: u32) -> (r: u16)
    ensures
        r == complement16(sum as nat),
{
    let ghost orig = sum as nat;
    let mut s: u32 = sum;
    while (s >> 16) != 0
        invariant
            s as nat % 65535 == orig % 65535,
            (s == 0) == (orig == 0),
        decreases s,
    {
        assert((s >> 16) == s / 65536 && (s & 0xffff) == s % 65536) by (bit_vector);
        proof {
            lemma_fold_step(s as nat);
        }
        s = (s & 0xffff) + (s >> 16);
    }
    assert((s >> 16) == s / 65536) by (bit_vector);
    assert(s <= 65535);
    assert(s as nat == ones_fold(orig));
    let t = s as u16;
    assert(!t == (65535 - t) as u16) by (bit_vector);
    !t
}

/// Internet checksum over `data` (RFC 1071), as used by ICMP.
pub fn icmp_checksum(data: &[u8]) -> (r: u16)
    requires
        data@.len() <= 131072,
    ensures
        r == internet_checksum(data@),
{
    let sum = add_words(data, 0);
    fold_complement(sum)
}


proof fn lemma_word_sum_put16(d: Seq<u8>, p: int, v: u16)
    requires
        0 <= p,
        p % 2 == 0,
        p + 1 < d.len(),
    ensures
        word_sum(put16(d, p, v)) + d[p] as nat * 256 + d[p + 1] as nat == word_sum(d) + v as nat,
    decreases p,
{
    let e = put16(d, p, v);
    if p == 0 {
        assert(e.skip(2) =~= d.skip(2));
    } else {
        assert(e.skip(2) =~= put16(d.skip(2), p - 2, v));
        lemma_word_sum_put16(d.skip(2), p - 2, v);
    }
}

proof fn lemma_fold_congruent(x: nat)
    ensures
        ones_fold(x) % 65535 == x % 65535,
        ones_fold(x) <= 65535,
        ones_fold(x) == 0 <==> x == 0,
{
}

/// Re-summing data that carries its own checksum gives zero: a word sum
/// `base` whose complement is stored as one more word folds to `0xffff`.
pub proof fn lemma_complement_closes(base: nat)
    ensures
        complement16(base + complement16(base) as nat) == 0,
{
    lemma_fold_congruent(base);
    let c = complement16(base) as nat;
    assert(c == 65535 - ones_fold(base));
    let t = base + c;
    assert(t > 0);
    assert(t % 65535 == 0) by {
        let f = ones_fold(base);
        assert(f % 65535 == base % 65535);
        vstd::arithmetic::div_mod::lemma_fundamental_div_mod(base as int, 65535);
        vstd::arithmetic::div_mod::lemma_fundamental_div_mod(f as int, 65535);
        assert(t == 65535 * (base as int / 65535) + 65535 - 65535 * (f as int / 65535));
        assert(t == 65535 * (base as int / 65535 + 1 - f as int / 65535));
        vstd::arithmetic::div_mod::lemma_mod_multiples_basic(
            base as int / 65535 + 1 - f as int / 65535,
            65535,
        );
    }
}

/// The Internet checksum of data whose 16-bit field at even offset `p` was
/// zero and then filled with the checksum of the data is zero.
pub proof fn lemma_checksum_verifies(d: Seq<u8>, p: int)
    requires
        0 <= p,
        p % 2 == 0,
        p + 1 < d.len(),
        d[p] == 0,
        d[p + 1] == 0,
    ensures
        internet_checksum(put16(d, p, internet_checksum(d))) == 0,
{
    lemma_word_sum_put16(d, p, internet_checksum(d));
    lemma_complement_closes(word_sum(d));
}

/// The same for a TCP segment under its pseudo-header.
pub proof fn lemma_tcp_checksum_verifies(src: Seq<u8>, dst: Seq<u8>, tcp: Seq<u8>, p: int)
    requires
        0 <= p,
        p % 2 == 0,
        p + 1 < tcp.len(),
        tcp[p] == 0,
        tcp[p + 1] == 0,
    ensures
        tcp_checksum_of(src, dst, put16(tcp, p, tcp_checksum_of(src, dst, tcp))) == 0,
{
    let c = tcp_checksum_of(src, dst, tcp);
    lemma_word_sum_put16(tcp, p, c);
    assert(put16(tcp, p, c).len() == tcp.len());
    lemma_complement_closes(pseudo_header_sum(src, dst, tcp.len()) + word_sum(tcp));
}


/// The ICMP echo request before its checksum is filled in: type 8, code 0,
/// a zero checksum, `ident`, `seq` and the payload `fwagentp`.
pub open spec fn icmp_echo_template(ident: u16, seq: u16) -> Seq<u8> {
    seq![
        8u8, 0u8, 0u8, 0u8, hi(ident), lo(ident), hi(seq), lo(seq),
        0x66u8, 0x77u8, 0x61u8, 0x67u8, 0x65u8, 0x6eu8, 0x74u8, 0x70u8,
    ]
}

/// The complete ICMP echo request, its checksum at bytes 2 and 3.
pub open spec fn icmp_echo_packet(ident: u16, seq: u16) -> Seq<u8> {
    put16(icmp_echo_template(ident, seq), 2, internet_checksum(icmp_echo_template(ident, seq)))
}

proof fn lemma_bytes16(x: u16)
    ensures
        ((x >> 8u16) as u8) == hi(x),
        ((x & 0xffu16) as u8) == lo(x),
{
    assert((x >> 8u16) == x / 256) by (bit_vector);
    assert((x & 0xffu16) == x % 256) by (bit_vector);
}

/// The big-endian bytes of `x`.
fn split16(x: u16) -> (r: (u8, u8))
    ensures
        r.0 == hi(x),
        r.1 == lo(x),
{
    proof {
        lemma_bytes16(x);
    }
    ((x >> 8u16) as u8, (x & 0xffu16) as u8)
}

/// Build a 16-byte ICMP echo request carrying `ident` and `seq`.
pub fn build_icmp_echo(ident: u16, seq: u16) -> (packet: [u8; 16])
    ensures
        packet@ == icmp_echo_packet(ident, seq),
        internet_checksum(packet@) == 0,
{
    let mut packet = [0u8; 16];
    let (ident_hi, ident_lo) = split16(ident);
    let (seq_hi, seq_lo) = split16(seq);
    packet[0] = 8;
    packet[4] = ident_hi;
    packet[5] = ident_lo;
    packet[6] = seq_hi;
    packet[7] = seq_lo;
    packet[8] = 0x66;
    packet[9] = 0x77;
    packet[10] = 0x61;
    packet[11] = 0x67;
    packet[12] = 0x65;
    packet[13] = 0x6e;
    packet[14] = 0x74;
    packet[15] = 0x70;
    assert(packet@ =~= icmp_echo_template(ident, seq));
    let (sum_hi, sum_lo) = split16(icmp_checksum(packet.as_slice()));
    packet[2] = sum_hi;
    packet[3] = sum_lo;
    assert(packet@ =~= icmp_echo_packet(ident, seq));
    proof {
        lemma_checksum_verifies(icmp_echo_template(ident, seq), 2);
    }
    packet
}

/// The ICMP timestamp request before its checksum is filled in: type 13,
/// code 0, a zero checksum, `ident`, `seq`, and zero originate, receive
/// and transmit timestamps.
pub open spec fn icmp_timestamp_template(ident: u16, seq: u16) -> Seq<u8> {
    seq![
        13u8, 0u8, 0u8, 0u8, hi(ident), lo(ident), hi(seq), lo(seq),
        0u8, 0u8, 0u8, 0u8, 0u8, 0u8, 0u8, 0u8, 0u8, 0u8, 0u8, 0u8,
    ]
}

/// The complete ICMP timestamp request, its checksum at bytes 2 and 3.
pub open spec fn icmp_timestamp_packet(ident: u16, seq: u16) -> Seq<u8> {
    put16(
        icmp_timestamp_template(ident, seq),
        2,
        internet_checksum(icmp_timestamp_template(ident, seq)),
    )
}

/// Build a 20-byte ICMP timestamp request carrying `ident` and `seq`.
pub fn build_icmp_timestamp(ident: u16, seq: u16) -> (packet: [u8; 20])
    ensures
        packet@ == icmp_timestamp_packet(ident, seq),
        internet_checksum(packet@) == 0,
{
    let mut packet = [0u8; 20];
    let (ident_hi, ident_lo) = split16(ident);
    let (seq_hi, seq_lo) = split16(seq);
    packet[0] = 13;
    packet[4] = ident_hi;
    packet[5] = ident_lo;
    packet[6] = seq_hi;
    packet[7] = seq_lo;
    assert(packet@ =~= icmp_timestamp_template(ident, seq));
    let (sum_hi, sum_lo) = split16(icmp_checksum(packet.as_slice()));
    packet[2] = sum_hi;
    packet[3] = sum_lo;
    assert(packet@ =~= icmp_timestamp_packet(ident, seq));
    proof {
        lemma_checksum_verifies(icmp_timestamp_template(ident, seq), 2);
    }
    packet
}

/// Whether the raw IPv4 `frame` holds an ICMP message of type `reply_type`
/// whose identifier is `ident`; the ICMP message starts after the IHL-sized
/// header (clamped to the frame length).
pub open spec fn is_reply_for(frame: Seq<u8>, reply_type: u8, ident: u16) -> bool {
    frame.len() > 0 && {
        let ihl = (frame[0] % 16) as int * 4;
        let start = if ihl < frame.len() { ihl } else { frame.len() as int };
        &&& frame.len() - start >= 6
        &&& frame[start] == reply_type
        &&& frame[start + 4] as int * 256 + frame[start + 5] as int == ident as int
    }
}

/// Whether the raw IPv4 `frame` holds an ICMP echo reply (type 0) whose
/// identifier is `ident`.
pub open spec fn is_echo_reply_for(frame: Seq<u8>, ident: u16) -> bool {
    is_reply_for(frame, 0, ident)
}

/// Parse a raw IPv4 frame and check it is an ICMP message of type
/// `reply_type` for `ident`.
pub fn is_matching_reply(frame: &[u8], reply_type: u8, ident: u16) -> (r: bool)
    ensures
        r == is_reply_for(frame@, reply_type, ident),
{
    let n = frame.len();
    if n == 0 {
        return false;
    }
    let first = frame[0];
    assert((first & 0x0fu8) == first % 16) by (bit_vector);
    let ihl = ((first & 0x0fu8) as usize) * 4;
    let start = if ihl < n { ihl } else { n };
    n - start >= 6 && frame[start] == reply_type && (frame[start + 4] as u32) * 256
        + frame[start + 5] as u32 == ident as u32
}

/// Parse a raw IPv4 frame and check it is an ICMP echo reply for `ident`.
pub fn is_matching_echo_reply(frame: &[u8], ident: u16) -> (r: bool)
    ensures
        r == is_echo_reply_for(frame@, ident),
{
    is_matching_reply(frame, 0, ident)
}

/// Internet checksum over the TCP pseudo-header and the TCP segment.
pub fn tcp_checksum(src: [u8; 4], dst: [u8; 4], tcp: &[u8]) -> (r: u16)
    requires
        tcp@.len() <= 131062,
    ensures
        r == tcp_checksum_of(src@, dst@, tcp@),
{
    let len = tcp.len();
    let tcp_len: u16 = (len % 65536) as u16;
    let pseudo: u32 = (src[0] as u32) * 256 + src[1] as u32 + (src[2] as u32) * 256 + src[3] as u32
        + (dst[0] as u32) * 256 + dst[1] as u32 + (dst[2] as u32) * 256 + dst[3] as u32 + 6
        + tcp_len as u32;
    proof {
        reveal_with_fuel(word_sum, 3);
        assert(src@.skip(2).skip(2).len() == 0);
        assert(dst@.skip(2).skip(2).len() == 0);
        assert(pseudo as nat == pseudo_header_sum(src@, dst@, tcp@.len()));
    }
    let sum = add_words(tcp, pseudo);
    fold_complement(sum)
}

/// The bare-FIN TCP segment before its checksum is filled in: ports, the
/// sequence number, data offset 5 words with only the FIN flag, window 1024.
pub open spec fn fin_template(sport: u16, dport: u16, seq: u32) -> Seq<u8> {
    seq![
        hi(sport), lo(sport), hi(dport), lo(dport),
        (seq / 16777216) as u8, (seq / 65536 % 256) as u8, (seq / 256 % 256) as u8, (seq % 256) as u8,
        0u8, 0u8, 0u8, 0u8, 0x50u8, 0x01u8, 0x04u8, 0x00u8, 0u8, 0u8, 0u8, 0u8,
    ]
}

/// The complete bare-FIN segment, its checksum at bytes 16 and 17.
pub open spec fn fin_segment(src: Seq<u8>, dst: Seq<u8>, sport: u16, dport: u16, seq: u32) -> Seq<u8> {
    put16(fin_template(sport, dport, seq), 16, tcp_checksum_of(src, dst, fin_template(sport, dport, seq)))
}

/// Build a 20-byte bare-FIN TCP segment (data offset 5, only the FIN flag set).
pub fn build_fin(src: [u8; 4], dst: [u8; 4], sport: u16, dport: u16, seq: u32) -> (tcp: [u8; 20])
    ensures
        tcp@ == fin_segment(src@, dst@, sport, dport, seq),
        tcp_checksum_of(src@, dst@, tcp@) == 0,
{
    let mut tcp = [0u8; 20];
    proof {
        lemma_bytes16(sport);
        lemma_bytes16(dport);
    }
    tcp[0] = (sport >> 8u16) as u8;
    tcp[1] = (sport & 0xffu16) as u8;
    tcp[2] = (dport >> 8u16) as u8;
    tcp[3] = (dport & 0xffu16) as u8;
    assert((seq >> 24u32) as u8 == (seq / 16777216) as u8) by (bit_vector);
    assert(((seq >> 16u32) & 0xffu32) as u8 == (seq / 65536 % 256) as u8) by (bit_vector);
    assert(((seq >> 8u32) & 0xffu32) as u8 == (seq / 256 % 256) as u8) by (bit_vector);
    assert((seq & 0xffu32) as u8 == (seq % 256) as u8) by (bit_vector);
    tcp[4] = (seq >> 24u32) as u8;
    tcp[5] = ((seq >> 16u32) & 0xffu32) as u8;
    tcp[6] = ((seq >> 8u32) & 0xffu32) as u8;
    tcp[7] = (seq & 0xffu32) as u8;
    let off_flags: u16 = (5u16 << 12u16) | 0x0001u16;
    assert(off_flags == 0x5001) by (bit_vector)
        requires
            off_flags == (5u16 << 12u16) | 0x0001u16,
    ;
    proof {
        lemma_bytes16(off_flags);
        lemma_bytes16(1024u16);
    }
    tcp[12] = (off_flags >> 8u16) as u8;
    tcp[13] = (off_flags & 0xffu16) as u8;
    tcp[14] = (1024u16 >> 8u16) as u8;
    tcp[15] = (1024u16 & 0xffu16) as u8;
    assert(tcp@ =~= fin_template(sport, dport, seq));
    let checksum = tcp_checksum(src, dst, tcp.as_slice());
    proof {
        lemma_bytes16(checksum);
    }
    tcp[16] = (checksum >> 8u16) as u8;
    tcp[17] = (checksum & 0xffu16) as u8;
    assert(tcp@ =~= fin_segment(src@, dst@, sport, dport, seq));
    proof {
        lemma_tcp_checksum_verifies(src@, dst@, fin_template(sport, dport, seq), 16);
    }
    tcp
}

/// The 42-byte gratuitous ARP reply claiming `ip` at `mac`: an Ethernet
/// broadcast header of type ARP, then an Ethernet/IPv4 ARP reply whose
/// sender and target protocol address are both `ip`, target hardware
/// address broadcast.
pub open spec fn arp_reply_frame(mac: Seq<u8>, ip: Seq<u8>) -> Seq<u8> {
    let bcast = seq![0xffu8, 0xffu8, 0xffu8, 0xffu8, 0xffu8, 0xffu8];
    bcast + mac + seq![0x08u8, 0x06u8, 0x00u8, 0x01u8, 0x08u8, 0x00u8, 6u8, 4u8, 0x00u8, 0x02u8]
        + mac + ip + bcast + ip
}

/// Build a 42-byte Ethernet + ARP reply frame claiming `claim_ip` at `src_mac`,
/// broadcast to all hosts (gratuitous ARP).
pub fn build_arp_reply(src_mac: [u8; 6], claim_ip: [u8; 4]) -> (frame: [u8; 42])
    ensures
        frame@ == arp_reply_frame(src_mac@, claim_ip@),
{
    let mut frame = [0u8; 42];
    frame[0] = 0xff;
    frame[1] = 0xff;
    frame[2] = 0xff;
    frame[3] = 0xff;
    frame[4] = 0xff;
    frame[5] = 0xff;
    frame[6] = src_mac[0];
    frame[7] = src_mac[1];
    frame[8] = src_mac[2];
    frame[9] = src_mac[3];
    frame[10] = src_mac[4];
    frame[11] = src_mac[5];
    frame[12] = 0x08;
    frame[13] = 0x06;
    frame[14] = 0x00;
    frame[15] = 0x01;
    frame[16] = 0x08;
    frame[17] = 0x00;
    frame[18] = 6;
    frame[19] = 4;
    frame[20] = 0x00;
    frame[21] = 0x02;
    frame[22] = src_mac[0];
    frame[23] = src_mac[1];
    frame[24] = src_mac[2];
    frame[25] = src_mac[3];
    frame[26] = src_mac[4];
    frame[27] = src_mac[5];
    frame[28] = claim_ip[0];
    frame[29] = claim_ip[1];
    frame[30] = claim_ip[2];
    frame[31] = claim_ip[3];
    frame[32] = 0xff;
    frame[33] = 0xff;
    frame[34] = 0xff;
    frame[35] = 0xff;
    frame[36] = 0xff;
    frame[37] = 0xff;
    frame[38] = claim_ip[0];
    frame[39] = claim_ip[1];
    frame[40] = claim_ip[2];
    frame[41] = claim_ip[3];
    assert(frame@ =~= arp_reply_frame(src_mac@, claim_ip@));
    frame
}

} // verus!
