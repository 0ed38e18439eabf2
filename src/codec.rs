//! ICMP Echo datagrams: the Internet checksum, Echo Request construction and
//! the decoding of a raw reply buffer.

use vstd::arithmetic::div_mod::{lemma_fundamental_div_mod, lemma_mod_multiples_vanish};
use vstd::prelude::*;

verus! {

/// Largest value of a 16-bit word, and the modulus of one's-complement sums.
pub const WORD_MAX: u32 = 0xFFFF;

/// The 16-bit big-endian word at word index `i`; a missing trailing byte
/// counts as a zero low byte.
pub open spec fn word_at(b: Seq<u8>, i: int) -> int {
    b[2 * i] as int * 256 + if 2 * i + 1 < b.len() {
        b[2 * i + 1] as int
    } else {
        0
    }
}

/// Number of 16-bit words in `b`, counting a trailing odd byte as a word.
pub open spec fn word_count(b: Seq<u8>) -> int {
    (b.len() as int + 1) / 2
}

/// Plain sum of the first `n` words of `b`.
pub open spec fn word_sum(b: Seq<u8>, n: int) -> int
    decreases n,
{
    if n <= 0 {
        0
    } else {
        word_sum(b, n - 1) + word_at(b, n - 1)
    }
}

/// Folds the carries out of bit 16 back into the low 16 bits, repeatedly,
/// until no carry remains.
pub open spec fn fold_carries(s: int) -> int
    decreases s,
{
    if s < 0x10000 {
        s
    } else {
        proof {
            lemma_fundamental_div_mod(s, 0x10000);
        }
        fold_carries(s % 0x10000 + s / 0x10000)
    }
}

/// The Internet checksum of RFC 1071: the one's complement of the folded sum
/// of all words.
pub open spec fn internet_checksum(b: Seq<u8>) -> int {
    0xFFFF - fold_carries(word_sum(b, word_count(b)))
}

/// The folded sum in closed form: zero stays zero, anything else lands in
/// `1..=0xFFFF` with the same remainder modulo `0xFFFF`.
spec fn folded(s: int) -> int {
    if s == 0 {
        0
    } else {
        (s - 1) % 0xFFFF + 1
    }
}

proof fn lemma_folded_congruent(s: int, t: int, q: int)
    requires
        s > 0,
        t > 0,
        s == t + 0xFFFF * q,
    ensures
        folded(s) == folded(t),
{
    lemma_mod_multiples_vanish(q, t - 1, 0xFFFF);
}

proof fn lemma_fold_carries_closed(s: int)
    requires
        s >= 0,
    ensures
        fold_carries(s) == folded(s),
    decreases s,
{
    if s >= 0x10000 {
        let t = s % 0x10000 + s / 0x10000;
        lemma_fundamental_div_mod(s, 0x10000);
        assert(s == t + 0xFFFF * (s / 0x10000));
        lemma_fold_carries_closed(t);
        lemma_folded_congruent(s, t, s / 0x10000);
    }
}

proof fn lemma_folded_add(s: int, w: int)
    requires
        s >= 0,
        w >= 0,
    ensures
        folded(s + w) == folded(folded(s) + w),
{
    if s > 0 {
        let f = folded(s);
        lemma_fundamental_div_mod(s - 1, 0xFFFF);
        assert(s + w == (f + w) + 0xFFFF * ((s - 1) / 0xFFFF));
        lemma_folded_congruent(s + w, f + w, (s - 1) / 0xFFFF);
    }
}

proof fn lemma_folded_small(x: int)
    requires
        0 <= x <= 2 * 0xFFFF,
    ensures
        x <= 0xFFFF ==> folded(x) == x,
        x > 0xFFFF ==> folded(x) == x - 0xFFFF,
{
    if x > 0xFFFF {
        lemma_folded_congruent(x, x - 0xFFFF, 1);
    }
}

proof fn lemma_word_bounds(b: Seq<u8>, i: int)
    requires
        0 <= i < word_count(b),
    ensures
        0 <= word_at(b, i) <= 0xFFFF,
{
}

/// The Internet checksum of `bytes`.
pub fn checksum(bytes: &[u8]) -> (r: u16)
    ensures
        r as int == internet_checksum(bytes@),
{
    let n = bytes.len();
    let words: usize = n / 2 + n % 2;
    let mut acc: u32 = 0;
    let mut w: usize = 0;
    while w < words
        invariant
            n == bytes@.len(),
            words as int == word_count(bytes@),
            w <= words,
            acc <= WORD_MAX,
            acc as int == folded(word_sum(bytes@, w as int)),
        decreases words - w,
    {
        let hi = bytes[2 * w] as u32;
        let lo: u32 = if 2 * w + 1 < n {
            bytes[2 * w + 1] as u32
        } else {
            0
        };
        proof {
            lemma_word_bounds(bytes@, w as int);
            assert(word_sum(bytes@, w + 1) >= 0) by {
                lemma_word_sum_nonneg(bytes@, w + 1);
            }
            lemma_word_sum_nonneg(bytes@, w as int);
            lemma_folded_add(word_sum(bytes@, w as int), word_at(bytes@, w as int));
            lemma_folded_small(acc + word_at(bytes@, w as int));
        }
        acc = acc + hi * 256 + lo;
        if acc > WORD_MAX {
            acc = acc - WORD_MAX;
        }
        w = w + 1;
    }
    proof {
        lemma_word_sum_nonneg(bytes@, w as int);
        lemma_fold_carries_closed(word_sum(bytes@, w as int));
    }
    (WORD_MAX - acc) as u16
}

proof fn lemma_word_sum_nonneg(b: Seq<u8>, n: int)
    requires
        n <= word_count(b),
    ensures
        word_sum(b, n) >= 0,
    decreases n,
{
    if n > 0 {
        lemma_word_sum_nonneg(b, n - 1);
    }
}

proof fn lemma_word_sum_update(b: Seq<u8>, k: int, hi: u8, lo: u8, n: int)
    requires
        0 <= k,
        k % 2 == 0,
        k + 1 < b.len(),
        b[k] == 0,
        b[k + 1] == 0,
        n <= word_count(b),
    ensures
        word_sum(b.update(k, hi).update(k + 1, lo), n) == word_sum(b, n) + if k / 2 < n {
            hi as int * 256 + lo as int
        } else {
            0
        },
    decreases n,
{
    if n > 0 {
        lemma_word_sum_update(b, k, hi, lo, n - 1);
        let b2 = b.update(k, hi).update(k + 1, lo);
        if n - 1 == k / 2 {
            assert(2 * (n - 1) == k);
        } else {
            assert(2 * (n - 1) != k && 2 * (n - 1) + 1 != k + 1);
            assert(2 * (n - 1) != k + 1 && 2 * (n - 1) + 1 != k);
            assert(word_at(b2, n - 1) == word_at(b, n - 1));
        }
    }
}

/// The checksum of a packet, written big-endian into a zeroed, word-aligned
/// 16-bit field of that packet, makes the checksum of the whole packet zero.
pub proof fn lemma_checksum_self_verifies(b: Seq<u8>, k: int)
    requires
        b.len() % 2 == 0,
        0 <= k,
        k % 2 == 0,
        k + 1 < b.len(),
        b[k] == 0,
        b[k + 1] == 0,
    ensures
        ({
            let c = internet_checksum(b);
            internet_checksum(b.update(k, (c / 256) as u8).update(k + 1, (c % 256) as u8)) == 0
        }),
{
    let n = word_count(b);
    let s = word_sum(b, n);
    lemma_word_sum_nonneg(b, n);
    lemma_fold_carries_closed(s);
    let f = folded(s);
    let c = 0xFFFF - f;
    assert(0 <= f <= 0xFFFF);
    let b2 = b.update(k, (c / 256) as u8).update(k + 1, (c % 256) as u8);
    lemma_word_sum_update(b, k, (c / 256) as u8, (c % 256) as u8, n);
    assert(word_count(b2) == n);
    assert(word_sum(b2, n) == s + c);
    lemma_fold_carries_closed(s + c);
    if s > 0 {
        lemma_fundamental_div_mod(s - 1, 0xFFFF);
        lemma_folded_congruent(s + c, 0xFFFF, (s - 1) / 0xFFFF);
    }
}

/// ICMP message type of an Echo Request.
pub const ECHO_REQUEST: u8 = 8;

/// ICMP message type of an Echo Reply.
pub const ECHO_REPLY: u8 = 0;

/// ICMP message type of a Time Exceeded message, sent by a router that
/// dropped a probe whose time-to-live ran out.
pub const TIME_EXCEEDED: u8 = 11;

/// Length of the IPv4 header that precedes the ICMP message in a raw reply.
pub const IP_HEADER_LEN: usize = 20;

/// Smallest reply buffer that can be decoded: an IPv4 header and an ICMP header.
pub const MIN_REPLY_LEN: usize = 28;

/// The eight bytes of an Echo Request with its checksum field still zero.
pub open spec fn echo_request_unsummed(identifier: u16, sequence: u16) -> Seq<u8> {
    seq![
        ECHO_REQUEST,
        0u8,
        0u8,
        0u8,
        (identifier / 256) as u8,
        (identifier % 256) as u8,
        (sequence / 256) as u8,
        (sequence % 256) as u8,
    ]
}

/// An Echo Request: type 8, code 0, the checksum, the identifier and the
/// sequence number, each 16-bit field big-endian.
pub open spec fn echo_request(identifier: u16, sequence: u16) -> Seq<u8> {
    let z = echo_request_unsummed(identifier, sequence);
    let c = internet_checksum(z);
    z.update(2, (c / 256) as u8).update(3, (c % 256) as u8)
}

/// Builds the bytes of an Echo Request; the packet's own checksum is zero.
pub fn build_echo_request(identifier: u16, sequence: u16) -> (r: Vec<u8>)
    ensures
        r@ == echo_request(identifier, sequence),
        r@.len() == 8,
        internet_checksum(r@) == 0,
{
    let mut packet: Vec<u8> = vec![
        ECHO_REQUEST,
        0u8,
        0u8,
        0u8,
        (identifier / 256) as u8,
        (identifier % 256) as u8,
        (sequence / 256) as u8,
        (sequence % 256) as u8,
    ];
    assert(packet@ =~= echo_request_unsummed(identifier, sequence));
    let c = checksum(packet.as_slice());
    packet.set(2, (c / 256) as u8);
    packet.set(3, (c % 256) as u8);
    proof {
        lemma_checksum_self_verifies(echo_request_unsummed(identifier, sequence), 2);
        assert(packet@ =~= echo_request(identifier, sequence));
    }
    packet
}

/// The header fields of a decoded reply.
#[derive(Clone, Copy, Debug, PartialEq, Eq)]
pub struct IcmpReply {
    /// ICMP message type.
    pub icmp_type: u8,
    /// ICMP message code.
    pub code: u8,
    /// Source address of the enclosing IPv4 datagram.
    pub source: [u8; 4],
}

/// Why a reply buffer could not be decoded.
#[derive(Clone, Copy, Debug, PartialEq, Eq)]
pub enum DecodeError {
    /// The buffer holds fewer bytes than an IPv4 header and an ICMP header.
    TooShort,
}

/// Decodes a reply read from a raw ICMPv4 socket: the IPv4 header comes
/// first, with the source address in its bytes 12 to 15, then the ICMP header.
pub fn parse_reply(bytes: &[u8]) -> (r: Result<IcmpReply, DecodeError>)
    ensures
        bytes@.len() < MIN_REPLY_LEN ==> r == Err::<IcmpReply, DecodeError>(DecodeError::TooShort),
        bytes@.len() >= MIN_REPLY_LEN ==> r is Ok,
        r matches Ok(reply) ==> {
            &&& reply.icmp_type == bytes@[IP_HEADER_LEN as int]
            &&& reply.code == bytes@[IP_HEADER_LEN + 1]
            &&& reply.source@ == bytes@.subrange(12, 16)
        },
{
    if bytes.len() < MIN_REPLY_LEN {
        return Err(DecodeError::TooShort);
    }
    let source: [u8; 4] = [bytes[12], bytes[13], bytes[14], bytes[15]];
    assert(source@ =~= bytes@.subrange(12, 16));
    Ok(IcmpReply { icmp_type: bytes[IP_HEADER_LEN], code: bytes[IP_HEADER_LEN + 1], source })
}

} // verus!
