//! Network addresses, and those that pictures are never fetched from.
use vstd::prelude::*;

verus! {

/// An address of the Internet Protocol: the four octets of version 4, or the eight segments
/// of version 6.
#[derive(Clone, Copy, Debug, PartialEq, Eq)]
pub enum IpAddr {
    V4([u8; 4]),
    V6([u16; 8]),
}

/// The private networks 10.0.0.0/8, 172.16.0.0/12 and 192.168.0.0/16.
pub open spec fn is_private(octets: Seq<u8>) -> bool {
    ||| octets[0] == 10
    ||| octets[0] == 172 && 16 <= octets[1] <= 31
    ||| octets[0] == 192 && octets[1] == 168
}

/// The addresses of version 4 that are not out on the public network: private networks, the
/// loopback network 127.0.0.0/8, the link-local network 169.254.0.0/16, 0.0.0.0, the
/// multicast networks 224.0.0.0/4 and the broadcast address.
pub open spec fn is_blocked_v4(octets: Seq<u8>) -> bool {
    ||| is_private(octets)
    ||| octets[0] == 127
    ||| octets[0] == 169 && octets[1] == 254
    ||| octets == seq![0u8, 0, 0, 0]
    ||| 224 <= octets[0] <= 239
    ||| octets == seq![255u8, 255, 255, 255]
}

/// The version 4 address that a version 6 address of the form `::ffff:a.b.c.d` stands for.
pub open spec fn mapped_v4(segments: Seq<u16>) -> Option<Seq<u8>> {
    if segments.take(6) == seq![0u16, 0, 0, 0, 0, 0xffff] {
        Some(
            seq![
                (segments[6] / 256) as u8,
                (segments[6] % 256) as u8,
                (segments[7] / 256) as u8,
                (segments[7] % 256) as u8,
            ],
        )
    } else {
        None
    }
}

/// The addresses of version 6 that are not out on the public network: `::1`, `::`, the
/// multicast network ff00::/8, the link-local network fe80::/10, the unique local network
/// fc00::/7, and those that stand for a blocked address of version 4.
pub open spec fn is_blocked_v6(segments: Seq<u16>) -> bool {
    ||| segments == seq![0u16, 0, 0, 0, 0, 0, 0, 1]
    ||| segments == seq![0u16, 0, 0, 0, 0, 0, 0, 0]
    ||| 0xff00 <= segments[0]
    ||| 0xfe80 <= segments[0] <= 0xfebf
    ||| 0xfc00 <= segments[0] <= 0xfdff
    ||| (mapped_v4(segments) matches Some(octets) && is_blocked_v4(octets))
}

/// The addresses that pictures are never fetched from.
pub open spec fn is_blocked(ip: IpAddr) -> bool {
    match ip {
        IpAddr::V4(octets) => is_blocked_v4(octets@),
        IpAddr::V6(segments) => is_blocked_v6(segments@),
    }
}

fn is_blocked_octets(octets: &[u8; 4]) -> (blocked: bool)
    ensures
        blocked == is_blocked_v4(octets@),
{
    let (a, b, c, d): (u8, u8, u8, u8) = (octets[0], octets[1], octets[2], octets[3]);
    assert(octets@ =~= seq![a, b, c, d]);
    let private: bool = a == 10 || (a == 172 && 16 <= b && b <= 31) || (a == 192 && b == 168);
    let loopback: bool = a == 127;
    let link_local: bool = a == 169 && b == 254;
    let unspecified: bool = a == 0 && b == 0 && c == 0 && d == 0;
    let multicast: bool = 224 <= a && a <= 239;
    let broadcast: bool = a == 255 && b == 255 && c == 255 && d == 255;
    private || loopback || link_local || unspecified || multicast || broadcast
}

/// Whether the first `count` segments are those of `other`.
fn same_segments(segments: &[u16; 8], other: [u16; 8], count: usize) -> (same: bool)
    requires
        count <= 8,
    ensures
        same == (segments@.take(count as int) == other@.take(count as int)),
{
    let mut i: usize = 0;
    while i < count
        invariant
            i <= count <= 8,
            forall|j: int| 0 <= j < i ==> segments@[j] == other@[j],
        decreases count - i,
    {
        if segments[i] != other[i] {
            assert(segments@.take(count as int)[i as int] != other@.take(count as int)[i as int]);
            return false;
        }
        i += 1;
    }
    assert(segments@.take(count as int) =~= other@.take(count as int));
    true
}

fn to_ipv4_mapped(segments: &[u16; 8]) -> (mapped: Option<[u8; 4]>)
    ensures
        match mapped {
            Some(octets) => mapped_v4(segments@) == Some(octets@),
            None => mapped_v4(segments@) is None,
        },
{
    let prefix: [u16; 8] = [0, 0, 0, 0, 0, 0xffff, 0, 0];
    assert(prefix@.take(6) =~= seq![0u16, 0, 0, 0, 0, 0xffff]);
    if same_segments(segments, prefix, 6) {
        let octets: [u8; 4] = [
            (segments[6] / 256) as u8,
            (segments[6] % 256) as u8,
            (segments[7] / 256) as u8,
            (segments[7] % 256) as u8,
        ];
        Some(octets)
    } else {
        None
    }
}

fn is_blocked_segments(segments: &[u16; 8]) -> (blocked: bool)
    ensures
        blocked == is_blocked_v6(segments@),
{
    let first: u16 = segments[0];
    proof {
        assert(first & 0xffc0 == 0xfe80 <==> 0xfe80 <= first <= 0xfebf) by (bit_vector);
        assert(first & 0xfe00 == 0xfc00 <==> 0xfc00 <= first <= 0xfdff) by (bit_vector);
        assert(first & 0xff00 == 0xff00 <==> 0xff00 <= first) by (bit_vector);
        assert(segments@.take(8) =~= segments@);
    }
    let one: [u16; 8] = [0, 0, 0, 0, 0, 0, 0, 1];
    let zero: [u16; 8] = [0, 0, 0, 0, 0, 0, 0, 0];
    assert(one@.take(8) =~= seq![0u16, 0, 0, 0, 0, 0, 0, 1]);
    assert(zero@.take(8) =~= seq![0u16, 0, 0, 0, 0, 0, 0, 0]);
    let is_link_local: bool = first & 0xffc0 == 0xfe80;
    let is_unique_local: bool = first & 0xfe00 == 0xfc00;
    let is_multicast: bool = first & 0xff00 == 0xff00;
    let is_loopback: bool = same_segments(segments, one, 8);
    let is_unspecified: bool = same_segments(segments, zero, 8);
    let is_mapped_blocked: bool = match to_ipv4_mapped(segments) {
        Some(octets) => is_blocked_octets(&octets),
        None => false,
    };
    is_loopback || is_unspecified || is_multicast || is_link_local || is_unique_local
        || is_mapped_blocked
}

/// Whether a picture must not be fetched from an address.
pub fn is_blocked_image_ip(ip: IpAddr) -> (blocked: bool)
    ensures
        blocked == is_blocked(ip),
{
    match ip {
        IpAddr::V4(octets) => is_blocked_octets(&octets),
        IpAddr::V6(segments) => is_blocked_segments(&segments),
    }
}

/// An address of version 4 is blocked if and only if its form in version 6,
/// `::ffff:a.b.c.d`, is: there is no way around the block through the other version.
pub proof fn law_mapped_address_is_blocked_alike(octets: [u8; 4], segments: [u16; 8])
    requires
        segments@.take(6) == seq![0u16, 0, 0, 0, 0, 0xffff],
        segments@[6] == octets@[0] * 256 + octets@[1],
        segments@[7] == octets@[2] * 256 + octets@[3],
    ensures
        is_blocked(IpAddr::V6(segments)) == is_blocked(IpAddr::V4(octets)),
{
    assert(mapped_v4(segments@)->0 =~= octets@);
}

/// An address of version 4, read as a number, is blocked if and only if it lies in one of the
/// networks 10/8, 172.16/12, 192.168/16, 127/8, 169.254/16 and 224/4, or is the first or the
/// last address of all.
pub proof fn law_blocked_ranges_of_version_4(octets: [u8; 4])
    ensures
        ({
            let n = octets@[0] * 0x100_0000 + octets@[1] * 0x1_0000 + octets@[2] * 0x100
                + octets@[3];
            is_blocked(IpAddr::V4(octets)) <==> {
                ||| 0x0a00_0000 <= n <= 0x0aff_ffff
                ||| 0xac10_0000 <= n <= 0xac1f_ffff
                ||| 0xc0a8_0000 <= n <= 0xc0a8_ffff
                ||| 0x7f00_0000 <= n <= 0x7fff_ffff
                ||| 0xa9fe_0000 <= n <= 0xa9fe_ffff
                ||| 0xe000_0000 <= n <= 0xefff_ffff
                ||| n == 0
                ||| n == 0xffff_ffff
            }
        }),
{
    let s = octets@;
    assert(s =~= seq![s[0], s[1], s[2], s[3]]);
    let n = s[0] * 0x100_0000 + s[1] * 0x1_0000 + s[2] * 0x100 + s[3];
    if n == 0 {
        assert(s =~= seq![0u8, 0, 0, 0]);
    }
    if n == 0xffff_ffff {
        assert(s =~= seq![255u8, 255, 255, 255]);
    }
}

/// An address of version 6, read as a number, is blocked if and only if it is `::` or `::1`, lies
/// in one of the networks fc00::/7, fe80::/10 and ff00::/8, or in `::ffff:0:0/96` at the place of
/// a blocked address of version 4.
pub proof fn law_blocked_ranges_of_version_6(segments: [u16; 8])
    ensures
        ({
            let n = segments@[0] * 0x1_0000_0000_0000_0000_0000_0000_0000int + segments@[1]
                * 0x1_0000_0000_0000_0000_0000_0000int + segments@[2]
                * 0x1_0000_0000_0000_0000_0000int + segments@[3] * 0x1_0000_0000_0000_0000int
                + segments@[4] * 0x1_0000_0000_0000int + segments@[5] * 0x1_0000_0000int
                + segments@[6] * 0x1_0000int + segments@[7];
            let v4 = n - 0xffff_0000_0000int;
            is_blocked(IpAddr::V6(segments)) <==> {
                ||| n == 0
                ||| n == 1
                ||| 0xfc00_0000_0000_0000_0000_0000_0000_0000int <= n
                    <= 0xfdff_ffff_ffff_ffff_ffff_ffff_ffff_ffffint
                ||| 0xfe80_0000_0000_0000_0000_0000_0000_0000int <= n
                    <= 0xfebf_ffff_ffff_ffff_ffff_ffff_ffff_ffffint
                ||| 0xff00_0000_0000_0000_0000_0000_0000_0000int <= n
                ||| 0x0a00_0000 <= v4 <= 0x0aff_ffff
                ||| 0xac10_0000 <= v4 <= 0xac1f_ffff
                ||| 0xc0a8_0000 <= v4 <= 0xc0a8_ffff
                ||| 0x7f00_0000 <= v4 <= 0x7fff_ffff
                ||| 0xa9fe_0000 <= v4 <= 0xa9fe_ffff
                ||| 0xe000_0000 <= v4 <= 0xefff_ffff
                ||| v4 == 0
                ||| v4 == 0xffff_ffff
            }
        }),
{
    let s = segments@;
    let n = s[0] * 0x1_0000_0000_0000_0000_0000_0000_0000int + s[1]
        * 0x1_0000_0000_0000_0000_0000_0000int + s[2] * 0x1_0000_0000_0000_0000_0000int + s[3]
        * 0x1_0000_0000_0000_0000int + s[4] * 0x1_0000_0000_0000int + s[5] * 0x1_0000_0000int
        + s[6] * 0x1_0000int + s[7];
    let v4 = n - 0xffff_0000_0000int;
    assert(s =~= seq![s[0], s[1], s[2], s[3], s[4], s[5], s[6], s[7]]);
    if n == 0 {
        assert(s =~= seq![0u16, 0, 0, 0, 0, 0, 0, 0]);
    }
    if n == 1 {
        assert(s =~= seq![0u16, 0, 0, 0, 0, 0, 0, 1]);
    }
    if 0 <= v4 <= 0xffff_ffff {
        assert(s.take(6) =~= seq![0u16, 0, 0, 0, 0, 0xffff]);
    }
    if s.take(6) == seq![0u16, 0, 0, 0, 0, 0xffff] {
        assert(s.take(6)[0] == 0 && s.take(6)[1] == 0 && s.take(6)[2] == 0 && s.take(6)[3] == 0
            && s.take(6)[4] == 0 && s.take(6)[5] == 0xffff);
        let (a, b, c, d) = (
            (s[6] / 256) as u8,
            (s[6] % 256) as u8,
            (s[7] / 256) as u8,
            (s[7] % 256) as u8,
        );
        let octets = [a, b, c, d];
        assert(octets@ =~= seq![a, b, c, d]);
        law_blocked_ranges_of_version_4(octets);
        assert(s[6] == a * 256 + b && s[7] == c * 256 + d);
        assert(v4 == a * 0x100_0000 + b * 0x1_0000 + c * 0x100 + d);
        assert(mapped_v4(s) == Some(octets@));
    }
}

} // verus!
