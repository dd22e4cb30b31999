//! IPv4 endpoint addresses.
use vstd::prelude::*;
use vstd::arithmetic::div_mod::lemma_fundamental_div_mod_converse;
use vstd::utf8::encode_utf8;

verus! {

/// An IPv4 address and UDP port. `ip` holds the four octets big-endian,
/// so `127.0.0.1` is `0x7f00_0001`.
#[derive(Clone, Copy, Debug, PartialEq, Eq, Structural)]
pub struct Address {
    pub ip: u32,
    pub port: u16,
}

impl Address {
    /// The address with octets `a.b.c.d` and the given port.
    pub fn new(a: u8, b: u8, c: u8, d: u8, port: u16) -> (r: Address)
        ensures
            r.ip == a as u32 * 0x100_0000 + b as u32 * 0x1_0000 + c as u32 * 0x100 + d as u32,
            r.port == port,
    {
        let ip = a as u32 * 0x100_0000 + b as u32 * 0x1_0000 + c as u32 * 0x100 + d as u32;
        Address { ip, port }
    }

    /// The four octets, most significant first.
    pub fn octets(&self) -> (r: [u8; 4])
        ensures
            r@ == seq![
                (self.ip / 0x100_0000) as u8,
                (self.ip / 0x1_0000 % 0x100) as u8,
                (self.ip / 0x100 % 0x100) as u8,
                (self.ip % 0x100) as u8,
            ],
    {
        let r = [
            (self.ip / 0x100_0000) as u8,
            (self.ip / 0x1_0000 % 0x100) as u8,
            (self.ip / 0x100 % 0x100) as u8,
            (self.ip % 0x100) as u8,
        ];
        assert(r@ =~= seq![
            (self.ip / 0x100_0000) as u8,
            (self.ip / 0x1_0000 % 0x100) as u8,
            (self.ip / 0x100 % 0x100) as u8,
            (self.ip % 0x100) as u8,
        ]);
        r
    }
}

pub open spec fn is_digit(c: u8) -> bool {
    48 <= c <= 57
}

/// Decimal digits of `n` (below 1000), without leading zeros.
pub open spec fn dec_bytes(n: u32) -> Seq<u8> {
    if n < 10 {
        seq![(48 + n) as u8]
    } else if n < 100 {
        seq![(48 + n / 10) as u8, (48 + n % 10) as u8]
    } else {
        seq![(48 + n / 100) as u8, (48 + n / 10 % 10) as u8, (48 + n % 10) as u8]
    }
}

/// Octet `k` (0 is the most significant) of `ip`.
pub open spec fn octet(ip: u32, k: int) -> u32 {
    if k == 0 {
        ip / 0x100_0000
    } else if k == 1 {
        ip / 0x1_0000 % 0x100
    } else if k == 2 {
        ip / 0x100 % 0x100
    } else {
        ip % 0x100
    }
}

/// The dotted-quad text of `ip`, as ASCII bytes (`127.0.0.1`).
pub open spec fn ipv4_bytes(ip: u32) -> Seq<u8> {
    dec_bytes(octet(ip, 0)) + seq![46u8] + dec_bytes(octet(ip, 1)) + seq![46u8] + dec_bytes(
        octet(ip, 2),
    ) + seq![46u8] + dec_bytes(octet(ip, 3))
}

/// The address whose dotted-quad text is `b`, if any.
pub open spec fn ipv4_parse(b: Seq<u8>) -> Option<u32> {
    if exists|ip: u32| b == ipv4_bytes(ip) {
        Some(choose|ip: u32| b == ipv4_bytes(ip))
    } else {
        None
    }
}

/// An octet's text sits at `i..j` of `b` and is not followed by a digit.
pub open spec fn octet_at(b: Seq<u8>, i: int, j: int, v: u32) -> bool {
    &&& v < 256
    &&& 0 <= i < j <= b.len()
    &&& b.subrange(i, j) == dec_bytes(v)
    &&& (j == b.len() || !is_digit(b[j]))
}

proof fn lemma_dec_bytes_digits(v: u32)
    requires
        v < 256,
    ensures
        1 <= dec_bytes(v).len() <= 3,
        forall|k: int| 0 <= k < dec_bytes(v).len() ==> is_digit(#[trigger] dec_bytes(v)[k]),
        dec_bytes(v).len() > 1 ==> dec_bytes(v)[0] != 48,
{
}

/// Two octet texts at the same place are the same octet.
proof fn lemma_octet_unique(b: Seq<u8>, i: int, j1: int, v1: u32, j2: int, v2: u32)
    requires
        octet_at(b, i, j1, v1),
        octet_at(b, i, j2, v2),
    ensures
        j1 == j2,
        v1 == v2,
{
    lemma_dec_bytes_digits(v1);
    lemma_dec_bytes_digits(v2);
    if j1 < j2 {
        assert(b.subrange(i, j2)[j1 - i] == b[j1]);
        assert(is_digit(dec_bytes(v2)[j1 - i]));
    } else if j2 < j1 {
        assert(b.subrange(i, j1)[j2 - i] == b[j2]);
        assert(is_digit(dec_bytes(v1)[j2 - i]));
    }
    assert(dec_bytes(v1) == dec_bytes(v2));
    let d = dec_bytes(v1);
    if d.len() == 1 {
        assert(d[0] == (48 + v1) as u8 && d[0] == (48 + v2) as u8);
    } else if d.len() == 2 {
        assert(v1 == v1 / 10 * 10 + v1 % 10);
        assert(v2 == v2 / 10 * 10 + v2 % 10);
    } else {
        assert(v1 == v1 / 100 * 100 + v1 / 10 % 10 * 10 + v1 % 10);
        assert(v2 == v2 / 100 * 100 + v2 / 10 % 10 * 10 + v2 % 10);
    }
}

fn parse_octet(b: &[u8], i: usize) -> (r: Option<(u32, usize)>)
    requires
        i <= b@.len(),
    ensures
        r matches Some((v, j)) ==> octet_at(b@, i as int, j as int, v),
        r is None ==> forall|v: u32, j: int| !octet_at(b@, i as int, j, v),
{
    let n = b.len();
    let mut k: usize = 0;
    while k < 4 && i + k < n && b[i + k] >= 48 && b[i + k] <= 57
        invariant
            k <= 4,
            i + k <= n,
            n == b@.len(),
            forall|t: int| i <= t < i + k ==> is_digit(#[trigger] b@[t]),
        decreases 4 - k,
    {
        k += 1;
    }
    proof {
        assert forall|v: u32, j: int| octet_at(b@, i as int, j, v) implies j - i <= k by {
            lemma_dec_bytes_digits(v);
            if j - i > k {
                assert(b@.subrange(i as int, j)[k as int] == b@[i + k]);
                assert(is_digit(dec_bytes(v)[k as int]));
            }
        }
        assert forall|v: u32, j: int| octet_at(b@, i as int, j, v) implies j - i == k by {
            lemma_dec_bytes_digits(v);
            if j - i < k {
                assert(is_digit(b@[j]));
            }
        }
    }
    if k == 0 || k == 4 {
        proof {
            assert forall|v: u32, j: int| !octet_at(b@, i as int, j, v) by {
                if octet_at(b@, i as int, j, v) {
                    lemma_dec_bytes_digits(v);
                }
            }
        }
        return None;
    }
    let d0 = (b[i] - 48) as u32;
    if k == 1 {
        assert(b@.subrange(i as int, i + 1) =~= dec_bytes(d0));
        return Some((d0, i + 1));
    }
    if d0 == 0 {
        proof {
            assert forall|v: u32, j: int| !octet_at(b@, i as int, j, v) by {
                if octet_at(b@, i as int, j, v) {
                    lemma_dec_bytes_digits(v);
                    assert(b@.subrange(i as int, j)[0] == b@[i as int]);
                }
            }
        }
        return None;
    }
    let d1 = (b[i + 1] - 48) as u32;
    if k == 2 {
        let v = d0 * 10 + d1;
        assert(v / 10 == d0 && v % 10 == d1);
        assert(b@.subrange(i as int, i + 2) =~= dec_bytes(v));
        return Some((v, i + 2));
    }
    let d2 = (b[i + 2] - 48) as u32;
    let v = d0 * 100 + d1 * 10 + d2;
    assert(v / 100 == d0 && v / 10 % 10 == d1 && v % 10 == d2);
    if v > 255 {
        proof {
            assert forall|w: u32, j: int| !octet_at(b@, i as int, j, w) by {
                if octet_at(b@, i as int, j, w) {
                    assert(b@.subrange(i as int, j)[0] == b@[i as int]);
                    assert(b@.subrange(i as int, j)[1] == b@[i + 1]);
                    assert(b@.subrange(i as int, j)[2] == b@[i + 2]);
                    assert(j == i + 3);
                    assert(dec_bytes(w).len() == 3);
                    assert(w >= 100);
                    assert(w / 100 == d0);
                    assert(w / 10 % 10 == d1);
                    assert(w % 10 == d2);
                    assert(w == w / 100 * 100 + w / 10 % 10 * 10 + w % 10);
                }
            }
        }
        return None;
    }
    assert(b@.subrange(i as int, i + 3) =~= dec_bytes(v));
    Some((v, i + 3))
}

proof fn lemma_octets(ip: u32)
    ensures
        ip == octet(ip, 0) * 0x100_0000 + octet(ip, 1) * 0x1_0000 + octet(ip, 2) * 0x100 + octet(ip, 3),
        octet(ip, 0) < 256,
        octet(ip, 1) < 256,
        octet(ip, 2) < 256,
        octet(ip, 3) < 256,
{
}

proof fn lemma_octets_of(v0: u32, v1: u32, v2: u32, v3: u32)
    requires
        v0 < 256,
        v1 < 256,
        v2 < 256,
        v3 < 256,
    ensures
        v0 * 0x100_0000 + v1 * 0x1_0000 + v2 * 0x100 + v3 <= u32::MAX,
        octet((v0 * 0x100_0000 + v1 * 0x1_0000 + v2 * 0x100 + v3) as u32, 0) == v0,
        octet((v0 * 0x100_0000 + v1 * 0x1_0000 + v2 * 0x100 + v3) as u32, 1) == v1,
        octet((v0 * 0x100_0000 + v1 * 0x1_0000 + v2 * 0x100 + v3) as u32, 2) == v2,
        octet((v0 * 0x100_0000 + v1 * 0x1_0000 + v2 * 0x100 + v3) as u32, 3) == v3,
{
    let x = v0 * 0x100_0000 + v1 * 0x1_0000 + v2 * 0x100 + v3;
    lemma_fundamental_div_mod_converse(x, 0x100_0000, v0 as int, v1 * 0x1_0000 + v2 * 0x100 + v3);
    lemma_fundamental_div_mod_converse(x, 0x1_0000, v0 * 0x100 + v1, v2 * 0x100 + v3);
    lemma_fundamental_div_mod_converse(v0 * 0x100 + v1, 0x100, v0 as int, v1 as int);
    lemma_fundamental_div_mod_converse(x, 0x100, v0 * 0x1_0000 + v1 * 0x100 + v2, v3 as int);
    lemma_fundamental_div_mod_converse(v0 * 0x1_0000 + v1 * 0x100 + v2, 0x100, v0 * 0x100 + v1, v2 as int);
}

/// Where the four octets and the three dots of `ipv4_bytes(ip)` sit.
proof fn lemma_ipv4_layout(ip: u32)
    ensures
        ({
            let b = ipv4_bytes(ip);
            let e0 = dec_bytes(octet(ip, 0)).len() as int;
            let e1 = e0 + 1 + dec_bytes(octet(ip, 1)).len();
            let e2 = e1 + 1 + dec_bytes(octet(ip, 2)).len();
            &&& octet_at(b, 0, e0, octet(ip, 0))
            &&& b[e0] == 46
            &&& octet_at(b, e0 + 1, e1, octet(ip, 1))
            &&& b[e1] == 46
            &&& octet_at(b, e1 + 1, e2, octet(ip, 2))
            &&& b[e2] == 46
            &&& octet_at(b, e2 + 1, b.len() as int, octet(ip, 3))
        }),
{
    lemma_octets(ip);
    let b = ipv4_bytes(ip);
    let (d0, d1, d2, d3) = (
        dec_bytes(octet(ip, 0)),
        dec_bytes(octet(ip, 1)),
        dec_bytes(octet(ip, 2)),
        dec_bytes(octet(ip, 3)),
    );
    lemma_dec_bytes_digits(octet(ip, 0));
    lemma_dec_bytes_digits(octet(ip, 1));
    lemma_dec_bytes_digits(octet(ip, 2));
    lemma_dec_bytes_digits(octet(ip, 3));
    let e0 = d0.len() as int;
    let e1 = e0 + 1 + d1.len();
    let e2 = e1 + 1 + d2.len();
    assert(b.subrange(0, e0) =~= d0);
    assert(b.subrange(e0 + 1, e1) =~= d1);
    assert(b.subrange(e1 + 1, e2) =~= d2);
    assert(b.subrange(e2 + 1, b.len() as int) =~= d3);
}

/// The address written in dotted-quad form in `b`: four decimal octets
/// below 256 without leading zeros, separated by dots, nothing else.
pub fn parse_ipv4_bytes(b: &[u8]) -> (r: Option<u32>)
    ensures
        r == ipv4_parse(b@),
{
    let n = b.len();
    let ghost bs = b@;
    let (v0, j0) = match parse_octet(b, 0) {
        Some(p) => p,
        None => {
            proof {
                assert forall|ip: u32| bs != ipv4_bytes(ip) by {
                    if bs == ipv4_bytes(ip) {
                        lemma_ipv4_layout(ip);
                    }
                }
            }
            return None;
        },
    };
    if j0 >= n || b[j0] != 46 {
        proof {
            assert forall|ip: u32| bs != ipv4_bytes(ip) by {
                if bs == ipv4_bytes(ip) {
                    lemma_ipv4_layout(ip);
                    lemma_octet_unique(bs, 0, j0 as int, v0, dec_bytes(octet(ip, 0)).len() as int, octet(ip, 0));
                }
            }
        }
        return None;
    }
    let (v1, j1) = match parse_octet(b, j0 + 1) {
        Some(p) => p,
        None => {
            proof {
                assert forall|ip: u32| bs != ipv4_bytes(ip) by {
                    if bs == ipv4_bytes(ip) {
                        lemma_ipv4_layout(ip);
                        lemma_octet_unique(bs, 0, j0 as int, v0, dec_bytes(octet(ip, 0)).len() as int, octet(ip, 0));
                    }
                }
            }
            return None;
        },
    };
    if j1 >= n || b[j1] != 46 {
        proof {
            assert forall|ip: u32| bs != ipv4_bytes(ip) by {
                if bs == ipv4_bytes(ip) {
                    lemma_ipv4_layout(ip);
                    lemma_octet_unique(bs, 0, j0 as int, v0, dec_bytes(octet(ip, 0)).len() as int, octet(ip, 0));
                    let e0 = dec_bytes(octet(ip, 0)).len() as int;
                    lemma_octet_unique(bs, e0 + 1, j1 as int, v1, e0 + 1 + dec_bytes(octet(ip, 1)).len(), octet(ip, 1));
                }
            }
        }
        return None;
    }
    let (v2, j2) = match parse_octet(b, j1 + 1) {
        Some(p) => p,
        None => {
            proof {
                assert forall|ip: u32| bs != ipv4_bytes(ip) by {
                    if bs == ipv4_bytes(ip) {
                        lemma_ipv4_layout(ip);
                        lemma_octet_unique(bs, 0, j0 as int, v0, dec_bytes(octet(ip, 0)).len() as int, octet(ip, 0));
                        let e0 = dec_bytes(octet(ip, 0)).len() as int;
                        lemma_octet_unique(bs, e0 + 1, j1 as int, v1, e0 + 1 + dec_bytes(octet(ip, 1)).len(), octet(ip, 1));
                    }
                }
            }
            return None;
        },
    };
    if j2 >= n || b[j2] != 46 {
        proof {
            assert forall|ip: u32| bs != ipv4_bytes(ip) by {
                if bs == ipv4_bytes(ip) {
                    lemma_ipv4_layout(ip);
                    lemma_octet_unique(bs, 0, j0 as int, v0, dec_bytes(octet(ip, 0)).len() as int, octet(ip, 0));
                    let e0 = dec_bytes(octet(ip, 0)).len() as int;
                    lemma_octet_unique(bs, e0 + 1, j1 as int, v1, e0 + 1 + dec_bytes(octet(ip, 1)).len(), octet(ip, 1));
                    let e1 = e0 + 1 + dec_bytes(octet(ip, 1)).len();
                    lemma_octet_unique(bs, e1 + 1, j2 as int, v2, e1 + 1 + dec_bytes(octet(ip, 2)).len(), octet(ip, 2));
                }
            }
        }
        return None;
    }
    let (v3, j3) = match parse_octet(b, j2 + 1) {
        Some(p) => p,
        None => {
            proof {
                assert forall|ip: u32| bs != ipv4_bytes(ip) by {
                    if bs == ipv4_bytes(ip) {
                        lemma_ipv4_layout(ip);
                        lemma_octet_unique(bs, 0, j0 as int, v0, dec_bytes(octet(ip, 0)).len() as int, octet(ip, 0));
                        let e0 = dec_bytes(octet(ip, 0)).len() as int;
                        lemma_octet_unique(bs, e0 + 1, j1 as int, v1, e0 + 1 + dec_bytes(octet(ip, 1)).len(), octet(ip, 1));
                        let e1 = e0 + 1 + dec_bytes(octet(ip, 1)).len();
                        lemma_octet_unique(bs, e1 + 1, j2 as int, v2, e1 + 1 + dec_bytes(octet(ip, 2)).len(), octet(ip, 2));
                    }
                }
            }
            return None;
        },
    };
    if j3 != n {
        proof {
            assert forall|ip: u32| bs != ipv4_bytes(ip) by {
                if bs == ipv4_bytes(ip) {
                    lemma_ipv4_layout(ip);
                    lemma_octet_unique(bs, 0, j0 as int, v0, dec_bytes(octet(ip, 0)).len() as int, octet(ip, 0));
                    let e0 = dec_bytes(octet(ip, 0)).len() as int;
                    lemma_octet_unique(bs, e0 + 1, j1 as int, v1, e0 + 1 + dec_bytes(octet(ip, 1)).len(), octet(ip, 1));
                    let e1 = e0 + 1 + dec_bytes(octet(ip, 1)).len();
                    lemma_octet_unique(bs, e1 + 1, j2 as int, v2, e1 + 1 + dec_bytes(octet(ip, 2)).len(), octet(ip, 2));
                    let e2 = e1 + 1 + dec_bytes(octet(ip, 2)).len();
                    lemma_octet_unique(bs, e2 + 1, j3 as int, v3, bs.len() as int, octet(ip, 3));
                }
            }
        }
        return None;
    }
    proof {
        lemma_octets_of(v0, v1, v2, v3);
    }
    let ip = v0 * 0x100_0000 + v1 * 0x1_0000 + v2 * 0x100 + v3;
    proof {
        assert(bs.subrange(0, j0 as int) == dec_bytes(v0));
        assert(bs.subrange(j0 + 1, j1 as int) == dec_bytes(v1));
        assert(bs.subrange(j1 + 1, j2 as int) == dec_bytes(v2));
        assert(bs.subrange(j2 + 1, j3 as int) == dec_bytes(v3));
        assert(bs =~= bs.subrange(0, j0 as int) + seq![46u8] + bs.subrange(j0 + 1, j1 as int) + seq![46u8]
            + bs.subrange(j1 + 1, j2 as int) + seq![46u8] + bs.subrange(j2 + 1, j3 as int));
        assert(bs == ipv4_bytes(ip));
        assert forall|ip2: u32| bs == ipv4_bytes(ip2) implies ip2 == ip by {
            lemma_ipv4_layout(ip2);
            lemma_octets(ip2);
            lemma_octet_unique(bs, 0, j0 as int, v0, dec_bytes(octet(ip2, 0)).len() as int, octet(ip2, 0));
            let e0 = dec_bytes(octet(ip2, 0)).len() as int;
            lemma_octet_unique(bs, e0 + 1, j1 as int, v1, e0 + 1 + dec_bytes(octet(ip2, 1)).len(), octet(ip2, 1));
            let e1 = e0 + 1 + dec_bytes(octet(ip2, 1)).len();
            lemma_octet_unique(bs, e1 + 1, j2 as int, v2, e1 + 1 + dec_bytes(octet(ip2, 2)).len(), octet(ip2, 2));
            let e2 = e1 + 1 + dec_bytes(octet(ip2, 2)).len();
            lemma_octet_unique(bs, e2 + 1, j3 as int, v3, bs.len() as int, octet(ip2, 3));
        }
    }
    Some(ip)
}

/// The address that `text` writes in dotted-quad form, if any.
pub fn parse_ipv4(text: &str) -> (r: Option<u32>)
    ensures
        r == ipv4_parse(encode_utf8(text@)),
{
    parse_ipv4_bytes(text.as_bytes())
}

} // verus!
