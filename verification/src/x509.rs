//! The one piece of certificate reading this library needs: locating the
//! SubjectPublicKeyInfo of a DER-encoded X.509 certificate, so that a
//! supplied private key can be checked against the end-entity certificate.
//! Nothing here validates a certificate; chain validation belongs to an
//! external collaborator.

use vstd::prelude::*;

verus! {

/// Reads the DER header (tag and definite length) at position `i`: the
/// content's start and length, when the element lies wholly inside `s`.
/// Lengths up to two length bytes (65535) are understood.
pub open spec fn spec_der_header(s: Seq<u8>, i: int) -> Option<(int, int)>
    recommends
        0 <= i,
{
    if i + 2 > s.len() {
        None
    } else {
        let l0 = s[i + 1];
        if l0 < 0x80 {
            if i + 2 + (l0 as int) <= s.len() {
                Some((i + 2, l0 as int))
            } else {
                None
            }
        } else if l0 == 0x81 {
            if i + 3 <= s.len() && i + 3 + (s[i + 2] as int) <= s.len() {
                Some((i + 3, s[i + 2] as int))
            } else {
                None
            }
        } else if l0 == 0x82 {
            if i + 4 <= s.len() && i + 4 + (s[i + 2] as int) * 256 + (s[i + 3] as int) <= s.len() {
                Some((i + 4, (s[i + 2] as int) * 256 + (s[i + 3] as int)))
            } else {
                None
            }
        } else {
            None
        }
    }
}

/// Read the DER header at position `i` of `v`.
fn der_header(v: &Vec<u8>, i: usize) -> (r: Option<(usize, usize)>)
    requires
        i <= v@.len(),
    ensures
        r matches Some(h) ==> spec_der_header(v@, i as int) == Some((h.0 as int, h.1 as int)) && h.0 + h.1 <= v@.len() && i < h.0,
        r is None ==> spec_der_header(v@, i as int) is None,
{
    if v.len() - i < 2 {
        return None;
    }
    let l0 = v[i + 1];
    if l0 < 0x80 {
        let cl = l0 as usize;
        if cl <= v.len() - (i + 2) {
            Some((i + 2, cl))
        } else {
            None
        }
    } else if l0 == 0x81 {
        if v.len() - i < 3 {
            return None;
        }
        let cl = v[i + 2] as usize;
        if cl <= v.len() - (i + 3) {
            Some((i + 3, cl))
        } else {
            None
        }
    } else if l0 == 0x82 {
        if v.len() - i < 4 {
            return None;
        }
        let cl = (v[i + 2] as usize) * 256 + (v[i + 3] as usize);
        if cl <= v.len() - (i + 4) {
            Some((i + 4, cl))
        } else {
            None
        }
    } else {
        None
    }
}

/// The position just past the element at `p`, when `p` holds an element with
/// the expected tag.
pub open spec fn spec_skip_field(s: Seq<u8>, p: int, tag: u8) -> Option<int> {
    if !(0 <= p < s.len()) {
        None
    } else if s[p] != tag {
        None
    } else {
        match spec_der_header(s, p) {
            Some(h) => Some(h.0 + h.1),
            None => None,
        }
    }
}

/// Step over the element at `p`, checking its tag.
fn skip_field(v: &Vec<u8>, p: usize, tag: u8) -> (r: Option<usize>)
    requires
        p <= v@.len(),
    ensures
        r matches Some(q) ==> spec_skip_field(v@, p as int, tag) == Some(q as int) && q <= v@.len(),
        r is None ==> spec_skip_field(v@, p as int, tag) is None,
{
    if p >= v.len() {
        return None;
    }
    if v[p] != tag {
        return None;
    }
    match der_header(v, p) {
        Some((cs, cl)) => Some(cs + cl),
        None => None,
    }
}

/// The SubjectPublicKeyInfo element (tag, length and content) of a
/// DER-encoded X.509 certificate: inside the outer Certificate and
/// TBSCertificate sequences, past the optional version, the serial number,
/// the signature algorithm, the issuer, the validity and the subject.
pub open spec fn spec_spki_of_cert(s: Seq<u8>) -> Option<Seq<u8>> {
    if s.len() == 0 || s[0] != 0x30 {
        None
    } else {
        match spec_der_header(s, 0) {
            None => None,
            Some(outer) => {
                let tbs_pos = outer.0;
                if !(tbs_pos < s.len()) || s[tbs_pos] != 0x30 {
                    None
                } else {
                    match spec_der_header(s, tbs_pos) {
                        None => None,
                        Some(tbs) => {
                            let fields_pos = tbs.0;
                            let past_version = if fields_pos < s.len() && s[fields_pos] == 0xa0 {
                                match spec_der_header(s, fields_pos) {
                                    Some(vh) => Some(vh.0 + vh.1),
                                    None => None,
                                }
                            } else {
                                Some(fields_pos)
                            };
                            match past_version {
                                None => None,
                                Some(q0) => match spec_skip_field(s, q0, 0x02) {
                                    None => None,
                                    Some(q1) => match spec_skip_field(s, q1, 0x30) {
                                        None => None,
                                        Some(q2) => match spec_skip_field(s, q2, 0x30) {
                                            None => None,
                                            Some(q3) => match spec_skip_field(s, q3, 0x30) {
                                                None => None,
                                                Some(q4) => match spec_skip_field(s, q4, 0x30) {
                                                    None => None,
                                                    Some(q5) => {
                                                        if !(0 <= q5 < s.len()) || s[q5] != 0x30 {
                                                            None
                                                        } else {
                                                            match spec_der_header(s, q5) {
                                                                None => None,
                                                                Some(spki) => Some(
                                                                    s.subrange(
                                                                        q5,
                                                                        spki.0 + spki.1,
                                                                    ),
                                                                ),
                                                            }
                                                        }
                                                    },
                                                },
                                            },
                                        },
                                    },
                                },
                            }
                        },
                    }
                }
            },
        }
    }
}

/// Extract the SubjectPublicKeyInfo element of a DER-encoded certificate.
pub fn spki_of_cert(cert: &Vec<u8>) -> (r: Option<Vec<u8>>)
    ensures
        r matches Some(v) ==> spec_spki_of_cert(cert@) == Some(v@),
        r is None ==> spec_spki_of_cert(cert@) is None,
{
    if cert.len() == 0 {
        return None;
    }
    if cert[0] != 0x30 {
        return None;
    }
    let tbs_pos: usize = match der_header(cert, 0) {
        Some((cs, _cl)) => cs,
        None => {
            return None;
        },
    };
    if tbs_pos >= cert.len() {
        return None;
    }
    if cert[tbs_pos] != 0x30 {
        return None;
    }
    let fields_pos: usize = match der_header(cert, tbs_pos) {
        Some((cs, _cl)) => cs,
        None => {
            return None;
        },
    };
    let q0: usize = if fields_pos < cert.len() && cert[fields_pos] == 0xa0 {
        match der_header(cert, fields_pos) {
            Some((cs, cl)) => cs + cl,
            None => {
                return None;
            },
        }
    } else {
        fields_pos
    };
    let q1: usize = match skip_field(cert, q0, 0x02) {
        Some(q) => q,
        None => {
            return None;
        },
    };
    let q2: usize = match skip_field(cert, q1, 0x30) {
        Some(q) => q,
        None => {
            return None;
        },
    };
    let q3: usize = match skip_field(cert, q2, 0x30) {
        Some(q) => q,
        None => {
            return None;
        },
    };
    let q4: usize = match skip_field(cert, q3, 0x30) {
        Some(q) => q,
        None => {
            return None;
        },
    };
    let q5: usize = match skip_field(cert, q4, 0x30) {
        Some(q) => q,
        None => {
            return None;
        },
    };
    if q5 >= cert.len() {
        return None;
    }
    if cert[q5] != 0x30 {
        return None;
    }
    let spki_end: usize = match der_header(cert, q5) {
        Some((cs, cl)) => cs + cl,
        None => {
            return None;
        },
    };
    let mut out: Vec<u8> = Vec::new();
    let mut i: usize = q5;
    while i < spki_end
        invariant
            q5 <= i <= spki_end,
            spki_end <= cert@.len(),
            out@ == cert@.subrange(q5 as int, i as int),
        decreases spki_end - i,
    {
        out.push(cert[i]);
        proof {
            assert(out@ =~= cert@.subrange(q5 as int, i + 1));
        }
        i = i + 1;
    }
    Some(out)
}

/// The SubjectPublicKeyInfo encoding of a raw 32-byte Ed25519 public key:
/// the fixed algorithm-identifier prefix of RFC 8410, then the key inside a
/// bit string.
pub open spec fn spec_ed25519_spki(pubkey: Seq<u8>) -> Seq<u8> {
    seq![0x30u8, 0x2a, 0x30, 0x05, 0x06, 0x03, 0x2b, 0x65, 0x70, 0x03, 0x21, 0x00] + pubkey
}

/// Wrap a raw Ed25519 public key in its SubjectPublicKeyInfo encoding.
pub fn ed25519_spki(pubkey: &Vec<u8>) -> (r: Vec<u8>)
    ensures
        r@ == spec_ed25519_spki(pubkey@),
{
    let mut out: Vec<u8> = Vec::new();
    out.push(0x30);
    out.push(0x2a);
    out.push(0x30);
    out.push(0x05);
    out.push(0x06);
    out.push(0x03);
    out.push(0x2b);
    out.push(0x65);
    out.push(0x70);
    out.push(0x03);
    out.push(0x21);
    out.push(0x00);
    let ghost prefix: Seq<u8> = out@;
    let mut i: usize = 0;
    while i < pubkey.len()
        invariant
            i <= pubkey@.len(),
            out@ == prefix + pubkey@.subrange(0, i as int),
        decreases pubkey@.len() - i,
    {
        out.push(pubkey[i]);
        proof {
            assert(out@ =~= prefix + pubkey@.subrange(0, i + 1));
        }
        i = i + 1;
    }
    proof {
        assert(pubkey@.subrange(0, pubkey@.len() as int) =~= pubkey@);
        assert(out@ =~= spec_ed25519_spki(pubkey@));
    }
    out
}

/// Byte-for-byte equality of two buffers.
pub fn bytes_eq(a: &Vec<u8>, b: &Vec<u8>) -> (r: bool)
    ensures
        r <==> a@ == b@,
{
    if a.len() != b.len() {
        proof {
            assert(a@.len() != b@.len());
        }
        return false;
    }
    let mut i: usize = 0;
    while i < a.len()
        invariant
            a@.len() == b@.len(),
            i <= a@.len(),
            forall|k: int| 0 <= k < i ==> a@[k] == b@[k],
        decreases a@.len() - i,
    {
        if a[i] != b[i] {
            proof {
                assert(a@[i as int] != b@[i as int]);
            }
            return false;
        }
        i = i + 1;
    }
    proof {
        assert(a@ =~= b@);
    }
    true
}

} // verus!
