//! The CertificateVerify signed message of RFC 8446, section 4.4.3.
//!
//! The byte string that is digitally signed or verified during
//! certificate-based peer authentication: sixty-four ASCII space bytes, a
//! role-specific context string with its trailing null terminator, and the
//! raw transcript hash. The format is protocol-mandated, byte for byte.

use vstd::prelude::*;

verus! {

/// Sixty-four ASCII space bytes.
pub open spec fn spec_verify_padding() -> Seq<u8> {
    Seq::new(64, |i: int| 0x20u8)
}

/// The signed message for a given context string and transcript hash.
pub open spec fn spec_verify_message(transcript_hash: Seq<u8>, context: Seq<u8>) -> Seq<u8> {
    spec_verify_padding() + context + transcript_hash
}

/// The bytes of `"TLS 1.3, client CertificateVerify"` with its trailing null
/// terminator: thirty-four bytes in all.
pub open spec fn spec_client_context() -> Seq<u8> {
    seq![
        0x54u8, 0x4c, 0x53, 0x20, 0x31, 0x2e, 0x33, 0x2c, 0x20, 0x63, 0x6c, 0x69, 0x65, 0x6e,
        0x74, 0x20, 0x43, 0x65, 0x72, 0x74, 0x69, 0x66, 0x69, 0x63, 0x61, 0x74, 0x65, 0x56,
        0x65, 0x72, 0x69, 0x66, 0x79, 0x00,
    ]
}

/// The bytes of `"TLS 1.3, server CertificateVerify"` with its trailing null
/// terminator: thirty-four bytes in all.
pub open spec fn spec_server_context() -> Seq<u8> {
    seq![
        0x54u8, 0x4c, 0x53, 0x20, 0x31, 0x2e, 0x33, 0x2c, 0x20, 0x73, 0x65, 0x72, 0x76, 0x65,
        0x72, 0x20, 0x43, 0x65, 0x72, 0x74, 0x69, 0x66, 0x69, 0x63, 0x61, 0x74, 0x65, 0x56,
        0x65, 0x72, 0x69, 0x66, 0x79, 0x00,
    ]
}

/// The client context string, `"TLS 1.3, client CertificateVerify\0"`.
pub fn client_context_bytes() -> (r: Vec<u8>)
    ensures
        r@ == spec_client_context(),
{
    let mut v: Vec<u8> = Vec::new();
    v.push(0x54);
    v.push(0x4c);
    v.push(0x53);
    v.push(0x20);
    v.push(0x31);
    v.push(0x2e);
    v.push(0x33);
    v.push(0x2c);
    v.push(0x20);
    v.push(0x63);
    v.push(0x6c);
    v.push(0x69);
    v.push(0x65);
    v.push(0x6e);
    v.push(0x74);
    v.push(0x20);
    v.push(0x43);
    v.push(0x65);
    v.push(0x72);
    v.push(0x74);
    v.push(0x69);
    v.push(0x66);
    v.push(0x69);
    v.push(0x63);
    v.push(0x61);
    v.push(0x74);
    v.push(0x65);
    v.push(0x56);
    v.push(0x65);
    v.push(0x72);
    v.push(0x69);
    v.push(0x66);
    v.push(0x79);
    v.push(0x00);
    proof {
        assert(v@ =~= spec_client_context());
    }
    v
}

/// The server context string, `"TLS 1.3, server CertificateVerify\0"`.
pub fn server_context_bytes() -> (r: Vec<u8>)
    ensures
        r@ == spec_server_context(),
{
    let mut v: Vec<u8> = Vec::new();
    v.push(0x54);
    v.push(0x4c);
    v.push(0x53);
    v.push(0x20);
    v.push(0x31);
    v.push(0x2e);
    v.push(0x33);
    v.push(0x2c);
    v.push(0x20);
    v.push(0x73);
    v.push(0x65);
    v.push(0x72);
    v.push(0x76);
    v.push(0x65);
    v.push(0x72);
    v.push(0x20);
    v.push(0x43);
    v.push(0x65);
    v.push(0x72);
    v.push(0x74);
    v.push(0x69);
    v.push(0x66);
    v.push(0x69);
    v.push(0x63);
    v.push(0x61);
    v.push(0x74);
    v.push(0x65);
    v.push(0x56);
    v.push(0x65);
    v.push(0x72);
    v.push(0x69);
    v.push(0x66);
    v.push(0x79);
    v.push(0x00);
    proof {
        assert(v@ =~= spec_server_context());
    }
    v
}

/// Build the signed message for the given context string and transcript hash.
pub fn construct_verify_message(handshake_hash: &Vec<u8>, context_string_with_0: &Vec<u8>) -> (r:
    Vec<u8>)
    ensures
        r@ == spec_verify_message(handshake_hash@, context_string_with_0@),
{
    let mut msg: Vec<u8> = Vec::new();
    let mut i: usize = 0;
    while i < 64
        invariant
            msg@.len() == i,
            i <= 64,
            forall|k: int| 0 <= k < i ==> msg@[k] == 0x20u8,
        decreases 64 - i,
    {
        msg.push(0x20);
        i = i + 1;
    }
    proof {
        assert(msg@ =~= spec_verify_padding());
    }
    let ghost padding: Seq<u8> = msg@;
    let mut j: usize = 0;
    while j < context_string_with_0.len()
        invariant
            j <= context_string_with_0@.len(),
            msg@ == padding + context_string_with_0@.subrange(0, j as int),
        decreases context_string_with_0@.len() - j,
    {
        msg.push(context_string_with_0[j]);
        proof {
            assert(msg@ =~= padding + context_string_with_0@.subrange(0, j + 1));
        }
        j = j + 1;
    }
    proof {
        assert(context_string_with_0@.subrange(0, context_string_with_0@.len() as int)
            =~= context_string_with_0@);
    }
    let ghost prefix: Seq<u8> = msg@;
    let mut h: usize = 0;
    while h < handshake_hash.len()
        invariant
            h <= handshake_hash@.len(),
            msg@ == prefix + handshake_hash@.subrange(0, h as int),
        decreases handshake_hash@.len() - h,
    {
        msg.push(handshake_hash[h]);
        proof {
            assert(msg@ =~= prefix + handshake_hash@.subrange(0, h + 1));
        }
        h = h + 1;
    }
    proof {
        assert(handshake_hash@.subrange(0, handshake_hash@.len() as int) =~= handshake_hash@);
        assert(msg@ =~= spec_verify_message(handshake_hash@, context_string_with_0@));
    }
    msg
}

/// Build the signed message a client produces and a server checks.
pub fn construct_client_verify_message(handshake_hash: &Vec<u8>) -> (r: Vec<u8>)
    ensures
        r@ == spec_verify_message(handshake_hash@, spec_client_context()),
{
    let ctx = client_context_bytes();
    construct_verify_message(handshake_hash, &ctx)
}

/// Build the signed message a server produces and a client checks.
pub fn construct_server_verify_message(handshake_hash: &Vec<u8>) -> (r: Vec<u8>)
    ensures
        r@ == spec_verify_message(handshake_hash@, spec_server_context()),
{
    let ctx = server_context_bytes();
    construct_verify_message(handshake_hash, &ctx)
}

} // verus!
