use vstd::prelude::*;

use crate::descriptor::{opt_view, CredentialsFile};
use crate::error::Error;
use jsonwebtoken::EncodingKey;
use vstd::slice::slice_subrange;

verus! {

#[verifier::external_type_specification]
#[verifier::external_body]
pub struct ExEncodingKey(jsonwebtoken::EncodingKey);

/// The deepest nesting of DER elements that a private key may have. RSA keys,
/// in PKCS#1 or PKCS#8, nest two levels deep and certificates a few more. The
/// signing library parses nested DER by recursion without a depth limit, so a
/// key nested deeper is refused before it reaches the library.
pub const MAX_DER_DEPTH: usize = 16;

/// The DER bytes that a PEM text holds, or `None` where it is not PEM.
pub uninterp spec fn pem_der(text: Seq<char>) -> Option<Seq<u8>>;

/// Relies on `pem::parse`, the function that jsonwebtoken's PEM reader calls on
/// the same bytes: the outcome depends on the text alone.
#[verifier::external_body]
fn pem_contents(text: &str) -> (r: Option<Vec<u8>>)
    ensures
        opt_view(r) == pem_der(text@),
{
    pem::parse(text.as_bytes()).ok().map(|p| p.into_contents())
}

/// The start and length of the body of the DER element at `i`, where its tag has
/// the one-byte form and its length at most two length bytes.
pub open spec fn der_header(d: Seq<u8>, i: int) -> Option<(int, int)> {
    if i < 0 || i + 1 >= d.len() || d[i] & 0x1f == 0x1f {
        None
    } else if d[i + 1] < 0x80 {
        Some((i + 2, d[i + 1] as int))
    } else if d[i + 1] == 0x81 && i + 2 < d.len() {
        Some((i + 3, d[i + 2] as int))
    } else if d[i + 1] == 0x82 && i + 3 < d.len() {
        Some((i + 4, d[i + 2] as int * 256 + d[i + 3] as int))
    } else {
        None
    }
}

/// A DER parser may read the body of an element with this tag as further
/// elements: it is constructed, or it is a SEQUENCE or SET.
pub open spec fn opens_level(tag: u8) -> bool {
    tag & 0x20 == 0x20 || tag & 0x1f == 0x10 || tag & 0x1f == 0x11
}

/// From position `i` on, `d` is a run of DER elements, and the elements whose
/// bodies may be read as elements nest at most `depth` levels deep.
pub open spec fn der_nests_within(d: Seq<u8>, i: int, depth: nat) -> bool
    decreases depth, d.len() - i,
{
    if i < 0 || i >= d.len() {
        true
    } else {
        match der_header(d, i) {
            None => false,
            Some((s, l)) => if s + l > d.len() {
                false
            } else {
                &&& (!opens_level(d[i]) || (depth > 0 && der_nests_within(
                    d.subrange(s, s + l),
                    0,
                    (depth - 1) as nat,
                )))
                &&& der_nests_within(d, s + l, depth)
            },
        }
    }
}

/// A PEM text whose DER, if it has any, nests no deeper than `MAX_DER_DEPTH`.
pub open spec fn pem_nesting_safe(text: Seq<char>) -> bool {
    match pem_der(text) {
        Some(d) => der_nests_within(d, 0, MAX_DER_DEPTH as nat),
        None => true,
    }
}

/// Tells whether `der` is a run of DER elements that nest at most `depth`
/// levels deep.
pub fn der_depth_within(der: &[u8], depth: usize) -> (r: bool)
    ensures
        r == der_nests_within(der@, 0, depth as nat),
    decreases depth,
{
    let mut i: usize = 0;
    while i < der.len()
        invariant
            i <= der@.len(),
            der_nests_within(der@, 0, depth as nat) == der_nests_within(
                der@,
                i as int,
                depth as nat,
            ),
        decreases der.len() - i,
    {
        if i + 1 >= der.len() || der[i] & 0x1f == 0x1f {
            return false;
        }
        let b = der[i + 1];
        let start: usize;
        let len: usize;
        if b < 0x80 {
            start = i + 2;
            len = b as usize;
        } else if b == 0x81 && der.len() - i > 2 {
            start = i + 3;
            len = der[i + 2] as usize;
        } else if b == 0x82 && der.len() - i > 3 {
            start = i + 4;
            let hi: usize = der[i + 2] as usize;
            assert(hi * 256 <= 255 * 256) by (nonlinear_arith)
                requires
                    hi <= 255,
            ;
            len = hi * 256 + der[i + 3] as usize;
        } else {
            return false;
        }
        assert(der_header(der@, i as int) == Some((start as int, len as int)));
        if len > der.len() - start {
            return false;
        }
        let tag = der[i];
        if tag & 0x20 == 0x20 || tag & 0x1f == 0x10 || tag & 0x1f == 0x11 {
            if depth == 0 {
                return false;
            }
            let body = slice_subrange(der, start, start + len);
            if !der_depth_within(body, depth - 1) {
                return false;
            }
        }
        i = start + len;
    }
    true
}

/// The text is PEM that the signing library's RSA reader accepts: an RSA private
/// or public key, or a PKCS#8 key or certificate that carries the RSA algorithm.
pub uninterp spec fn rsa_pem_accepted(pem: Seq<char>) -> bool;

/// Relies on jsonwebtoken's `EncodingKey::from_rsa_pem`: whether it accepts the
/// key depends on the key's text alone. Its DER parsing recurses once per level
/// of nesting, which the precondition bounds.
#[verifier::external_body]
fn rsa_key_from_pem(pem: &str) -> (r: Option<EncodingKey>)
    requires
        pem_nesting_safe(pem@),
    ensures
        r is Some <==> rsa_pem_accepted(pem@),
{
    EncodingKey::from_rsa_pem(pem.as_bytes()).ok()
}

impl CredentialsFile {
    /// Turns the descriptor's private key into a signing key. Fails with
    /// `NoPrivateKeyFound` where there is no key, and with `InvalidPrivateKey`
    /// where the key is not PEM-encoded RSA key material, or its DER nests deeper
    /// than `MAX_DER_DEPTH`.
    pub fn try_to_private_key(&self) -> (r: Result<EncodingKey, Error>)
        ensures
            match self.private_key {
                None => r matches Err(e) && e == Error::NoPrivateKeyFound,
                Some(k) => if !pem_nesting_safe(k@) {
                    r matches Err(e) && e == Error::InvalidPrivateKey
                } else {
                    &&& (r is Ok <==> rsa_pem_accepted(k@))
                    &&& (r matches Err(e) ==> e == Error::InvalidPrivateKey)
                },
            },
    {
        match &self.private_key {
            Some(key) => {
                let safe = match pem_contents(key.as_str()) {
                    Some(der) => der_depth_within(der.as_slice(), MAX_DER_DEPTH),
                    None => true,
                };
                if !safe {
                    return Err(Error::InvalidPrivateKey);
                }
                match rsa_key_from_pem(key.as_str()) {
                    Some(k) => Ok(k),
                    None => Err(Error::InvalidPrivateKey),
                }
            },
            None => Err(Error::NoPrivateKeyFound),
        }
    }
}

} // verus!
