//! Reconciliation and resource-composition engine for a declarative
//! application operator.
//!
//! A `Playbook` describes a multi-actor application; each `Actor` is one
//! buildable and deployable unit.  The engine turns those descriptors into
//! derived cluster objects (a namespace, an image-build object, a
//! deployment) through an explicit lifecycle state machine whose every
//! transition is idempotent under at-least-once delivery of reconcile
//! triggers.  The cluster itself is represented by the [`cluster::Cluster`]
//! model, which the surrounding process keeps in step with the real
//! cluster API.

use sha2::Digest;
use vstd::prelude::*;
use vstd::string::*;

pub mod actor_controller;
pub mod cluster;
pub mod composer;
pub mod deployment;
pub mod errors;
pub mod image;
pub mod laws;
pub mod namespace;
pub mod naming;
pub mod registry;
pub mod types;

verus! {

/// The hexadecimal digit for a value below sixteen.
pub open spec fn hex_digit(n: u8) -> char
    recommends
        n < 16,
{
    "0123456789abcdef"@[n as int]
}

/// Lowercase hexadecimal rendering of a byte sequence, two digits per
/// byte, high nibble first.
pub open spec fn hex_of(bytes: Seq<u8>) -> Seq<char> {
    Seq::new(
        bytes.len() * 2,
        |i: int|
            if i % 2 == 0 {
                hex_digit(bytes[i / 2] / 16)
            } else {
                hex_digit(bytes[i / 2] % 16)
            },
    )
}

/// The SHA-256 digest of a text's bytes.
pub uninterp spec fn sha256_of(data: Seq<char>) -> Seq<u8>;

/// Relies on sha2::Sha256 through Digest::digest: the digest depends on
/// the input alone and is exactly 32 bytes long.
#[verifier::external_body]
fn sha256_digest(data: &str) -> (r: Vec<u8>)
    ensures
        r@ == sha256_of(data@),
        r@.len() == 32,
{
    sha2::Sha256::digest(data.as_bytes()).to_vec()
}

fn hex_encode(bytes: &Vec<u8>) -> (r: String)
    ensures
        r@ == hex_of(bytes@),
{
    let table = "0123456789abcdef";
    proof {
        reveal_strlit("0123456789abcdef");
    }
    let mut out = String::new();
    let mut i: usize = 0;
    while i < bytes.len()
        invariant
            i <= bytes.len(),
            out@ == hex_of(bytes@.subrange(0, i as int)),
            table@ == "0123456789abcdef"@,
            table@.len() == 16,
        decreases bytes.len() - i,
    {
        let b = bytes[i];
        let hi = (b / 16) as usize;
        let lo = (b % 16) as usize;
        let dh = table.substring_char(hi, hi + 1);
        let dl = table.substring_char(lo, lo + 1);
        out.append(dh);
        out.append(dl);
        proof {
            assert(dh@ =~= seq![hex_digit(b / 16)]);
            assert(dl@ =~= seq![hex_digit(b % 16)]);
            assert(out@ =~= hex_of(bytes@.subrange(0, i as int + 1)));
        }
        i += 1;
    }
    proof {
        assert(bytes@.subrange(0, bytes.len() as int) =~= bytes@);
    }
    out
}

/// The change-detection hash recorded in the last-applied annotation:
/// the hex-encoded SHA-256 digest of a canonically serialized spec.
/// Serializing is the caller's business; this computes the digest of
/// the serialized text.
pub fn hash(data: &str) -> (r: String)
    ensures
        r@ == hex_of(sha256_of(data@)),
        r@.len() == 64,
{
    let digest = sha256_digest(data);
    hex_encode(&digest)
}

/// Whether a re-apply is due: the last-applied annotation is absent, or
/// its hash differs from the hash of the current spec.
pub fn hash_changed(last_applied: Option<&String>, current: &String) -> (r: bool)
    ensures
        r == (match last_applied {
            None => true,
            Some(h) => h@ != current@,
        }),
{
    match last_applied {
        None => true,
        Some(h) => !(*h == *current),
    }
}

} // verus!
