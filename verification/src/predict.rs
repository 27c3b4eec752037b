//! The address predictor: derives the controller and proxy addresses from
//! their code artifacts' checksums and a salt derived purely from the account
//! identifier, before either sub-entity exists. The derivation is
//! content-addressed and independent of instantiation data, so the same
//! identifier and checksums always yield the same addresses.

use vstd::prelude::*;

use crate::ident::{AccountIdentifier, IdentifierView, TraceView};

verus! {

/// Big-endian bytes of an unsigned 64-bit sequence number.
pub open spec fn be_bytes_u64(n: u64) -> Seq<u8> {
    seq![
        ((n >> 56) & 0xff) as u8,
        ((n >> 48) & 0xff) as u8,
        ((n >> 40) & 0xff) as u8,
        ((n >> 32) & 0xff) as u8,
        ((n >> 24) & 0xff) as u8,
        ((n >> 16) & 0xff) as u8,
        ((n >> 8) & 0xff) as u8,
        (n & 0xff) as u8,
    ]
}

/// One chain identifier, rendered as a length byte followed by its characters.
pub open spec fn encode_segment(s: Seq<char>) -> Seq<u8> {
    seq![(s.len() % 256) as u8] + s.map_values(|c: char| ((c as u32) % 256) as u8)
}

/// A remote path, rendered segment by segment.
pub open spec fn encode_path(p: Seq<Seq<char>>) -> Seq<u8>
    decreases p.len(),
{
    if p.len() == 0 {
        Seq::empty()
    } else {
        encode_path(p.drop_last()) + encode_segment(p.last())
    }
}

/// Injective-by-construction rendering of an account identifier: an origin
/// tag, the sequence in big-endian, and for remote origins the path.
pub open spec fn encode_identifier(id: IdentifierView) -> Seq<u8> {
    match id.origin {
        TraceView::Local => seq![0u8] + be_bytes_u64(id.sequence),
        TraceView::Remote { path } => seq![1u8] + be_bytes_u64(id.sequence) + encode_path(path),
    }
}

/// The salt of an account identifier: the digest of its rendering, so the
/// same identifier always yields the same salt, of fixed length 32.
pub open spec fn salt_of(id: IdentifierView) -> Seq<u8> {
    sha256_of(encode_identifier(id))
}

/// The SHA-256 digest of a byte string.
pub uninterp spec fn sha256_of(bytes: Seq<u8>) -> Seq<u8>;

/// Relies on sha2's SHA-256: the digest is a pure function of the input
/// bytes alone and is always 32 bytes long.
#[verifier::external_body]
fn sha256(bytes: &Vec<u8>) -> (r: Vec<u8>)
    ensures
        r@ == sha256_of(bytes@),
        r@.len() == 32,
{
    <sha2::Sha256 as sha2::Digest>::digest(bytes.as_slice()).to_vec()
}

/// The address derived for one code checksum, creator and salt.
pub uninterp spec fn derived_address(checksum: Seq<u8>, creator: Seq<u8>, salt: Seq<u8>) -> Seq<
    u8,
>;

/// Relies on cosmwasm_std::instantiate2_address: the predictable,
/// init-data-independent address derivation. It returns an address exactly
/// when the checksum is 32 bytes and the salt between 1 and 64 bytes, and
/// the address is a pure function of checksum, creator and salt.
#[verifier::external_body]
fn instantiate2_addr(checksum: &Vec<u8>, creator: &Vec<u8>, salt: &Vec<u8>) -> (r: Option<Vec<u8>>)
    ensures
        (r is Some) <==> (checksum@.len() == 32 && 1 <= salt@.len() <= 64),
        r is Some ==> r.unwrap()@ == derived_address(checksum@, creator@, salt@),
{
    let creator_canonical = cosmwasm_std::CanonicalAddr::from(creator.as_slice());
    match cosmwasm_std::instantiate2_address(
        checksum.as_slice(),
        &creator_canonical,
        salt.as_slice(),
    ) {
        Ok(addr) => Some(addr.as_slice().to_vec()),
        Err(_) => None,
    }
}

fn push_be_u64(out: &mut Vec<u8>, n: u64)
    ensures
        final(out)@ == old(out)@ + be_bytes_u64(n),
{
    out.push(((n >> 56) & 0xff) as u8);
    out.push(((n >> 48) & 0xff) as u8);
    out.push(((n >> 40) & 0xff) as u8);
    out.push(((n >> 32) & 0xff) as u8);
    out.push(((n >> 24) & 0xff) as u8);
    out.push(((n >> 16) & 0xff) as u8);
    out.push(((n >> 8) & 0xff) as u8);
    out.push((n & 0xff) as u8);
    assert(final(out)@ =~= old(out)@ + be_bytes_u64(n));
}

fn push_segment(out: &mut Vec<u8>, s: &String)
    ensures
        final(out)@ == old(out)@ + encode_segment(s@),
{
    let n = s.as_str().unicode_len();
    out.push((n % 256) as u8);
    let mut i: usize = 0;
    while i < n
        invariant
            i <= n,
            n == s@.len(),
            out@ == old(out)@ + seq![(s@.len() % 256) as u8] + s@.map_values(
                |c: char| ((c as u32) % 256) as u8,
            ).take(i as int),
        decreases n - i,
    {
        let c = s.as_str().get_char(i);
        out.push(((c as u32) % 256) as u8);
        proof {
            let mapped = s@.map_values(|ch: char| ((ch as u32) % 256) as u8);
            assert(mapped.take(i + 1) =~= mapped.take(i as int).push(mapped[i as int]));
            assert(out@ =~= old(out)@ + seq![(s@.len() % 256) as u8] + mapped.take(i + 1));
        }
        i = i + 1;
    }
    proof {
        let mapped = s@.map_values(|ch: char| ((ch as u32) % 256) as u8);
        assert(mapped.take(n as int) =~= mapped);
        assert(out@ =~= old(out)@ + encode_segment(s@));
    }
}

/// Renders an account identifier to the bytes the salt is derived from.
fn encode_identifier_bytes(id: &AccountIdentifier) -> (r: Vec<u8>)
    ensures
        r@ == encode_identifier(id@),
{
    let mut out: Vec<u8> = Vec::new();
    match &id.origin {
        crate::ident::OriginTrace::Local => {
            out.push(0u8);
            assert(out@ =~= seq![0u8]);
            push_be_u64(&mut out, id.sequence);
        },
        crate::ident::OriginTrace::Remote { path } => {
            out.push(1u8);
            assert(out@ =~= seq![1u8]);
            push_be_u64(&mut out, id.sequence);
            let ghost prefix = seq![1u8] + be_bytes_u64(id.sequence);
            let mut i: usize = 0;
            while i < path.len()
                invariant
                    i <= path.len(),
                    id.origin@ == (TraceView::Remote { path: path.deep_view() }),
                    out@ == prefix + encode_path(path.deep_view().take(i as int)),
                decreases path.len() - i,
            {
                push_segment(&mut out, &path[i]);
                proof {
                    let p = path.deep_view();
                    assert(p.take(i + 1).drop_last() =~= p.take(i as int));
                    assert(p.take(i + 1).last() == p[i as int]);
                    assert(p[i as int] == path@[i as int]@);
                    assert(out@ =~= prefix + encode_path(p.take(i + 1)));
                }
                i = i + 1;
            }
            proof {
                let p = path.deep_view();
                assert(p.take(path@.len() as int) =~= p);
            }
        },
    }
    out
}

/// Deterministic salt of an account identifier: 32 bytes, always a valid
/// derivation salt, and equal across any two calls on equal identifiers.
pub fn account_salt(id: &AccountIdentifier) -> (r: Vec<u8>)
    ensures
        r@ == salt_of(id@),
        r@.len() == 32,
{
    let encoded = encode_identifier_bytes(id);
    sha256(&encoded)
}

/// The pair of addresses that constitute one account, in their canonical
/// (host-independent) byte form. Immutable once both sub-entities exist.
#[derive(Debug)]
pub struct AccountBase {
    pub controller: Vec<u8>,
    pub proxy: Vec<u8>,
}

/// Mathematical image of an `AccountBase`.
pub struct AccountBaseView {
    pub controller: Seq<u8>,
    pub proxy: Seq<u8>,
}

impl View for AccountBase {
    type V = AccountBaseView;

    open spec fn view(&self) -> AccountBaseView {
        AccountBaseView { controller: self.controller@, proxy: self.proxy@ }
    }
}

impl Clone for AccountBase {
    /// The copy has the same image as the original.
    fn clone(&self) -> (res: Self)
        ensures
            res@ == self@,
    {
        AccountBase {
            controller: crate::modules::clone_bytes(&self.controller),
            proxy: crate::modules::clone_bytes(&self.proxy),
        }
    }
}

/// Predicts both sub-entity addresses from the two code checksums and the
/// identifier-derived salt. Succeeds exactly when both checksums are 32
/// bytes and the salt is a valid derivation salt; the result is reproducible
/// from the same inputs.
pub fn predict_account_addresses(
    controller_checksum: &Vec<u8>,
    proxy_checksum: &Vec<u8>,
    creator: &Vec<u8>,
    salt: &Vec<u8>,
) -> (r: Option<AccountBase>)
    ensures
        r is Some <==> controller_checksum@.len() == 32 && proxy_checksum@.len() == 32 && 1
            <= salt@.len() <= 64,
        r matches Some(b) ==> b@ == (AccountBaseView {
            controller: derived_address(controller_checksum@, creator@, salt@),
            proxy: derived_address(proxy_checksum@, creator@, salt@),
        }),
{
    let controller = match instantiate2_addr(controller_checksum, creator, salt) {
        Some(a) => a,
        None => {
            return None;
        },
    };
    let proxy = match instantiate2_addr(proxy_checksum, creator, salt) {
        Some(a) => a,
        None => {
            return None;
        },
    };
    Some(AccountBase { controller, proxy })
}

} // verus!
