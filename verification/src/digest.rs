//! Streaming MD5 digests, computed by the `md5` crate.
//!
//! The digest of a byte sequence is a fixed function of those bytes alone,
//! so it is given a name, [`md5_of`], rather than a definition; the `md5`
//! crate computes it, and the download pipeline reasons about it only
//! through that name.

use vstd::prelude::*;

verus! {

/// The 16-byte MD5 digest of `data`, as the `md5` crate computes it.
pub uninterp spec fn md5_of(data: Seq<u8>) -> Seq<u8>;

#[verifier::external_type_specification]
#[verifier::external_body]
pub struct ExMd5(md5::Md5);

/// Relies on `md5::Md5::new` (`md5::Digest::new`): a fresh hasher.
#[verifier::external_body]
fn md5_new() -> md5::Md5 {
    <md5::Md5 as md5::Digest>::new()
}

/// An incremental MD5 accumulator, fed one chunk at a time.
///
/// The ghost field `fed` records the bytes handed to the hasher so far;
/// the trusted methods below keep it in step with the hasher's state.
pub struct Md5Hasher {
    inner: md5::Md5,
    fed: Ghost<Seq<u8>>,
}

impl Md5Hasher {
    /// The bytes fed into the hasher so far.
    pub closed spec fn fed(&self) -> Seq<u8> {
        self.fed@
    }

    /// A fresh hasher that has seen no bytes.
    pub fn new() -> (r: Self)
        ensures
            r.fed() == Seq::<u8>::empty(),
    {
        Md5Hasher { inner: md5_new(), fed: Ghost(Seq::empty()) }
    }

    /// Relies on `md5::Digest::update`: feeding chunks one after another
    /// hashes their concatenation.
    #[verifier::external_body]
    pub fn update(&mut self, chunk: &[u8])
        ensures
            final(self).fed() == old(self).fed() + chunk@,
    {
        md5::Digest::update(&mut self.inner, chunk);
    }

    /// Relies on `md5::Digest::finalize`: the result is the 16-byte MD5
    /// digest of exactly the bytes fed, a function of those bytes alone.
    #[verifier::external_body]
    pub fn finalize(self) -> (r: Vec<u8>)
        ensures
            r@ == md5_of(self.fed()),
            r@.len() == 16,
    {
        md5::Digest::finalize(self.inner).as_slice().to_vec()
    }
}

/// The MD5 digest of `data` in one call, through [`Md5Hasher`].
pub fn md5_digest(data: &[u8]) -> (r: Vec<u8>)
    ensures
        r@ == md5_of(data@),
        r@.len() == 16,
{
    let mut hasher = Md5Hasher::new();
    hasher.update(data);
    proof {
        assert(hasher.fed() =~= data@);
    }
    hasher.finalize()
}

} // verus!
