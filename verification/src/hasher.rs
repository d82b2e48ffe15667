use vstd::prelude::*;

verus! {

// The streaming hash primitive is an opaque external collaborator. Its state
// is modelled by two quantities: the sequence of bytes absorbed so far, and
// the output length the state was configured with. The digest itself is an
// uninterpreted function of those two quantities alone.
/// The digest that the hash primitive produces for `data` at output length
/// `out_len` bytes. Uninterpreted: the primitive is opaque, but deterministic
/// in its input bytes and configured length.
pub uninterp spec fn blake2b_of(data: Seq<u8>, out_len: nat) -> Seq<u8>;

/// The bytes a hash state has absorbed so far, in arrival order.
pub uninterp spec fn absorbed(s: blake2b_simd::State) -> Seq<u8>;

/// The output length in bytes that a hash state was configured with.
pub uninterp spec fn configured_len(s: blake2b_simd::State) -> nat;

#[verifier::external_type_specification]
#[verifier::external_body]
pub struct ExState(blake2b_simd::State);

/// Relies on blake2b_simd::Params::new, Params::hash_length and
/// Params::to_state: a fresh state configured for `out_len` output bytes with
/// nothing absorbed yet. Params::hash_length panics outside 1..=64, which the
/// precondition rules out.
#[verifier::external_body]
fn new_state(out_len: usize) -> (s: blake2b_simd::State)
    requires
        1 <= out_len <= 64,
    ensures
        absorbed(s) == Seq::<u8>::empty(),
        configured_len(s) == out_len as nat,
{
    blake2b_simd::Params::new().hash_length(out_len).to_state()
}

/// Relies on blake2b_simd::State::update: appends the given bytes to what the
/// state has absorbed, leaving the configured output length unchanged.
#[verifier::external_body]
fn update_state(s: &mut blake2b_simd::State, data: &[u8])
    ensures
        absorbed(*final(s)) == absorbed(*old(s)) + data@,
        configured_len(*final(s)) == configured_len(*old(s)),
{
    s.update(data);
}

/// Relies on blake2b_simd::State::finalize and Hash::as_bytes: the digest of
/// the absorbed bytes, exactly as many bytes long as the state was configured
/// for.
#[verifier::external_body]
fn finalize_state(s: &blake2b_simd::State) -> (r: Vec<u8>)
    ensures
        r@ == blake2b_of(absorbed(*s), configured_len(*s)),
        r@.len() == configured_len(*s),
{
    s.finalize().as_bytes().to_vec()
}

/// A streaming hash accumulator: absorbs bytes in arrival order and is
/// finalized once into a digest of the configured length.
pub struct Hasher {
    state: blake2b_simd::State,
}

impl Hasher {
    /// The bytes this accumulator has absorbed so far.
    pub closed spec fn absorbed_bytes(self) -> Seq<u8> {
        absorbed(self.state)
    }

    /// The output length in bytes this accumulator was created with.
    pub closed spec fn out_len(self) -> nat {
        configured_len(self.state)
    }

    /// A fresh accumulator for digests of `out_len` bytes.
    pub fn new(out_len: usize) -> (h: Hasher)
        requires
            1 <= out_len <= 64,
        ensures
            h.absorbed_bytes() == Seq::<u8>::empty(),
            h.out_len() == out_len as nat,
    {
        Hasher { state: new_state(out_len) }
    }

    /// Absorb one chunk of input after everything absorbed before it.
    pub fn update(&mut self, data: &[u8])
        ensures
            final(self).absorbed_bytes() == old(self).absorbed_bytes() + data@,
            final(self).out_len() == old(self).out_len(),
    {
        update_state(&mut self.state, data);
    }

    /// Produce the digest of everything absorbed so far.
    pub fn finalize(&self) -> (r: Vec<u8>)
        ensures
            r@ == blake2b_of(self.absorbed_bytes(), self.out_len()),
            r@.len() == self.out_len(),
    {
        finalize_state(&self.state)
    }
}

} // verus!
