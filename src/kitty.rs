//! The entity record, its byte layout, and the byte layout of the entropy payload.
use vstd::prelude::*;

verus! {

/// Identifier of an entity.
pub type KittyId = u32;

/// Identity of an account, as authenticated by the host.
pub type AccountId = u64;

/// The per-block unpredictable seed supplied by the host.
pub type Seed = [u8; 32];

/// Number of bytes of an encoded [`Kitty`].
pub const KITTY_SIZE: usize = 20;

/// An entity record in the current layout: a genetic code and a four-byte name.
#[derive(Clone, Copy, Debug, PartialEq, Eq)]
pub struct Kitty {
    pub dna: [u8; 16],
    pub name: [u8; 4],
}

/// Little-endian encoding of `x` on `n` bytes (higher bytes dropped).
pub open spec fn le_bytes(x: nat, n: nat) -> Seq<u8>
    decreases n,
{
    if n == 0 {
        Seq::empty()
    } else {
        seq![(x % 256) as u8] + le_bytes(x / 256, (n - 1) as nat)
    }
}

/// Encoding of an optional 32-bit index: a tag byte, then the value if present.
pub open spec fn option_u32_bytes(v: Option<u32>) -> Seq<u8> {
    match v {
        None => seq![0u8],
        Some(i) => seq![1u8] + le_bytes(i as nat, 4),
    }
}

/// The bytes that are hashed to derive a genetic code: the seed, the caller and the
/// caller's position in the current batch.
pub open spec fn payload_bytes(seed: Seq<u8>, who: AccountId, index: Option<u32>) -> Seq<u8> {
    seed + le_bytes(who as nat, 8) + option_u32_bytes(index)
}

/// Appends all of `bytes` to `out`.
pub fn push_all(out: &mut Vec<u8>, bytes: &[u8])
    ensures
        final(out)@ == old(out)@ + bytes@,
{
    let ghost start = out@;
    let mut i: usize = 0;
    while i < bytes.len()
        invariant
            i <= bytes@.len(),
            out@ == start + bytes@.subrange(0, i as int),
        decreases bytes@.len() - i,
    {
        out.push(bytes[i]);
        i = i + 1;
        assert(out@ =~= start + bytes@.subrange(0, i as int));
    }
    assert(bytes@.subrange(0, i as int) =~= bytes@);
}

/// Appends the `n` low-order bytes of `x` to `out`, least significant first.
pub fn push_le(out: &mut Vec<u8>, x: u64, n: usize)
    ensures
        final(out)@ == old(out)@ + le_bytes(x as nat, n as nat),
{
    let ghost start = out@;
    let mut cur: u64 = x;
    let mut i: usize = 0;
    let ghost mut done: Seq<u8> = Seq::empty();
    while i < n
        invariant
            i <= n,
            out@ == start + done,
            done + le_bytes(cur as nat, (n - i) as nat) == le_bytes(x as nat, n as nat),
        decreases n - i,
    {
        let ghost rest = le_bytes((cur / 256) as nat, (n - i - 1) as nat);
        assert(le_bytes(cur as nat, (n - i) as nat) == seq![(cur % 256) as u8] + rest);
        out.push((cur % 256) as u8);
        proof {
            assert(done + seq![(cur % 256) as u8] + rest =~= done + (seq![(cur % 256) as u8] + rest));
            done = done.push((cur % 256) as u8);
            assert(done =~= done.take(done.len() - 1) + seq![(cur % 256) as u8]);
        }
        cur = cur / 256;
        i = i + 1;
        assert(out@ =~= start + done);
    }
    assert(done + le_bytes(cur as nat, 0) =~= done);
}

/// Encodes the payload whose hash gives a new genetic code.
pub fn encode_payload(seed: &Seed, who: AccountId, index: Option<u32>) -> (r: Vec<u8>)
    ensures
        r@ == payload_bytes(seed@, who, index),
{
    let mut out: Vec<u8> = Vec::new();
    push_all(&mut out, seed.as_slice());
    push_le(&mut out, who, 8);
    match index {
        None => {
            out.push(0u8);
        },
        Some(i) => {
            out.push(1u8);
            push_le(&mut out, i as u64, 4);
        },
    }
    assert(out@ =~= payload_bytes(seed@, who, index));
    out
}

/// Reads `N` bytes of `bytes` starting at `start`.
pub fn read_array<const N: usize>(bytes: &[u8], start: usize) -> (r: [u8; N])
    requires
        start + N <= bytes@.len(),
    ensures
        r@ == bytes@.subrange(start as int, start + N),
{
    let mut r: [u8; N] = [0u8; N];
    let mut i: usize = 0;
    while i < N
        invariant
            i <= N,
            start + N <= bytes.len(),
            r@.len() == N,
            forall|j: int| 0 <= j < i ==> r@[j] == bytes@[start + j],
        decreases N - i,
    {
        r[i] = bytes[start + i];
        i = i + 1;
    }
    assert(r@ =~= bytes@.subrange(start as int, start + N));
    r
}

impl Kitty {
    /// The stored bytes of this record: genetic code, then name.
    pub open spec fn encoded(self) -> Seq<u8> {
        self.dna@ + self.name@
    }

    /// Whether this record is what `bytes` decodes to under the current layout
    /// (bytes past the record are ignored).
    pub open spec fn decodes_from(self, bytes: Seq<u8>) -> bool {
        &&& bytes.len() >= KITTY_SIZE
        &&& self.dna@ == bytes.subrange(0, 16)
        &&& self.name@ == bytes.subrange(16, 20)
    }

    /// Encodes this record under the current layout.
    pub fn encode(&self) -> (r: Vec<u8>)
        ensures
            r@ == self.encoded(),
    {
        let mut out: Vec<u8> = Vec::new();
        push_all(&mut out, self.dna.as_slice());
        push_all(&mut out, self.name.as_slice());
        out
    }

    /// Decodes a record under the current layout; `None` when `bytes` is too short.
    pub fn decode(bytes: &[u8]) -> (r: Option<Kitty>)
        ensures
            r is Some <==> bytes@.len() >= KITTY_SIZE,
            r matches Some(k) ==> k.decodes_from(bytes@),
    {
        if bytes.len() < KITTY_SIZE {
            None
        } else {
            let dna: [u8; 16] = read_array(bytes, 0);
            let name: [u8; 4] = read_array(bytes, 16);
            Some(Kitty { dna, name })
        }
    }
}

/// Encoding then decoding a record gives it back.
pub proof fn lemma_kitty_round_trip(k: Kitty)
    ensures
        k.decodes_from(k.encoded()),
{
    assert(k.encoded().subrange(0, 16) =~= k.dna@);
    assert(k.encoded().subrange(16, 20) =~= k.name@);
}

} // verus!
