//! The content-address hash type: a 39-byte identifier made of a 3-byte
//! type prefix, a 32-byte core hash, and 4 location bytes.
//!
//! ```text
//! PPPCCCCCCCCCCCCCCCCCCCCCCCCCCCCCCCCLLLL
//! ^  ^                                  ^
//!  \  \---------"untyped"--------------/
//!   \                                 /
//!    \-------------"full"------------/
//!
//! P: 3 byte prefix to indicate hash type
//! C: 32 byte hash, the "core"
//! L: 4 byte hash of the core hash, for DHT location
//! ```
//!
//! The 36 bytes which exclude the initial 3-byte type prefix are known
//! as the "untyped" hash; the complete 39 bytes are the "full" hash.

use vstd::prelude::*;

use crate::error::{HoloHashError, HoloHashResult};
use crate::hash_type::{HashType, PrimitiveHashType};

verus! {

/// Length of the prefix bytes (3)
pub const HOLO_HASH_PREFIX_LEN: usize = 3;

/// Length of the core bytes (32)
pub const HOLO_HASH_CORE_LEN: usize = 32;

/// Length of the location bytes (4)
pub const HOLO_HASH_LOC_LEN: usize = 4;

/// Length of the core bytes + the loc bytes (36 = 32 + 4),
/// i.e. everything except the type prefix
pub const HOLO_HASH_UNTYPED_LEN: usize = 36;

/// Length of the full hash bytes (39 = 3 + 32 + 4)
pub const HOLO_HASH_FULL_LEN: usize = 39;

/// The u32 location encoded by 4 little-endian location bytes.
pub open spec fn loc_of_bytes(b: Seq<u8>) -> u32
    recommends
        b.len() == 4,
{
    (b[0] + b[1] * 0x100 + b[2] * 0x10000 + b[3] * 0x1000000) as u32
}

/// A location on the DHT's circular keyspace, reduced from a hash's 4
/// location bytes.
#[derive(Debug, Clone, Copy, PartialEq, Eq, Structural)]
pub struct DhtLocation {
    loc: u32,
}

impl DhtLocation {
    /// The location as a number.
    pub closed spec fn spec_loc(&self) -> u32 {
        self.loc
    }

    /// Wrap a u32 location.
    pub fn new(loc: u32) -> (r: Self)
        ensures
            r.spec_loc() == loc,
    {
        DhtLocation { loc }
    }

    /// The location as a number.
    pub fn as_u32(&self) -> (r: u32)
        ensures
            r == self.spec_loc(),
    {
        self.loc
    }
}

/// Convert 4 location bytes into a u32 location.
pub fn bytes_to_loc(bytes: &[u8]) -> (r: u32)
    requires
        bytes@.len() == 4,
    ensures
        r == loc_of_bytes(bytes@),
{
    let b0 = bytes[0] as u32;
    let b1 = bytes[1] as u32;
    let b2 = bytes[2] as u32;
    let b3 = bytes[3] as u32;
    b0 + b1 * 0x100 + b2 * 0x10000 + b3 * 0x1000000
}

/// The 16-byte blake2b digest of a byte string, as the digest function
/// computes it; left uninterpreted here.
pub uninterp spec fn blake2b128_of(data: Seq<u8>) -> Seq<u8>;

/// Relies on blake2b_simd::Params: a blake2b digest with an output
/// length of 16 bytes, a function of the input bytes alone.
#[verifier::external_body]
fn blake2b_128(data: &[u8]) -> (r: Vec<u8>)
    ensures
        r@ == blake2b128_of(data@),
        r@.len() == 16,
{
    blake2b_simd::Params::new().hash_length(16).to_state().update(data).finalize().as_bytes().to_vec()
}

/// The 4 location bytes derived from a 16-byte digest: byte j of the
/// result folds together digest bytes j, j+4, j+8 and j+12 by XOR.
pub open spec fn loc_bytes_of_digest(h: Seq<u8>) -> Seq<u8>
    recommends
        h.len() == 16,
{
    seq![
        (h[0] ^ h[4] ^ h[8] ^ h[12]),
        (h[1] ^ h[5] ^ h[9] ^ h[13]),
        (h[2] ^ h[6] ^ h[10] ^ h[14]),
        (h[3] ^ h[7] ^ h[11] ^ h[15]),
    ]
}

/// The 4 location bytes that belong to a 32-byte core hash.
pub open spec fn loc_bytes_of_core(core: Seq<u8>) -> Seq<u8> {
    loc_bytes_of_digest(blake2b128_of(core))
}

/// Compute the 4 location bytes of a 32-byte core hash: a 16-byte
/// blake2b digest of the core, folded to 4 bytes by XOR.
pub fn holo_dht_location_bytes(data: &[u8]) -> (r: Vec<u8>)
    requires
        data@.len() == 32,
    ensures
        r@ == loc_bytes_of_core(data@),
        r@.len() == 4,
{
    let hash = blake2b_128(data);
    let mut out: Vec<u8> = Vec::new();
    out.push(hash[0] ^ hash[4] ^ hash[8] ^ hash[12]);
    out.push(hash[1] ^ hash[5] ^ hash[9] ^ hash[13]);
    out.push(hash[2] ^ hash[6] ^ hash[10] ^ hash[14]);
    out.push(hash[3] ^ hash[7] ^ hash[11] ^ hash[15]);
    proof {
        assert(out@ =~= loc_bytes_of_core(data@));
    }
    out
}

/// The ASCII byte of a hex digit value, lower case.
pub open spec fn hex_digit_byte(n: u8) -> u8
    recommends
        n < 16,
{
    if n < 10 {
        (48 + n) as u8
    } else {
        (87 + n) as u8
    }
}

/// The lower-case hex encoding of a byte string, two digits per byte.
pub open spec fn hex_bytes_of(b: Seq<u8>) -> Seq<u8> {
    Seq::new(
        b.len() * 2,
        |i: int|
            if i % 2 == 0 {
                hex_digit_byte(b[i / 2] / 16)
            } else {
                hex_digit_byte(b[i / 2] % 16)
            },
    )
}

/// Relies on String::from_utf8: bytes below 128 decode to one char each,
/// with the same code points.
#[verifier::external_body]
fn ascii_bytes_to_string(b: Vec<u8>) -> (r: String)
    requires
        forall|i: int| 0 <= i < b@.len() ==> b@[i] < 128,
    ensures
        r@ == b@.map_values(|x: u8| x as char),
{
    match String::from_utf8(b) {
        Ok(s) => s,
        Err(_) => String::new(),
    }
}

/// A content-address hash: a vector of 39 bytes — a 3-byte type prefix,
/// a 32-byte core hash, and 4 bytes of DHT location — together with the
/// zero-sized type that marks what it is a hash of.
#[derive(Debug, Clone, PartialEq, Eq, Hash)]
pub struct HoloHash<T: HashType> {
    hash: Vec<u8>,
    hash_type: T,
}

impl<T: HashType> HoloHash<T> {
    /// The full 39 bytes.
    pub closed spec fn spec_bytes(&self) -> Seq<u8> {
        self.hash@
    }

    /// The type marker.
    pub closed spec fn spec_type(&self) -> T {
        self.hash_type
    }

    /// Well-formed: 39 bytes whose first 3 are the type's prefix.
    pub closed spec fn wf(&self) -> bool {
        &&& self.hash@.len() == 39
        &&& self.hash@.subrange(0, 3) == self.hash_type.spec_prefix()
    }

    /// Raw constructor: create a hash from 39 bytes, using the prefix
    /// bytes to determine the hash type.
    pub fn try_from_raw_39(hash: Vec<u8>) -> (r: HoloHashResult<Self>)
        ensures
            r is Ok <==> hash@.len() == 39 && T::spec_accepts(hash@.subrange(0, 3)),
            r matches Ok(h) ==> h.wf() && h.spec_bytes() == hash@,
            hash@.len() != 39 ==> r matches Err(HoloHashError::BadSize),
            hash@.len() == 39 && !T::spec_accepts(hash@.subrange(0, 3)) ==> r matches Err(
                HoloHashError::BadPrefix(_, _),
            ),
    {
        if hash.len() != HOLO_HASH_FULL_LEN {
            return Err(HoloHashError::BadSize);
        }
        let prefix = vstd::slice::slice_subrange(hash.as_slice(), 0, HOLO_HASH_PREFIX_LEN);
        match T::try_from_prefix(prefix) {
            Ok(hash_type) => Ok(HoloHash { hash, hash_type }),
            Err(e) => Err(e),
        }
    }

    /// Raw constructor: create a hash from 39 bytes, using the prefix
    /// bytes to determine the hash type. The bytes must be of the right
    /// length and carry a prefix this type accepts.
    pub fn from_raw_39(hash: Vec<u8>) -> (r: Self)
        requires
            hash@.len() == 39,
            T::spec_accepts(hash@.subrange(0, 3)),
        ensures
            r.wf(),
            r.spec_bytes() == hash@,
    {
        match Self::try_from_raw_39(hash) {
            Ok(h) => h,
            Err(_) => unreached(),
        }
    }

    /// Use a precomputed hash + location byte array in vec form, along
    /// with a type, to construct a hash.
    pub fn try_from_raw_36_and_type(bytes: Vec<u8>, hash_type: T) -> (r: HoloHashResult<Self>)
        ensures
            r is Ok <==> bytes@.len() == 36,
            r matches Ok(h) ==> h.wf() && h.spec_bytes() == hash_type.spec_prefix() + bytes@
                && h.spec_type() == hash_type,
            bytes@.len() != 36 ==> r matches Err(HoloHashError::BadSize),
    {
        if bytes.len() != HOLO_HASH_UNTYPED_LEN {
            return Err(HoloHashError::BadSize);
        }
        let mut bytes = bytes;
        let mut hash = vstd::slice::slice_to_vec(hash_type.get_prefix());
        hash.append(&mut bytes);
        let h = HoloHash { hash, hash_type };
        proof {
            assert(h.hash@.subrange(0, 3) =~= h.hash_type.spec_prefix());
        }
        Ok(h)
    }

    /// Use a precomputed hash + location byte array in vec form, along
    /// with a type, to construct a hash. The bytes must be of the right
    /// length.
    pub fn from_raw_36_and_type(bytes: Vec<u8>, hash_type: T) -> (r: Self)
        requires
            bytes@.len() == 36,
        ensures
            r.wf(),
            r.spec_bytes() == hash_type.spec_prefix() + bytes@,
            r.spec_type() == hash_type,
    {
        match Self::try_from_raw_36_and_type(bytes, hash_type) {
            Ok(h) => h,
            Err(_) => unreached(),
        }
    }

    /// Change the type of this hash, keeping the same core and location
    /// bytes.
    pub fn retype<TT: HashType>(self, hash_type: TT) -> (r: HoloHash<TT>)
        requires
            self.wf(),
        ensures
            r.wf(),
            r.spec_bytes() == hash_type.spec_prefix() + self.spec_bytes().subrange(3, 39),
            r.spec_type() == hash_type,
    {
        let mut hash = vstd::slice::slice_to_vec(hash_type.get_prefix());
        let mut i: usize = HOLO_HASH_PREFIX_LEN;
        while i < HOLO_HASH_FULL_LEN
            invariant
                3 <= i <= 39,
                self.hash@.len() == 39,
                hash@ == hash_type.spec_prefix() + self.hash@.subrange(3, i as int),
            decreases 39 - i,
        {
            hash.push(self.hash[i]);
            proof {
                assert(hash@ =~= hash_type.spec_prefix() + self.hash@.subrange(3, i + 1));
            }
            i += 1;
        }
        let r = HoloHash { hash, hash_type };
        proof {
            assert(r.hash@.subrange(0, 3) =~= hash_type.spec_prefix());
        }
        r
    }

    /// The hash type marker of this hash.
    pub fn hash_type(&self) -> (r: &T)
        ensures
            *r == self.spec_type(),
    {
        &self.hash_type
    }

    /// Get the raw 39 bytes including the 3-byte prefix, the core bytes,
    /// and the 4 location bytes.
    pub fn get_raw_39(&self) -> (r: &[u8])
        ensures
            r@ == self.spec_bytes(),
    {
        self.hash.as_slice()
    }

    /// Get the 36 bytes that exclude the 3-byte prefix.
    pub fn get_raw_36(&self) -> (r: &[u8])
        requires
            self.wf(),
        ensures
            r@ == self.spec_bytes().subrange(3, 39),
    {
        vstd::slice::slice_subrange(self.hash.as_slice(), HOLO_HASH_PREFIX_LEN, HOLO_HASH_FULL_LEN)
    }

    /// Fetch just the core 32 bytes (without the 4 location bytes).
    pub fn get_raw_32(&self) -> (r: &[u8])
        requires
            self.wf(),
        ensures
            r@ == self.spec_bytes().subrange(3, 35),
    {
        vstd::slice::slice_subrange(self.hash.as_slice(), HOLO_HASH_PREFIX_LEN, 35)
    }

    /// Fetch the DHT location for this hash.
    pub fn get_loc(&self) -> (r: DhtLocation)
        requires
            self.wf(),
        ensures
            r.spec_loc() == loc_of_bytes(self.spec_bytes().subrange(35, 39)),
    {
        DhtLocation::new(
            bytes_to_loc(vstd::slice::slice_subrange(self.hash.as_slice(), 35, HOLO_HASH_FULL_LEN)),
        )
    }

    /// Consume into the inner byte vector.
    pub fn into_inner(self) -> (r: Vec<u8>)
        ensures
            r@ == self.spec_bytes(),
    {
        self.hash
    }

    /// Get the lower-case hex representation of the full hash bytes.
    pub fn to_hex(&self) -> (r: String)
        ensures
            r@ == hex_bytes_of(self.spec_bytes()).map_values(|x: u8| x as char),
    {
        let n = self.hash.len();
        let mut out: Vec<u8> = Vec::new();
        let mut i: usize = 0;
        while i < n
            invariant
                n == self.hash@.len(),
                0 <= i <= n,
                out@ == hex_bytes_of(self.hash@.subrange(0, i as int)),
            decreases n - i,
        {
            let b = self.hash[i];
            out.push(if b / 16 < 10 {
                48 + b / 16
            } else {
                87 + b / 16
            });
            out.push(if b % 16 < 10 {
                48 + b % 16
            } else {
                87 + b % 16
            });
            proof {
                assert(out@ =~= hex_bytes_of(self.hash@.subrange(0, i + 1)));
            }
            i += 1;
        }
        proof {
            assert(self.hash@.subrange(0, n as int) =~= self.hash@);
            assert(forall|j: int| 0 <= j < out@.len() ==> out@[j] < 128);
        }
        ascii_bytes_to_string(out)
    }

    /// Construct a hash from a 32-byte core hash. The 3 prefix bytes are
    /// added based on the provided type, and the 4 location bytes are
    /// computed.
    pub fn from_raw_32_and_type(hash: Vec<u8>, hash_type: T) -> (r: Self)
        requires
            hash@.len() == 32,
        ensures
            r.wf(),
            r.spec_bytes() == hash_type.spec_prefix() + hash@ + loc_bytes_of_core(hash@),
            r.spec_type() == hash_type,
    {
        let mut hash = hash;
        let ghost core = hash@;
        let mut loc = holo_dht_location_bytes(hash.as_slice());
        hash.append(&mut loc);
        let r = Self::from_raw_36_and_type(hash, hash_type);
        proof {
            assert(r.spec_bytes() =~= hash_type.spec_prefix() + core + loc_bytes_of_core(core));
        }
        r
    }
}

impl<P: PrimitiveHashType> HoloHash<P> {
    /// Construct from 36 raw bytes, using the known primitive type.
    pub fn from_raw_36(hash: Vec<u8>) -> (r: Self)
        requires
            hash@.len() == 36,
        ensures
            r.wf(),
            r.spec_bytes() == P::spec_static_prefix() + hash@,
    {
        Self::from_raw_36_and_type(hash, P::new())
    }

    /// Construct from a prehashed raw 32-byte core; the location bytes
    /// are calculated.
    pub fn from_raw_32(hash: Vec<u8>) -> (r: Self)
        requires
            hash@.len() == 32,
        ensures
            r.wf(),
            r.spec_bytes() == P::spec_static_prefix() + hash@ + loc_bytes_of_core(hash@),
    {
        Self::from_raw_32_and_type(hash, P::new())
    }
}

/// An agent public key hash.
pub type AgentPubKey = HoloHash<crate::hash_type::Agent>;

/// An entry hash.
pub type EntryHash = HoloHash<crate::hash_type::Entry>;

/// A network id hash.
pub type NetIdHash = HoloHash<crate::hash_type::NetId>;

/// A DHT op hash.
pub type DhtOpHash = HoloHash<crate::hash_type::DhtOp>;

/// An action hash.
pub type ActionHash = HoloHash<crate::hash_type::Action>;

/// A wasm hash.
pub type WasmHash = HoloHash<crate::hash_type::Wasm>;

/// A DNA hash.
pub type DnaHash = HoloHash<crate::hash_type::Dna>;

/// An external hash.
pub type ExternalHash = HoloHash<crate::hash_type::External>;

/// A hash that addresses DHT data: an entry hash or an action hash.
pub type AnyDhtHash = HoloHash<crate::hash_type::AnyDht>;

} // verus!
