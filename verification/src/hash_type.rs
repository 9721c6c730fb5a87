//! Hash type markers: zero-sized types that name what a hash is a hash of,
//! each tied to a fixed 3-byte prefix.

use vstd::prelude::*;

use crate::byte_ops::slice_eq;
use crate::error::HoloHashError;

verus! {

/// The prefix bytes of an agent public key.
pub open spec fn agent_prefix() -> Seq<u8> {
    seq![132u8, 32u8, 36u8]
}

/// The prefix bytes of an entry hash.
pub open spec fn entry_prefix() -> Seq<u8> {
    seq![132u8, 33u8, 36u8]
}

/// The prefix bytes of a network id hash.
pub open spec fn net_id_prefix() -> Seq<u8> {
    seq![132u8, 34u8, 36u8]
}

/// The prefix bytes of a DHT op hash.
pub open spec fn dht_op_prefix() -> Seq<u8> {
    seq![132u8, 36u8, 36u8]
}

/// The prefix bytes of an action hash.
pub open spec fn action_prefix() -> Seq<u8> {
    seq![132u8, 41u8, 36u8]
}

/// The prefix bytes of a wasm hash.
pub open spec fn wasm_prefix() -> Seq<u8> {
    seq![132u8, 42u8, 36u8]
}

/// The prefix bytes of a DNA hash.
pub open spec fn dna_prefix() -> Seq<u8> {
    seq![132u8, 45u8, 36u8]
}

/// The prefix bytes of an external hash.
pub open spec fn external_prefix() -> Seq<u8> {
    seq![132u8, 47u8, 36u8]
}

/// A type which marks what a hash is a hash of, and knows the 3-byte
/// prefix that announces that type on the wire.
pub trait HashType: Sized + Clone + Copy {
    /// The 3 prefix bytes of this value's type.
    spec fn spec_prefix(&self) -> Seq<u8>;

    /// The human-readable name of this hash type.
    spec fn spec_hash_name(&self) -> Seq<char>;

    /// Which prefixes this type reads back from raw bytes.
    spec fn spec_accepts(prefix: Seq<u8>) -> bool;

    /// The prefix bytes of this value's type.
    fn get_prefix(&self) -> (r: &'static [u8])
        ensures
            r@ == self.spec_prefix(),
            r@.len() == 3,
    ;

    /// The human-readable name of this hash type.
    fn hash_name(&self) -> (r: &'static str)
        ensures
            r@ == self.spec_hash_name(),
    ;

    /// Read a hash type back from prefix bytes; succeeds exactly on the
    /// prefixes this type accepts.
    fn try_from_prefix(prefix: &[u8]) -> (r: Result<Self, HoloHashError>)
        ensures
            r is Ok <==> Self::spec_accepts(prefix@),
            r matches Ok(t) ==> t.spec_prefix() == prefix@,
            r is Err ==> r matches Err(HoloHashError::BadPrefix(_, _)),
            r matches Err(HoloHashError::BadPrefix(_, got)) ==> got@ == prefix@,
    ;
}

/// A hash type with exactly one prefix, known statically.
pub trait PrimitiveHashType: HashType {
    /// The one prefix of this primitive type.
    spec fn spec_static_prefix() -> Seq<u8>;

    /// The one prefix of this primitive type.
    fn static_prefix() -> (r: &'static [u8])
        ensures
            r@ == Self::spec_static_prefix(),
            r@.len() == 3,
    ;

    /// Construct the marker value.
    fn new() -> (r: Self)
        ensures
            r.spec_prefix() == Self::spec_static_prefix(),
            Self::spec_accepts(Self::spec_static_prefix()),
    ;
}

/// Marker for agent public keys.
#[derive(Debug, Clone, Copy, PartialEq, Eq, Structural, Hash)]
pub struct Agent;

/// Marker for entry hashes.
#[derive(Debug, Clone, Copy, PartialEq, Eq, Structural, Hash)]
pub struct Entry;

/// Marker for network id hashes.
#[derive(Debug, Clone, Copy, PartialEq, Eq, Structural, Hash)]
pub struct NetId;

/// Marker for DHT op hashes.
#[derive(Debug, Clone, Copy, PartialEq, Eq, Structural, Hash)]
pub struct DhtOp;

/// Marker for action hashes.
#[derive(Debug, Clone, Copy, PartialEq, Eq, Structural, Hash)]
pub struct Action;

/// Marker for wasm hashes.
#[derive(Debug, Clone, Copy, PartialEq, Eq, Structural, Hash)]
pub struct Wasm;

/// Marker for DNA hashes.
#[derive(Debug, Clone, Copy, PartialEq, Eq, Structural, Hash)]
pub struct Dna;

/// Marker for external hashes.
#[derive(Debug, Clone, Copy, PartialEq, Eq, Structural, Hash)]
pub struct External;

impl HashType for Agent {
    open spec fn spec_prefix(&self) -> Seq<u8> {
        agent_prefix()
    }

    open spec fn spec_hash_name(&self) -> Seq<char> {
        "AgentPubKey"@
    }

    open spec fn spec_accepts(prefix: Seq<u8>) -> bool {
        prefix == agent_prefix()
    }

    fn get_prefix(&self) -> (r: &'static [u8]) {
        Self::static_prefix()
    }

    fn hash_name(&self) -> (r: &'static str) {
        "AgentPubKey"
    }

    fn try_from_prefix(prefix: &[u8]) -> (r: Result<Self, HoloHashError>) {
        if slice_eq(prefix, Self::static_prefix()) {
            Ok(Agent)
        } else {
            Err(HoloHashError::BadPrefix(
                vstd::slice::slice_to_vec(Self::static_prefix()),
                vstd::slice::slice_to_vec(prefix),
            ))
        }
    }
}

impl PrimitiveHashType for Agent {
    open spec fn spec_static_prefix() -> Seq<u8> {
        agent_prefix()
    }

    fn static_prefix() -> (r: &'static [u8]) {
        let arr: &'static [u8; 3] = &[132u8, 32u8, 36u8];
        let r = arr.as_slice();
        proof {
            assert(r@ =~= agent_prefix());
        }
        r
    }

    fn new() -> (r: Self) {
        Agent
    }
}

impl HashType for Entry {
    open spec fn spec_prefix(&self) -> Seq<u8> {
        entry_prefix()
    }

    open spec fn spec_hash_name(&self) -> Seq<char> {
        "EntryHash"@
    }

    open spec fn spec_accepts(prefix: Seq<u8>) -> bool {
        prefix == entry_prefix()
    }

    fn get_prefix(&self) -> (r: &'static [u8]) {
        Self::static_prefix()
    }

    fn hash_name(&self) -> (r: &'static str) {
        "EntryHash"
    }

    fn try_from_prefix(prefix: &[u8]) -> (r: Result<Self, HoloHashError>) {
        if slice_eq(prefix, Self::static_prefix()) {
            Ok(Entry)
        } else {
            Err(HoloHashError::BadPrefix(
                vstd::slice::slice_to_vec(Self::static_prefix()),
                vstd::slice::slice_to_vec(prefix),
            ))
        }
    }
}

impl PrimitiveHashType for Entry {
    open spec fn spec_static_prefix() -> Seq<u8> {
        entry_prefix()
    }

    fn static_prefix() -> (r: &'static [u8]) {
        let arr: &'static [u8; 3] = &[132u8, 33u8, 36u8];
        let r = arr.as_slice();
        proof {
            assert(r@ =~= entry_prefix());
        }
        r
    }

    fn new() -> (r: Self) {
        Entry
    }
}

impl HashType for NetId {
    open spec fn spec_prefix(&self) -> Seq<u8> {
        net_id_prefix()
    }

    open spec fn spec_hash_name(&self) -> Seq<char> {
        "NetIdHash"@
    }

    open spec fn spec_accepts(prefix: Seq<u8>) -> bool {
        prefix == net_id_prefix()
    }

    fn get_prefix(&self) -> (r: &'static [u8]) {
        Self::static_prefix()
    }

    fn hash_name(&self) -> (r: &'static str) {
        "NetIdHash"
    }

    fn try_from_prefix(prefix: &[u8]) -> (r: Result<Self, HoloHashError>) {
        if slice_eq(prefix, Self::static_prefix()) {
            Ok(NetId)
        } else {
            Err(HoloHashError::BadPrefix(
                vstd::slice::slice_to_vec(Self::static_prefix()),
                vstd::slice::slice_to_vec(prefix),
            ))
        }
    }
}

impl PrimitiveHashType for NetId {
    open spec fn spec_static_prefix() -> Seq<u8> {
        net_id_prefix()
    }

    fn static_prefix() -> (r: &'static [u8]) {
        let arr: &'static [u8; 3] = &[132u8, 34u8, 36u8];
        let r = arr.as_slice();
        proof {
            assert(r@ =~= net_id_prefix());
        }
        r
    }

    fn new() -> (r: Self) {
        NetId
    }
}

impl HashType for DhtOp {
    open spec fn spec_prefix(&self) -> Seq<u8> {
        dht_op_prefix()
    }

    open spec fn spec_hash_name(&self) -> Seq<char> {
        "DhtOpHash"@
    }

    open spec fn spec_accepts(prefix: Seq<u8>) -> bool {
        prefix == dht_op_prefix()
    }

    fn get_prefix(&self) -> (r: &'static [u8]) {
        Self::static_prefix()
    }

    fn hash_name(&self) -> (r: &'static str) {
        "DhtOpHash"
    }

    fn try_from_prefix(prefix: &[u8]) -> (r: Result<Self, HoloHashError>) {
        if slice_eq(prefix, Self::static_prefix()) {
            Ok(DhtOp)
        } else {
            Err(HoloHashError::BadPrefix(
                vstd::slice::slice_to_vec(Self::static_prefix()),
                vstd::slice::slice_to_vec(prefix),
            ))
        }
    }
}

impl PrimitiveHashType for DhtOp {
    open spec fn spec_static_prefix() -> Seq<u8> {
        dht_op_prefix()
    }

    fn static_prefix() -> (r: &'static [u8]) {
        let arr: &'static [u8; 3] = &[132u8, 36u8, 36u8];
        let r = arr.as_slice();
        proof {
            assert(r@ =~= dht_op_prefix());
        }
        r
    }

    fn new() -> (r: Self) {
        DhtOp
    }
}

impl HashType for Action {
    open spec fn spec_prefix(&self) -> Seq<u8> {
        action_prefix()
    }

    open spec fn spec_hash_name(&self) -> Seq<char> {
        "ActionHash"@
    }

    open spec fn spec_accepts(prefix: Seq<u8>) -> bool {
        prefix == action_prefix()
    }

    fn get_prefix(&self) -> (r: &'static [u8]) {
        Self::static_prefix()
    }

    fn hash_name(&self) -> (r: &'static str) {
        "ActionHash"
    }

    fn try_from_prefix(prefix: &[u8]) -> (r: Result<Self, HoloHashError>) {
        if slice_eq(prefix, Self::static_prefix()) {
            Ok(Action)
        } else {
            Err(HoloHashError::BadPrefix(
                vstd::slice::slice_to_vec(Self::static_prefix()),
                vstd::slice::slice_to_vec(prefix),
            ))
        }
    }
}

impl PrimitiveHashType for Action {
    open spec fn spec_static_prefix() -> Seq<u8> {
        action_prefix()
    }

    fn static_prefix() -> (r: &'static [u8]) {
        let arr: &'static [u8; 3] = &[132u8, 41u8, 36u8];
        let r = arr.as_slice();
        proof {
            assert(r@ =~= action_prefix());
        }
        r
    }

    fn new() -> (r: Self) {
        Action
    }
}

impl HashType for Wasm {
    open spec fn spec_prefix(&self) -> Seq<u8> {
        wasm_prefix()
    }

    open spec fn spec_hash_name(&self) -> Seq<char> {
        "WasmHash"@
    }

    open spec fn spec_accepts(prefix: Seq<u8>) -> bool {
        prefix == wasm_prefix()
    }

    fn get_prefix(&self) -> (r: &'static [u8]) {
        Self::static_prefix()
    }

    fn hash_name(&self) -> (r: &'static str) {
        "WasmHash"
    }

    fn try_from_prefix(prefix: &[u8]) -> (r: Result<Self, HoloHashError>) {
        if slice_eq(prefix, Self::static_prefix()) {
            Ok(Wasm)
        } else {
            Err(HoloHashError::BadPrefix(
                vstd::slice::slice_to_vec(Self::static_prefix()),
                vstd::slice::slice_to_vec(prefix),
            ))
        }
    }
}

impl PrimitiveHashType for Wasm {
    open spec fn spec_static_prefix() -> Seq<u8> {
        wasm_prefix()
    }

    fn static_prefix() -> (r: &'static [u8]) {
        let arr: &'static [u8; 3] = &[132u8, 42u8, 36u8];
        let r = arr.as_slice();
        proof {
            assert(r@ =~= wasm_prefix());
        }
        r
    }

    fn new() -> (r: Self) {
        Wasm
    }
}

impl HashType for Dna {
    open spec fn spec_prefix(&self) -> Seq<u8> {
        dna_prefix()
    }

    open spec fn spec_hash_name(&self) -> Seq<char> {
        "DnaHash"@
    }

    open spec fn spec_accepts(prefix: Seq<u8>) -> bool {
        prefix == dna_prefix()
    }

    fn get_prefix(&self) -> (r: &'static [u8]) {
        Self::static_prefix()
    }

    fn hash_name(&self) -> (r: &'static str) {
        "DnaHash"
    }

    fn try_from_prefix(prefix: &[u8]) -> (r: Result<Self, HoloHashError>) {
        if slice_eq(prefix, Self::static_prefix()) {
            Ok(Dna)
        } else {
            Err(HoloHashError::BadPrefix(
                vstd::slice::slice_to_vec(Self::static_prefix()),
                vstd::slice::slice_to_vec(prefix),
            ))
        }
    }
}

impl PrimitiveHashType for Dna {
    open spec fn spec_static_prefix() -> Seq<u8> {
        dna_prefix()
    }

    fn static_prefix() -> (r: &'static [u8]) {
        let arr: &'static [u8; 3] = &[132u8, 45u8, 36u8];
        let r = arr.as_slice();
        proof {
            assert(r@ =~= dna_prefix());
        }
        r
    }

    fn new() -> (r: Self) {
        Dna
    }
}

impl HashType for External {
    open spec fn spec_prefix(&self) -> Seq<u8> {
        external_prefix()
    }

    open spec fn spec_hash_name(&self) -> Seq<char> {
        "ExternalHash"@
    }

    open spec fn spec_accepts(prefix: Seq<u8>) -> bool {
        prefix == external_prefix()
    }

    fn get_prefix(&self) -> (r: &'static [u8]) {
        Self::static_prefix()
    }

    fn hash_name(&self) -> (r: &'static str) {
        "ExternalHash"
    }

    fn try_from_prefix(prefix: &[u8]) -> (r: Result<Self, HoloHashError>) {
        if slice_eq(prefix, Self::static_prefix()) {
            Ok(External)
        } else {
            Err(HoloHashError::BadPrefix(
                vstd::slice::slice_to_vec(Self::static_prefix()),
                vstd::slice::slice_to_vec(prefix),
            ))
        }
    }
}

impl PrimitiveHashType for External {
    open spec fn spec_static_prefix() -> Seq<u8> {
        external_prefix()
    }

    fn static_prefix() -> (r: &'static [u8]) {
        let arr: &'static [u8; 3] = &[132u8, 47u8, 36u8];
        let r = arr.as_slice();
        proof {
            assert(r@ =~= external_prefix());
        }
        r
    }

    fn new() -> (r: Self) {
        External
    }
}


/// Marker for hashes that may be either an entry hash or an action
/// hash: the two kinds of address that DHT data is looked up by.
#[derive(Debug, Clone, Copy, PartialEq, Eq, Structural, Hash)]
pub enum AnyDht {
    /// An entry hash.
    Entry,
    /// An action hash.
    Action,
}

impl HashType for AnyDht {
    open spec fn spec_prefix(&self) -> Seq<u8> {
        match self {
            AnyDht::Entry => entry_prefix(),
            AnyDht::Action => action_prefix(),
        }
    }

    open spec fn spec_hash_name(&self) -> Seq<char> {
        match self {
            AnyDht::Entry => "EntryHash"@,
            AnyDht::Action => "ActionHash"@,
        }
    }

    open spec fn spec_accepts(prefix: Seq<u8>) -> bool {
        prefix == entry_prefix() || prefix == action_prefix()
    }

    fn get_prefix(&self) -> (r: &'static [u8]) {
        match self {
            AnyDht::Entry => <Entry as PrimitiveHashType>::static_prefix(),
            AnyDht::Action => <Action as PrimitiveHashType>::static_prefix(),
        }
    }

    fn hash_name(&self) -> (r: &'static str) {
        match self {
            AnyDht::Entry => "EntryHash",
            AnyDht::Action => "ActionHash",
        }
    }

    fn try_from_prefix(prefix: &[u8]) -> (r: Result<Self, HoloHashError>) {
        if slice_eq(prefix, <Entry as PrimitiveHashType>::static_prefix()) {
            Ok(AnyDht::Entry)
        } else if slice_eq(prefix, <Action as PrimitiveHashType>::static_prefix()) {
            Ok(AnyDht::Action)
        } else {
            Err(HoloHashError::BadPrefix(
                vstd::slice::slice_to_vec(<Entry as PrimitiveHashType>::static_prefix()),
                vstd::slice::slice_to_vec(prefix),
            ))
        }
    }
}

} // verus!
