//! Capabilities that a runtime and its chain supply: conversions, hashing, headers,
//! blocks and the pieces of information that an executive checks and applies.

use vstd::prelude::*;
use std::ops::{BitAnd, BitOr};
use vstd::std_specs::cmp::PartialEqSpec;
use crate::primitives::{Bytes, Items, List, Pairs, H256};

verus! {

/// A lazy value.
pub trait Lazy<T: ?Sized> {
    /// Produces the value.
    fn get(&mut self) -> &T;
}

/// Means of signature verification.
pub trait Verify {
    /// Type of the signer.
    type Signer;

    /// Verifies a signature over `msg` against `signer`.
    fn verify<L: Lazy<[u8]>>(&self, msg: L, signer: &Self::Signer) -> bool;
}

/// Means of changing one type into another in a manner dependent on the source type.
pub trait AuxLookup {
    /// Type to look up from.
    type Source;

    /// Type to look up into.
    type Target;

    /// Attempts a lookup.
    fn lookup(s: Self::Source) -> Result<Self::Target, &'static str>;
}

/// Payments on a single generic `AccountId` type.
pub trait MakePayment<AccountId> {
    /// Makes a payment concerning `who` for an extrinsic of `encoded_len` bytes. Returns
    /// `Ok` exactly where the payment was made.
    fn make_payment(who: &AccountId, encoded_len: usize) -> Result<(), &'static str>;
}

impl<T> MakePayment<T> for () {
    /// Nothing is charged: the payment always succeeds.
    fn make_payment(who: &T, encoded_len: usize) -> (paid: Result<(), &'static str>)
        ensures
            paid is Ok,
    {
        Ok(())
    }
}

/// Extensible conversion, generic over both source and destination types.
pub trait Convert<A, B> {
    /// Makes the conversion.
    fn convert(a: A) -> B;
}

/// The conversion that returns its argument.
pub struct Identity;

impl<T> Convert<T, T> for Identity {
    fn convert(a: T) -> (b: T)
        ensures
            b == a,
    {
        a
    }
}

/// Explicit conversion between numeric types, in both directions. A value that does not
/// fit in the destination type is truncated to it.
pub trait As<T>: Sized {
    /// What `as_` gives.
    spec fn spec_as(self) -> T;

    /// What `sa` gives.
    spec fn spec_sa(t: T) -> Self;

    /// Converts forward, from `Self` to `T`.
    fn as_(self) -> (t: T)
        ensures
            t == self.spec_as(),
    ;

    /// Converts backward, from `T` to `Self`.
    fn sa(t: T) -> (s: Self)
        ensures
            s == Self::spec_sa(t),
    ;
}

/// A value that may be empty.
pub trait MaybeEmpty {
    /// Whether the value is empty.
    fn is_empty(&self) -> bool;
}

impl<T: Default + PartialEq> MaybeEmpty for T {
    /// A value is empty where it equals the default value of its type.
    fn is_empty(&self) -> (empty: bool)
        ensures
            T::obeys_eq_spec() ==> exists|default: T|
                #![trigger self.eq_spec(&default)]
                call_ensures(T::default, (), default) && empty == self.eq_spec(&default),
    {
        *self == T::default()
    }
}

/// A type with auxiliary public information that may be empty.
pub trait HasPublicAux {
    /// The auxiliary public information.
    type PublicAux: MaybeEmpty;
}

/// Borrowing a value as another type.
pub trait RefInto<T> {
    /// Borrows the value as a `T`.
    fn ref_into(&self) -> &T;
}

impl<T> RefInto<T> for T {
    fn ref_into(&self) -> (r: &T)
        ensures
            r == self,
    {
        &self
    }
}

/// A value that can be clear: have no bits set. For numeric types this is the same as
/// being zero.
pub trait Clear: Sized {
    /// Whether no bits are set.
    fn is_clear(&self) -> bool;

    /// The value of the type that is clear.
    fn clear() -> Self;
}

impl<T: Default + Eq + PartialEq> Clear for T {
    /// A value is clear where it equals the default value of its type.
    fn is_clear(&self) -> (clear: bool)
        ensures
            T::obeys_eq_spec() ==> exists|default: T|
                #![trigger self.eq_spec(&default)]
                call_ensures(T::default, (), default) && clear == self.eq_spec(&default),
    {
        *self == Self::clear()
    }

    /// The clear value is the default value of the type.
    fn clear() -> (cleared: Self)
        ensures
            call_ensures(T::default, (), cleared),
    {
        Default::default()
    }
}

/// A value that can be cleared and combined bit by bit.
pub trait SimpleBitOps: Sized + Clear + BitOr<Self, Output = Self> + BitAnd<
    Self,
    Output = Self,
> {

}

impl<T: Sized + Clear + BitOr<Self, Output = Self> + BitAnd<Self, Output = Self>> SimpleBitOps for T {

}

/// Something that can be executed.
pub trait Executable {
    /// Executes it.
    fn execute();
}

impl Executable for () {
    /// There is nothing to execute.
    fn execute() {
    }
}

impl<A: Executable, B: Executable> Executable for (A, B) {
    /// Executes the first, then the second.
    fn execute() {
        A::execute();
        B::execute();
    }
}

/// A value that can be serialized and shown where the standard library is at hand:
/// without it, every value.
pub trait MaybeSerializeDebugButNotDeserialize {

}

impl<T> MaybeSerializeDebugButNotDeserialize for T {

}

/// A value that can be serialized, deserialized and shown where the standard library is
/// at hand: without it, every value.
pub trait MaybeSerializeDebug {

}

impl<T> MaybeSerializeDebug for T {

}

/// A value that can be displayed where the standard library is at hand: without it,
/// every value.
pub trait MaybeDisplay {

}

impl<T> MaybeDisplay for T {

}

/// A type that can be a member of a runtime's types.
pub trait Member: Send + Sync + Sized + MaybeSerializeDebug + Eq + PartialEq + Clone + 'static {

}

impl<T: Send + Sync + Sized + MaybeSerializeDebug + Eq + PartialEq + Clone + 'static> Member for T {

}

/// A value with a canonical byte encoding.
pub trait Encode {
    /// The canonical encoding.
    spec fn encoding(&self) -> Bytes;

    /// Produces the canonical encoding.
    fn encode(&self) -> (bytes: Vec<u8>)
        ensures
            bytes@ == self.encoding(),
    ;
}

/// A hashing scheme with its trie: hashes of byte strings, and the roots of the tries
/// that commit to a list or to a mapping of byte strings.
///
/// Each hash and each root is a function of the hashed input alone.
pub trait Hashing: 'static + MaybeSerializeDebug + Clone + Eq + PartialEq {
    /// The hash type produced.
    type Output: Member;

    /// The hash of a byte string.
    spec fn spec_hash(s: Bytes) -> Self::Output;

    /// The root of the trie that maps each index of `items` to the item at that index.
    spec fn spec_ordered_trie_root(items: Items) -> Self::Output;

    /// The root of the trie that holds the given pairs of key and value.
    spec fn spec_trie_root(pairs: Pairs) -> Self::Output;

    /// Produces the hash of some byte slice.
    fn hash(s: &[u8]) -> (h: Self::Output)
        ensures
            h == Self::spec_hash(s@),
    ;

    /// Produces the hash of an encodable value: the hash of its encoding.
    fn hash_of<S: Encode>(s: &S) -> (h: Self::Output)
        ensures
            h == Self::spec_hash(s.encoding()),
    {
        let bytes = s.encode();
        Self::hash(bytes.as_slice())
    }

    /// Produces the trie root of the mapping from indices to the given byte slices.
    fn enumerated_trie_root(items: &[&[u8]]) -> (root: Self::Output)
        ensures
            root == Self::spec_ordered_trie_root(items.deep_view()),
    ;

    /// Produces the trie root of the mapping from indices to the given byte strings.
    fn ordered_trie_root(input: Vec<Vec<u8>>) -> (root: Self::Output)
        ensures
            root == Self::spec_ordered_trie_root(input.deep_view()),
    ;

    /// Produces the trie root of the given mapping.
    fn trie_root(input: Vec<(Vec<u8>, Vec<u8>)>) -> (root: Self::Output)
        ensures
            root == Self::spec_trie_root(input.deep_view()),
    ;

    /// Acquires the storage root of the state that the runtime currently works on.
    fn storage_root() -> Self::Output;
}

/// Something that can be checked for equality with another value of its type, the
/// caller reporting a difference to a debug channel.
pub trait CheckEqual {
    /// Whether the two values are equal.
    fn check_equal(&self, other: &Self) -> bool;
}

impl CheckEqual for H256 {
    /// Two hashes are equal where they hold the same bytes.
    fn check_equal(&self, other: &Self) -> (equal: bool)
        ensures
            equal == (self@ == other@),
    {
        self == other
    }
}

/// A list of log items that items can be pushed onto.
pub trait Digest {
    /// A log item.
    type Item: Member;

    /// The items pushed so far, oldest first.
    spec fn logs(&self) -> List<Self::Item>;

    /// Appends an item.
    fn push(&mut self, item: Self::Item)
        ensures
            final(self).logs() == old(self).logs().push(item),
    ;
}

/// What a header records.
pub struct HeaderFields<Number, Hash, Digest> {
    /// Number of the block.
    pub number: Number,
    /// Root of the trie of the block's extrinsics.
    pub extrinsics_root: Hash,
    /// Root of the state trie after the block.
    pub state_root: Hash,
    /// Hash of the parent block's header.
    pub parent_hash: Hash,
    /// Log items of the block.
    pub digest: Digest,
}

/// A block header: it records a number, the roots of the extrinsics and of the state,
/// the hash of the parent header and a digest, and has a hash of its own.
pub trait Header: Clone + Send + Sync + Encode + Eq + MaybeSerializeDebug {
    /// Block numbers.
    type Number: Member + Copy + MaybeDisplay;

    /// Hashes.
    type Hash: Member + Copy + MaybeDisplay + Default + SimpleBitOps;

    /// The hashing scheme that gives a header its hash.
    type Hashing: Hashing<Output = Self::Hash>;

    /// Digests.
    type Digest: Member + Default;

    /// What the header records.
    spec fn fields(&self) -> HeaderFields<Self::Number, Self::Hash, Self::Digest>;

    /// Creates the header that records the given values.
    fn new(
        number: Self::Number,
        extrinsics_root: Self::Hash,
        state_root: Self::Hash,
        parent_hash: Self::Hash,
        digest: Self::Digest,
    ) -> (header: Self)
        ensures
            header.fields() == (HeaderFields {
                number,
                extrinsics_root,
                state_root,
                parent_hash,
                digest,
            }),
    ;

    /// Number of the block.
    fn number(&self) -> (number: &Self::Number)
        ensures
            *number == self.fields().number,
    ;

    /// Replaces the number, and nothing else.
    fn set_number(&mut self, number: Self::Number)
        ensures
            final(self).fields() == (HeaderFields { number, ..old(self).fields() }),
    ;

    /// Root of the trie of the block's extrinsics.
    fn extrinsics_root(&self) -> (root: &Self::Hash)
        ensures
            *root == self.fields().extrinsics_root,
    ;

    /// Replaces the extrinsics root, and nothing else.
    fn set_extrinsics_root(&mut self, root: Self::Hash)
        ensures
            final(self).fields() == (HeaderFields { extrinsics_root: root, ..old(self).fields() }),
    ;

    /// Root of the state trie after the block.
    fn state_root(&self) -> (root: &Self::Hash)
        ensures
            *root == self.fields().state_root,
    ;

    /// Replaces the state root, and nothing else.
    fn set_state_root(&mut self, root: Self::Hash)
        ensures
            final(self).fields() == (HeaderFields { state_root: root, ..old(self).fields() }),
    ;

    /// Hash of the parent block's header.
    fn parent_hash(&self) -> (hash: &Self::Hash)
        ensures
            *hash == self.fields().parent_hash,
    ;

    /// Replaces the parent hash, and nothing else.
    fn set_parent_hash(&mut self, hash: Self::Hash)
        ensures
            final(self).fields() == (HeaderFields { parent_hash: hash, ..old(self).fields() }),
    ;

    /// Log items of the block.
    fn digest(&self) -> (digest: &Self::Digest)
        ensures
            *digest == self.fields().digest,
    ;

    /// Replaces the digest, and nothing else.
    fn set_digest(&mut self, digest: Self::Digest)
        ensures
            final(self).fields() == (HeaderFields { digest, ..old(self).fields() }),
    ;

    /// The hash of the header: the hash of its canonical encoding.
    fn hash(&self) -> (h: Self::Hash)
        ensures
            h == <Self::Hashing as Hashing>::spec_hash(self.encoding()),
    {
        <Self::Hashing as Hashing>::hash_of(self)
    }
}

/// The hash of a header: what its hashing scheme gives for its canonical encoding.
pub open spec fn header_hash<H: Header>(header: H) -> H::Hash {
    <H::Hashing as Hashing>::spec_hash(header.encoding())
}

/// A block: a header and the extrinsics that the block carries.
pub trait Block: Clone + Send + Sync + Encode + Eq + MaybeSerializeDebug {
    /// A piece of information from outside the chain that the block carries.
    type Extrinsic: Member + Encode;

    /// Headers.
    type Header: Header<Hash = Self::Hash>;

    /// Hashes.
    type Hash: Member + Copy + MaybeDisplay + Default + SimpleBitOps;

    /// The header of the block.
    spec fn spec_header(&self) -> Self::Header;

    /// The extrinsics of the block, in order.
    spec fn spec_extrinsics(&self) -> List<Self::Extrinsic>;

    /// The header of the block.
    fn header(&self) -> (header: &Self::Header)
        ensures
            *header == self.spec_header(),
    ;

    /// The extrinsics of the block, in order.
    fn extrinsics(&self) -> (extrinsics: &[Self::Extrinsic])
        ensures
            extrinsics@ == self.spec_extrinsics(),
    ;

    /// Takes the block apart into its header and its extrinsics.
    fn deconstruct(self) -> (parts: (Self::Header, Vec<Self::Extrinsic>))
        ensures
            parts.0 == self.spec_header(),
            parts.1@ == self.spec_extrinsics(),
    ;

    /// Creates the block of the given header and extrinsics.
    fn new(header: Self::Header, extrinsics: Vec<Self::Extrinsic>) -> (block: Self)
        ensures
            block.spec_header() == header,
            block.spec_extrinsics() == extrinsics@,
    ;

    /// The hash of the block: the hash of its header.
    fn hash(&self) -> (h: Self::Hash)
        ensures
            h == <<Self::Header as Header>::Hashing as Hashing>::spec_hash(
                self.spec_header().encoding(),
            ),
    {
        <<Self::Header as Header>::Hashing as Hashing>::hash_of(self.header())
    }
}

/// The hashing scheme of a block type.
pub type HashingFor<B> = <<B as Block>::Header as Header>::Hashing;

/// A piece of information that an executive checks before it acts on it, usually by
/// verifying a signature, with the help of a lookup from addresses to accounts.
pub trait Checkable: Sized + Send + Sync {
    /// Addresses of senders.
    type Address: Member + MaybeDisplay;

    /// Accounts that addresses resolve to.
    type AccountId: Member + MaybeDisplay;

    /// The information once checked.
    type Checked: Member;

    /// The address of the sender.
    fn sender(&self) -> &Self::Address;

    /// Whether `checked` is an outcome of checking this piece of information.
    spec fn checks_to(self, checked: Result<Self::Checked, &'static str>) -> bool;

    /// Checks the information, resolving addresses by `lookup`.
    fn check<ThisLookup: FnOnce(Self::Address) -> Result<Self::AccountId, &'static str> + Send + Sync>(
        self,
        lookup: ThisLookup,
    ) -> (checked: Result<Self::Checked, &'static str>)
        ensures
            self.checks_to(checked),
    ;
}

/// A piece of information that an executive checks before it acts on it, with no lookup
/// from addresses to accounts.
pub trait BlindCheckable: Sized + Send + Sync {
    /// Addresses of senders.
    type Address: Member + MaybeDisplay;

    /// The information once checked.
    type Checked: Member;

    /// The address of the sender.
    fn sender(&self) -> &Self::Address;

    /// Checks the information.
    fn check(self) -> Result<Self::Checked, &'static str>;
}

impl<T: BlindCheckable> Checkable for T {
    type Address = <Self as BlindCheckable>::Address;

    type AccountId = <Self as BlindCheckable>::Address;

    type Checked = <Self as BlindCheckable>::Checked;

    /// The outcomes of the check are those of the blind check.
    open spec fn checks_to(self, checked: Result<Self::Checked, &'static str>) -> bool {
        call_ensures(<T as BlindCheckable>::check, (self,), checked)
    }

    /// The sender is the one that the blind check knows.
    fn sender(&self) -> (address: &Self::Address)
        ensures
            call_ensures(<T as BlindCheckable>::sender, (self,), address),
    {
        BlindCheckable::sender(self)
    }

    /// The check is the blind one: the lookup is not consulted.
    fn check<ThisLookup: FnOnce(Self::Address) -> Result<Self::AccountId, &'static str> + Send + Sync>(
        self,
        lookup: ThisLookup,
    ) -> (checked: Result<Self::Checked, &'static str>) {
        BlindCheckable::check(self)
    }
}

/// A piece of information that an executive enacts by dispatching it to a named
/// function, attributable to a sender and told apart by an index.
pub trait Applyable: Sized + Send + Sync {
    /// Accounts of senders.
    type AccountId: Member + MaybeDisplay;

    /// Indices that tell the pieces of one sender apart.
    type Index: Member + MaybeDisplay;

    /// The index of this piece among those of its sender.
    fn index(&self) -> &Self::Index;

    /// The account of the sender.
    fn sender(&self) -> &Self::AccountId;

    /// Enacts the information.
    fn apply(self) -> Result<(), &'static str>;
}

} // verus!
