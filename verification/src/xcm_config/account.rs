//! Local accounts, and the account that stands for a location.
use crate::xcm_config::location::{
    location_of, location_view_is_injective, LocationView, MultiLocation,
};
use parity_scale_codec::Encode;
use staging_xcm::v3::MultiLocation as OutsideLocation;
use vstd::prelude::*;

verus! {

/// An account of this chain: twenty bytes, as an Ethereum address.
#[derive(Clone, Copy, Debug, PartialEq, Eq)]
pub struct AccountId20(pub [u8; 20]);

/// The SCALE encoding of a tag followed by a location.
pub uninterp spec fn tagged_encoding(tag: Seq<char>, location: LocationView) -> Seq<u8>;

/// The 256-bit BLAKE2b digest of a byte string.
pub uninterp spec fn blake2_256_of(data: Seq<u8>) -> Seq<u8>;

/// `parity_scale_codec::Encode::encode` of the pair of a tag and a location. The encoding is
/// given a name; that it depends on the tag and on what the location holds alone is what is
/// claimed of it.
#[verifier::external_body]
fn encode_tagged(tag: &str, location: &OutsideLocation) -> (r: Vec<u8>)
    ensures
        r@ == tagged_encoding(tag@, location_of(*location)),
{
    (tag, location).encode()
}

/// `sp_io::hashing::blake2_256`. The digest is given a name; that it depends on the data alone
/// is what is claimed of it.
#[verifier::external_body]
fn blake2_256(data: &[u8]) -> (r: [u8; 32])
    ensures
        r@ == blake2_256_of(data@),
{
    sp_io::hashing::blake2_256(data)
}

/// Turns a location into an account by hashing it with BLAKE2 and keeping the first twenty
/// bytes of the digest.
pub struct Account20Hash;

impl Account20Hash {
    /// The digest from which the account of a location is cut.
    pub open spec fn digest_of(location: LocationView) -> Seq<u8> {
        blake2_256_of(tagged_encoding("multiloc"@, location))
    }

    /// The account that is cut from a digest: its first twenty bytes.
    pub fn account_of_digest(digest: [u8; 32]) -> (r: AccountId20)
        ensures
            r.0@ == digest@.take(20),
    {
        let mut account: [u8; 20] = [0u8; 20];
        let mut i: usize = 0;
        while i < 20
            invariant
                i <= 20,
                forall|j: int| 0 <= j < i ==> account@[j] == digest@[j],
            decreases 20 - i,
        {
            account[i] = digest[i];
            i += 1;
        }
        assert(account@ =~= digest@.take(20));
        AccountId20(account)
    }

    /// The account of a location. Every location has one.
    pub fn convert_ref(location: &MultiLocation) -> (r: Result<AccountId20, ()>)
        ensures
            r matches Ok(account) && account.0@ == Self::digest_of(location@).take(20),
            r matches Ok(account) && account.0@ == blake2_256_of(
                tagged_encoding("multiloc"@, location@),
            ).take(20),
    {
        let encoded = encode_tagged("multiloc", &location.to_outside());
        let digest = blake2_256(encoded.as_slice());
        Ok(Self::account_of_digest(digest))
    }

    /// The location of an account. A digest does not give its input back, so there is none.
    pub fn reverse_ref(_account: &AccountId20) -> (r: Result<MultiLocation, ()>)
        ensures
            r == Err::<MultiLocation, ()>(()),
    {
        Err(())
    }
}

/// What is hashed is the tag and the whole location, with every step of its path, and the account
/// is the first twenty bytes of the digest.
pub proof fn whole_location_is_hashed(location: MultiLocation, r: Result<AccountId20, ()>)
    requires
        call_ensures(Account20Hash::convert_ref, (&location,), r),
    ensures
        r matches Ok(account) && account.0@.len() == 20 && account.0@ == blake2_256_of(
            tagged_encoding(
                "multiloc"@,
                LocationView { parents: location.parents, path: location.interior@ },
            ),
        ).take(20),
{
}

/// Two locations share an account only where the digests of their encodings begin with the same
/// twenty bytes; and different locations never say the same to the encoding.
pub proof fn accounts_are_shared_by_digest_alone(
    a: MultiLocation,
    b: MultiLocation,
    r: Result<AccountId20, ()>,
    s: Result<AccountId20, ()>,
)
    requires
        call_ensures(Account20Hash::convert_ref, (&a,), r),
        call_ensures(Account20Hash::convert_ref, (&b,), s),
    ensures
        r is Ok && s is Ok,
        r == s <==> blake2_256_of(tagged_encoding("multiloc"@, a@)).take(20) == blake2_256_of(
            tagged_encoding("multiloc"@, b@),
        ).take(20),
        a == b ==> r == s,
        a != b ==> a@ != b@,
{
    if r is Ok && s is Ok && r->Ok_0.0@ == s->Ok_0.0@ {
        assert(r->Ok_0.0 =~= s->Ok_0.0);
    }
    if a@ == b@ {
        location_view_is_injective(a, b);
    }
}

/// The account that is cut from a digest has the bytes of the digest, place by place.
pub proof fn account_begins_the_digest(digest: [u8; 32], r: AccountId20, i: int)
    requires
        call_ensures(Account20Hash::account_of_digest, (digest,), r),
        0 <= i < 20,
    ensures
        r.0@.len() == 20,
        r.0@[i] == digest@[i],
{
}

/// No account leads back to a location.
pub proof fn accounts_have_no_location(account: AccountId20, r: Result<MultiLocation, ()>)
    requires
        call_ensures(Account20Hash::reverse_ref, (&account,), r),
    ensures
        r is Err,
{
}

} // verus!
