use vstd::prelude::*;

verus! {

/// The S3 error code for a bucket that the caller already owns.
pub open spec fn owned_code() -> Seq<char> {
    "BucketAlreadyOwnedByYou"@
}

/// The S3 error code for a bucket name that is already taken.
pub open spec fn exists_code() -> Seq<char> {
    "BucketAlreadyExists"@
}

/// Whether a failed bucket creation, answered with the S3 error `code`, still
/// leaves the bucket in place, so that ensuring the bucket succeeds.
pub fn bucket_creation_settles(code: &str) -> (r: bool)
    ensures
        r == (code@ == owned_code() || code@ == exists_code()),
{
    proof {
        reveal_strlit("BucketAlreadyOwnedByYou");
        reveal_strlit("BucketAlreadyExists");
    }
    let given: String = code.to_owned();
    let owned: String = "BucketAlreadyOwnedByYou".to_owned();
    let exists: String = "BucketAlreadyExists".to_owned();
    given == owned || given == exists
}

} // verus!
