//! Shared helpers of the versioning protocol and of the authorization
//! validator.

use vstd::prelude::*;

use crate::error::ApiError;
use crate::error::Rejection;
use crate::store::Address;
use crate::store::LinkKind;
use crate::store::Record;
use crate::store::RecordV;
use crate::store::Store;
use crate::store::StoreV;

verus! {

/// The stored length of a title: the number of bytes of its UTF-8 encoding,
/// as the byte counter of the running machine reports it.
pub open spec fn byte_len(s: Seq<char>) -> usize {
    vstd::utf8::encode_utf8(s).len() as usize
}

/// Validates the title of an entity against the allowed length.
pub fn validate_entity_title(title: &str, allowed_length: usize) -> (r: Result<(), ApiError>)
    ensures
        byte_len(title@) > allowed_length ==> r == Err::<(), ApiError>(
            ApiError::ValidationRejected(Rejection::TitleTooLong),
        ),
        byte_len(title@) <= allowed_length ==> r == Ok::<(), ApiError>(()),
{
    if title.len() > allowed_length {
        Err(ApiError::ValidationRejected(Rejection::TitleTooLong))
    } else {
        Ok(())
    }
}

/// Whether the vector holds the given address.
pub fn contains_address(v: &Vec<Address>, a: Address) -> (r: bool)
    ensures
        r == v@.contains(a),
{
    let mut i: usize = 0;
    while i < v.len()
        invariant
            i <= v.len(),
            forall|j: int| 0 <= j < i ==> v@[j] != a,
        decreases v.len() - i,
    {
        if v[i] == a {
            return true;
        }
        i = i + 1;
    }
    false
}

/// Validates that the agent at `teacher_address` is among the signers of
/// the write.
pub fn validate_only_teacher_can_do(
    teacher_address: &Address,
    validation_data_sources: &Vec<Address>,
) -> (r: Result<(), ApiError>)
    ensures
        validation_data_sources@.contains(*teacher_address) ==> r == Ok::<(), ApiError>(()),
        !validation_data_sources@.contains(*teacher_address) ==> r == Err::<(), ApiError>(
            ApiError::Unauthorized,
        ),
{
    if !contains_address(validation_data_sources, *teacher_address) {
        return Err(ApiError::Unauthorized);
    }
    Ok(())
}

/// Validates that an update keeps the owning teacher unchanged: ownership
/// transfer is never permitted after creation.
pub fn validate_no_teacher_change(
    old_teacher_address: Address,
    new_teacher_address: Address,
) -> (r: Result<(), ApiError>)
    ensures
        old_teacher_address != new_teacher_address ==> r == Err::<(), ApiError>(
            ApiError::ImmutableFieldChanged,
        ),
        old_teacher_address == new_teacher_address ==> r == Ok::<(), ApiError>(()),
{
    if old_teacher_address != new_teacher_address {
        return Err(ApiError::ImmutableFieldChanged);
    }
    Ok(())
}

/// What resolving the current data record of an anchor yields.
///
/// A missing anchor means the entity was deleted or never existed: both
/// surface as the empty result. A live anchor must have exactly one
/// current-record link; any other count is a consistency error that is
/// reported, never resolved silently.
pub open spec fn latest_data(
    s: StoreV,
    entry_anchor_address: Address,
    link_type: LinkKind,
) -> Result<Option<(RecordV, Address)>, ApiError> {
    match s.get(entry_anchor_address) {
        None => Ok(None),
        Some(_) => {
            let ts = s.link_targets(entry_anchor_address, link_type);
            if ts.len() != 1 {
                Err(ApiError::CorruptLinkState)
            } else {
                match s.get(ts[0]) {
                    Some(r) => Ok(Some((r, ts[0]))),
                    None => Err(ApiError::NotFound),
                }
            }
        },
    }
}

/// Resolves the current data record linked from the anchor at
/// `entry_anchor_address`.
///
/// Returns the empty result when the anchor itself no longer resolves —
/// entities are deleted by removing only their anchor, so a dead anchor is
/// how a deleted entity looks. For a live anchor, exactly one link of
/// `link_type` must exist; zero or several signal a validation bug or a
/// concurrent-write race and fail as `CorruptLinkState`.
pub fn get_latest_data_entry(
    store: &Store,
    entry_anchor_address: Address,
    link_type: LinkKind,
) -> (r: Result<Option<(Record, Address)>, ApiError>)
    ensures
        ({
            let expected = latest_data(store@, entry_anchor_address, link_type);
            match r {
                Ok(Some((rec, addr))) => expected == Ok::<Option<(RecordV, Address)>, ApiError>(
                    Some((rec@, addr)),
                ),
                Ok(None) => expected == Ok::<Option<(RecordV, Address)>, ApiError>(None),
                Err(e) => expected == Err::<Option<(RecordV, Address)>, ApiError>(e),
            }
        }),
{
    match store.get(entry_anchor_address) {
        None => Ok(None),
        Some(_anchor) => {
            let targets = store.get_links(entry_anchor_address, link_type);
            if targets.len() != 1 {
                Err(ApiError::CorruptLinkState)
            } else {
                let addr = targets[0];
                match store.get(addr) {
                    Some(rec) => Ok(Some((rec.clone(), addr))),
                    None => Err(ApiError::NotFound),
                }
            }
        },
    }
}

/// Copies a vector of addresses element by element.
pub fn clone_addresses(v: &Vec<Address>) -> (r: Vec<Address>)
    ensures
        r@ == v@,
{
    let mut r: Vec<Address> = Vec::new();
    let mut i: usize = 0;
    while i < v.len()
        invariant
            i <= v.len(),
            r@ == v@.take(i as int),
        decreases v.len() - i,
    {
        r.push(v[i]);
        i = i + 1;
        proof {
            assert(r@ =~= v@.take(i as int));
        }
    }
    proof {
        assert(r@ =~= v@);
    }
    r
}

/// Compares two vectors of addresses element by element.
pub fn addresses_eq(a: &Vec<Address>, b: &Vec<Address>) -> (r: bool)
    ensures
        r == (a@ == b@),
{
    if a.len() != b.len() {
        return false;
    }
    let mut i: usize = 0;
    while i < a.len()
        invariant
            i <= a.len(),
            a@.len() == b@.len(),
            forall|j: int| 0 <= j < i ==> a@[j] == b@[j],
        decreases a.len() - i,
    {
        if a[i] != b[i] {
            return false;
        }
        i = i + 1;
    }
    proof {
        assert(a@ =~= b@);
    }
    true
}

} // verus!
