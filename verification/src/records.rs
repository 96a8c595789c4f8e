//! The investment record model: identifiers, status sub-records, and the
//! record type itself, together with the identifier-equality predicates the
//! reducer is built on.

use vstd::prelude::*;

verus! {

/// A persisted record's identifier: the table it lives in and its key within
/// that table. A record that has not been persisted yet carries no identifier.
#[derive(Debug, PartialEq)]
pub struct RecordId {
    pub tb: String,
    pub key: String,
}

/// Identifier equality, by the character content of both parts.
pub open spec fn rid_eq(a: RecordId, b: RecordId) -> bool {
    a.tb@ == b.tb@ && a.key@ == b.key@
}

/// Equality of optional identifiers as the reducer's edit action uses it:
/// two absent identifiers also count as equal.
pub open spec fn opt_id_eq(a: Option<RecordId>, b: Option<RecordId>) -> bool {
    match (a, b) {
        (Option::Some(x), Option::Some(y)) => rid_eq(x, y),
        (Option::None, Option::None) => true,
        _ => false,
    }
}

/// A status sub-record marking a record "renewed" or "closed"; the identifier
/// is a soft reference to the counterpart record of a renewal.
#[derive(Debug, PartialEq)]
pub struct InvStatus {
    pub id: Option<RecordId>,
    pub status: String,
}

/// One tracked financial position.
#[derive(Debug, PartialEq)]
pub struct Investment {
    pub id: Option<RecordId>,
    pub inv_name: String,
    pub inv_type: String,
    pub return_rate: i32,
    pub return_type: String,
    pub inv_amount: i32,
    pub return_amount: i32,
    pub name: String,
    pub inv_status: Option<InvStatus>,
    pub start_date: Option<i64>,
    pub end_date: Option<i64>,
    pub created_at: Option<i64>,
    pub updated_at: Option<i64>,
}

/// The acknowledgment a delete call returns: the identifier of the record
/// that was removed.
#[derive(Debug, PartialEq)]
pub struct Record {
    pub id: RecordId,
}

/// Whether `inv` is persisted under exactly the identifier `id`.
pub open spec fn has_id(inv: Investment, id: RecordId) -> bool {
    match inv.id {
        Option::Some(x) => rid_eq(x, id),
        Option::None => false,
    }
}

impl RecordId {
    /// Executable identifier equality, matching `rid_eq`.
    pub fn eq_id(&self, other: &RecordId) -> (r: bool)
        ensures
            r == rid_eq(*self, *other),
    {
        crate::text::str_eq(self.tb.as_str(), other.tb.as_str()) && crate::text::str_eq(
            self.key.as_str(),
            other.key.as_str(),
        )
    }
}

/// Executable equality of optional identifiers, matching `opt_id_eq`.
pub fn opt_id_eq_exec(a: &Option<RecordId>, b: &Option<RecordId>) -> (r: bool)
    ensures
        r == opt_id_eq(*a, *b),
{
    match (a, b) {
        (Option::Some(x), Option::Some(y)) => x.eq_id(y),
        (Option::None, Option::None) => true,
        _ => false,
    }
}

/// Executable form of `has_id`.
pub fn has_id_exec(inv: &Investment, id: &RecordId) -> (r: bool)
    ensures
        r == has_id(*inv, *id),
{
    match &inv.id {
        Option::Some(x) => x.eq_id(id),
        Option::None => false,
    }
}

impl Investment {
    /// The record a create form opens with: nothing filled in, nothing
    /// persisted.
    pub fn blank() -> (r: Investment)
        ensures
            r.id is None,
            r.inv_name@.len() == 0,
            r.inv_type@.len() == 0,
            r.return_rate == 0,
            r.return_type@.len() == 0,
            r.inv_amount == 0,
            r.return_amount == 0,
            r.name@.len() == 0,
            r.inv_status is None,
            r.start_date is None,
            r.end_date is None,
            r.created_at is None,
            r.updated_at is None,
    {
        Investment {
            id: Option::None,
            inv_name: String::new(),
            inv_type: String::new(),
            return_rate: 0,
            return_type: String::new(),
            inv_amount: 0,
            return_amount: 0,
            name: String::new(),
            inv_status: Option::None,
            start_date: Option::None,
            end_date: Option::None,
            created_at: Option::None,
            updated_at: Option::None,
        }
    }
}

impl Clone for RecordId {
    /// An exact copy.
    fn clone(&self) -> (res: RecordId)
        ensures
            res == *self,
    {
        RecordId { tb: self.tb.clone(), key: self.key.clone() }
    }
}

impl Clone for InvStatus {
    /// An exact copy.
    fn clone(&self) -> (res: InvStatus)
        ensures
            res == *self,
    {
        InvStatus { id: clone_opt_id(&self.id), status: self.status.clone() }
    }
}

/// An exact copy of an optional identifier.
pub fn clone_opt_id(id: &Option<RecordId>) -> (r: Option<RecordId>)
    ensures
        r == *id,
{
    match id {
        Option::Some(x) => Option::Some(x.clone()),
        Option::None => Option::None,
    }
}

/// An exact copy of an optional status sub-record.
pub fn clone_opt_status(st: &Option<InvStatus>) -> (r: Option<InvStatus>)
    ensures
        r == *st,
{
    match st {
        Option::Some(x) => Option::Some(x.clone()),
        Option::None => Option::None,
    }
}

impl Clone for Investment {
    /// An exact copy.
    fn clone(&self) -> (res: Investment)
        ensures
            res == *self,
    {
        Investment {
            id: clone_opt_id(&self.id),
            inv_name: self.inv_name.clone(),
            inv_type: self.inv_type.clone(),
            return_rate: self.return_rate,
            return_type: self.return_type.clone(),
            inv_amount: self.inv_amount,
            return_amount: self.return_amount,
            name: self.name.clone(),
            inv_status: clone_opt_status(&self.inv_status),
            start_date: self.start_date,
            end_date: self.end_date,
            created_at: self.created_at,
            updated_at: self.updated_at,
        }
    }
}

/// Relies on chrono's Utc::now and DateTime::timestamp_millis: the current
/// time as milliseconds since the Unix epoch. Nothing is promised of the
/// value: it depends on the system clock.
#[verifier::external_body]
fn now_millis() -> i64 {
    chrono::Utc::now().timestamp_millis()
}

/// Stamps a record for creation, as the persistence layer does before
/// inserting it: any client-supplied identifier is discarded and both server
/// timestamps are set to the same current instant.
pub fn prepare_for_create(inv: &mut Investment)
    ensures
        final(inv).id is None,
        final(inv).created_at is Some,
        final(inv).updated_at == final(inv).created_at,
        *final(inv) == (Investment {
            id: Option::None,
            created_at: final(inv).created_at,
            updated_at: final(inv).updated_at,
            ..*old(inv)
        }),
{
    inv.id = Option::None;
    let now = now_millis();
    inv.created_at = Option::Some(now);
    inv.updated_at = Option::Some(now);
}

/// The identifier a full-record update must address: the record's own, or
/// the update is refused, exactly as the persistence layer refuses it.
pub fn update_target(inv: &Investment) -> (r: Result<RecordId, String>)
    ensures
        match inv.id {
            Option::Some(id) => r matches Ok(t) && t == id,
            Option::None => r matches Err(m) && m@ == "Failed to update record"@,
        },
{
    match &inv.id {
        Option::Some(id) => Result::Ok(id.clone()),
        Option::None => Result::Err("Failed to update record".to_owned()),
    }
}

/// `id` splits `s` at its first colon: the table name before it, the key
/// after it.
pub open spec fn split_at_colon(s: Seq<char>, i: int, id: RecordId) -> bool {
    &&& 0 <= i < s.len()
    &&& s[i] == ':'
    &&& forall|k: int| 0 <= k < i ==> s[k] != ':'
    &&& id.tb@ == s.subrange(0, i)
    &&& id.key@ == s.subrange(i + 1, s.len() as int)
}

/// Reads a record identifier written as one string, the table name and the
/// key separated by the first colon; a string without a colon is refused.
#[verifier::loop_isolation(false)]
pub fn parse_record_key(s: &str) -> (r: Option<RecordId>)
    ensures
        r is Some ==> exists|i: int| #[trigger] split_at_colon(s@, i, r->Some_0),
        r is None ==> forall|k: int| 0 <= k < s@.len() ==> s@[k] != ':',
{
    let n: usize = s.unicode_len();
    let mut i: usize = 0;
    while i < n
        invariant
            i <= n,
            forall|k: int| 0 <= k < i ==> s@[k] != ':',
        decreases n - i,
    {
        if s.get_char(i) == ':' {
            let tb = s.substring_char(0, i).to_owned();
            let key = s.substring_char(i + 1, n).to_owned();
            let id = RecordId { tb, key };
            let r_out = Option::Some(id);
            proof {
                assert(split_at_colon(s@, i as int, r_out->Some_0));
                assert(exists|j: int| #[trigger] split_at_colon(s@, j, r_out->Some_0));
            }
            return r_out;
        }
        i = i + 1;
    }
    Option::None
}

} // verus!
