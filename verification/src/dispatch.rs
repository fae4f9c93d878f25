//! Operation Dispatcher: maps each logical operation onto exactly one query
//! and the transaction mode it must run under. Every read operation runs in a
//! read transaction that may be discarded uncommitted; every create operation
//! runs in a write transaction that is committed only after its result stream
//! has been drained without error — performing the round trips is the
//! caller's part, deciding the query and the mode is this one's.

use vstd::prelude::*;

use crate::encode::{encodable, EncodingError};
use crate::query::{
    create_group_query, create_organization_query, create_user_query, group_encodable,
    location_query, organization_encodable, page_list_query, page_query, posts_query,
    spec_comments_query, spec_create_group_query, spec_create_organization_query,
    spec_create_user_query, spec_location_query, spec_page_list_query, spec_page_query,
    spec_posts_query, user_encodable, comments_query, CreateGroupPayload,
    CreateOrganizationPayload, CreateUserPayload,
};

verus! {

/// The mode a transaction is opened with.
#[derive(Clone, Copy, Debug, PartialEq, Eq, Structural)]
pub enum TransactionMode {
    Read,
    Write,
}

/// One logical operation of the gateway.
pub enum Operation {
    ListPages,
    PagesNearPlace { place_id: String },
    GetProfile { id: String },
    ListPostsForPage { page_id: String },
    ListCommentsForPost { post_id: String },
    CreatePerson { payload: CreateUserPayload },
    CreateGroup { payload: CreateGroupPayload },
    CreateOrganization { payload: CreateOrganizationPayload },
}

/// The query and transaction mode one operation resolves to.
pub struct PlannedRequest {
    pub query: String,
    pub mode: TransactionMode,
}

/// A create operation writes; every other operation only reads.
pub open spec fn is_write_op(op: Operation) -> bool {
    match op {
        Operation::CreatePerson { .. } => true,
        Operation::CreateGroup { .. } => true,
        Operation::CreateOrganization { .. } => true,
        _ => false,
    }
}

/// The exact query text each operation resolves to.
pub open spec fn spec_op_query(op: Operation) -> Seq<char> {
    match op {
        Operation::ListPages => spec_page_list_query(),
        Operation::PagesNearPlace { place_id } => spec_location_query(place_id@),
        Operation::GetProfile { id } => spec_page_query(id@),
        Operation::ListPostsForPage { page_id } => spec_posts_query(page_id@),
        Operation::ListCommentsForPost { post_id } => spec_comments_query(post_id@),
        Operation::CreatePerson { payload } => spec_create_user_query(payload@),
        Operation::CreateGroup { payload } => spec_create_group_query(payload@),
        Operation::CreateOrganization { payload } => spec_create_organization_query(payload@),
    }
}

/// Every caller-supplied string of the operation can be encoded.
pub open spec fn op_encodable(op: Operation) -> bool {
    match op {
        Operation::ListPages => true,
        Operation::PagesNearPlace { place_id } => encodable(place_id@),
        Operation::GetProfile { id } => encodable(id@),
        Operation::ListPostsForPage { page_id } => encodable(page_id@),
        Operation::ListCommentsForPost { post_id } => encodable(post_id@),
        Operation::CreatePerson { payload } => user_encodable(payload@),
        Operation::CreateGroup { payload } => group_encodable(payload@),
        Operation::CreateOrganization { payload } => organization_encodable(payload@),
    }
}

/// Resolves one operation to exactly one (query, transaction mode) pair, or
/// fails with the Value Encoder's error without building any query.
pub fn plan_operation(op: Operation) -> (r: Result<PlannedRequest, EncodingError>)
    ensures
        r matches Ok(pr) ==> pr.query@ == spec_op_query(op),
        r matches Ok(pr) ==> (pr.mode is Write <==> is_write_op(op)),
        r is Ok <==> op_encodable(op),
{
    match op {
        Operation::ListPages => Ok(
            PlannedRequest { query: page_list_query(), mode: TransactionMode::Read },
        ),
        Operation::PagesNearPlace { place_id } => {
            let query = location_query(place_id.as_str())?;
            Ok(PlannedRequest { query, mode: TransactionMode::Read })
        },
        Operation::GetProfile { id } => {
            let query = page_query(id.as_str())?;
            Ok(PlannedRequest { query, mode: TransactionMode::Read })
        },
        Operation::ListPostsForPage { page_id } => {
            let query = posts_query(page_id.as_str())?;
            Ok(PlannedRequest { query, mode: TransactionMode::Read })
        },
        Operation::ListCommentsForPost { post_id } => {
            let query = comments_query(post_id.as_str())?;
            Ok(PlannedRequest { query, mode: TransactionMode::Read })
        },
        Operation::CreatePerson { payload } => {
            let query = create_user_query(payload)?;
            Ok(PlannedRequest { query, mode: TransactionMode::Write })
        },
        Operation::CreateGroup { payload } => {
            let query = create_group_query(payload)?;
            Ok(PlannedRequest { query, mode: TransactionMode::Write })
        },
        Operation::CreateOrganization { payload } => {
            let query = create_organization_query(payload)?;
            Ok(PlannedRequest { query, mode: TransactionMode::Write })
        },
    }
}

/// A planned request must be committed exactly when it writes.
pub fn requires_commit(mode: TransactionMode) -> (r: bool)
    ensures
        r <==> mode is Write,
{
    match mode {
        TransactionMode::Write => true,
        TransactionMode::Read => false,
    }
}

} // verus!
