//! The workspace routes' value types and decision logic: payload
//! validation, the columns an update writes, and the row-count outcomes of
//! updates and deletions.

use vstd::prelude::*;
use vstd::pervasive::unreached;
use vstd::string::StringExecFns;
use vstd::string::StringSliceAdditionalSpecFns;
use vstd::utf8::encode_utf8;

use crate::digits::format_i32;
use crate::digits::format_u64;
use crate::digits::spec_int_decimal;
use crate::responses::spec_len_error_message;
use crate::responses::ErrorResponse;
use crate::status::Status;

verus! {

/// A workspace-creation payload.
pub struct NewWorkspace {
    pub title: String,
    pub description: Option<String>,
}

/// The answer to a successful workspace creation.
pub struct InsertedWorkspace {
    pub id: i32,
    pub title: String,
    pub description: Option<String>,
}

/// A workspace-update payload; at least the title must be given.
pub struct ModifiedWorkspaceData {
    pub title: Option<String>,
    pub description: Option<String>,
}

/// The answer to a successful workspace update.
pub struct SavedModifiedWorkspace {
    pub id: i32,
    pub title: String,
    pub description: Option<String>,
}

/// A row of the workspace listing.
pub struct FoundWorkspace {
    pub id: i32,
    pub title: String,
    pub description: Option<String>,
}

/// Accepts an input whose byte length lies between the two bounds, and
/// otherwise answers a 400 naming the property and the bounds.
pub fn validate_len(input: &String, min_len: usize, max_len: usize, property: &str) -> (r: Option<
    ErrorResponse,
>)
    ensures
        r is None <==> min_len <= encode_utf8(input@).len() <= max_len,
        r is Some ==> r->Some_0.status == Status::BadRequest && r->Some_0.body.error@
            == spec_len_error_message(property@, min_len as int, max_len as int),
{
    let n = input.as_str().as_bytes().len();
    if n < min_len || n > max_len {
        let mut message = property.to_owned();
        message.append(" length must be between ");
        let min_str = format_u64(min_len as u64);
        message.append(min_str.as_str());
        message.append(" and ");
        let max_str = format_u64(max_len as u64);
        message.append(max_str.as_str());
        message.append(" characters");
        proof {
            assert(message@ =~= spec_len_error_message(property@, min_len as int, max_len as int));
        }
        return Some(ErrorResponse::new(Some(message), Status::BadRequest));
    }
    None
}

/// The 404 answering a request naming a workspace that does not exist (or
/// belongs to another user, which must look the same).
pub fn workspace_not_found_error(workspace_id: i32) -> (r: ErrorResponse)
    ensures
        r.status == Status::NotFound,
        r.body.error@ == "Workspace with id "@ + spec_int_decimal(workspace_id as int)
            + " does not exist"@,
{
    let mut message = "Workspace with id ".to_owned();
    let id_str = format_i32(workspace_id);
    message.append(id_str.as_str());
    message.append(" does not exist");
    proof {
        assert(message@ =~= "Workspace with id "@ + spec_int_decimal(workspace_id as int)
            + " does not exist"@);
    }
    ErrorResponse::new(Some(message), Status::NotFound)
}

/// Validates a workspace-creation payload: a description, when given, must
/// hold between 1 and 255 bytes.
pub fn validate_new_workspace(data: &NewWorkspace) -> (r: Option<ErrorResponse>)
    ensures
        r is None <==> (data.description is Some ==> 1 <= encode_utf8(
            data.description->Some_0@,
        ).len() <= 255),
        r is Some ==> r->Some_0.status == Status::BadRequest && r->Some_0.body.error@
            == "Description length must be between 255 and 1 characters"@,
{
    match &data.description {
        Some(desc) => {
            let n = desc.as_str().as_bytes().len();
            if n > 255 || n < 1 {
                return Some(
                    ErrorResponse::new(
                        Some("Description length must be between 255 and 1 characters".to_owned()),
                        Status::BadRequest,
                    ),
                );
            }
            None
        },
        None => None,
    }
}

/// The columns a workspace update writes: the new title, and for the
/// description either nothing (`None`), a new value, or — for an empty
/// input — clearing the stored value (`Some(None)`).
#[derive(Debug)]
pub struct WorkspaceUpdate {
    pub title: String,
    pub description: Option<Option<String>>,
}

/// Validates a workspace-update payload and determines the columns to
/// write: at least one field must be given, the title must hold 1 to 50
/// bytes, the description at most 255, and an empty description clears the
/// stored one.
pub fn validate_workspace_update(data: &ModifiedWorkspaceData) -> (r: Result<
    WorkspaceUpdate,
    ErrorResponse,
>)
    requires
        data.title is Some || data.description is None,
    ensures
        ({
            let none_given = data.title is None && data.description is None;
            let title_bad = data.title is Some && !(1 <= encode_utf8(
                data.title->Some_0@,
            ).len() <= 50);
            let desc_bad = data.description is Some && !(encode_utf8(
                data.description->Some_0@,
            ).len() <= 255);
            &&& (r is Ok <==> !none_given && !title_bad && !desc_bad)
            &&& (none_given ==> r is Err && r->Err_0.status == Status::BadRequest
                && r->Err_0.body.error@ == "Either title or description has to be provided"@)
            &&& (!none_given && title_bad ==> r is Err && r->Err_0.status == Status::BadRequest
                && r->Err_0.body.error@ == spec_len_error_message("Title"@, 1, 50))
            &&& (!none_given && !title_bad && desc_bad ==> r is Err && r->Err_0.status
                == Status::BadRequest && r->Err_0.body.error@ == spec_len_error_message(
                "Description"@,
                0,
                255,
            ))
            &&& (r is Ok ==> ({
                let cols = r->Ok_0;
                &&& cols.title@ == data.title->Some_0@
                &&& cols.description == (match data.description {
                    None => None::<Option<String>>,
                    Some(d) => if d@.len() > 0 {
                        Some(Some(d))
                    } else {
                        Some(None)
                    },
                })
            }))
        }),
{
    if data.title.is_none() && data.description.is_none() {
        return Err(
            ErrorResponse::new(
                Some("Either title or description has to be provided".to_owned()),
                Status::BadRequest,
            ),
        );
    }
    let title = match &data.title {
        Some(t) => t.clone(),
        None => unreached(),
    };
    if let Some(err) = validate_len(&title, 1, 50, "Title") {
        return Err(err);
    }
    let description = match &data.description {
        None => None,
        Some(desc) => {
            if let Some(err) = validate_len(desc, 0, 255, "Description") {
                return Err(err);
            }
            if desc.as_str().unicode_len() > 0 {
                Some(Some(desc.clone()))
            } else {
                Some(None)
            }
        },
    };
    Ok(WorkspaceUpdate { title, description })
}

/// The outcome of a workspace update: no row touched means the workspace
/// does not exist, one row touched echoes the written values back.
pub fn workspace_update_outcome(
    rows_affected: u64,
    workspace_id: i32,
    data: &ModifiedWorkspaceData,
) -> (r: Result<SavedModifiedWorkspace, ErrorResponse>)
    requires
        data.title is Some,
    ensures
        r is Ok <==> rows_affected != 0,
        r is Ok ==> r->Ok_0.id == workspace_id && r->Ok_0.title@ == data.title->Some_0@
            && (match (r->Ok_0.description, data.description) {
            (None, None) => true,
            (Some(a), Some(b)) => a@ == b@,
            _ => false,
        }),
        r is Err ==> r->Err_0.status == Status::NotFound && r->Err_0.body.error@
            == "Workspace with id "@ + spec_int_decimal(workspace_id as int) + " does not exist"@,
{
    if rows_affected == 0 {
        return Err(workspace_not_found_error(workspace_id));
    }
    let title = match &data.title {
        Some(t) => t.clone(),
        None => unreached(),
    };
    Ok(
        SavedModifiedWorkspace {
            id: workspace_id,
            title,
            description: match &data.description {
                Some(d) => Some(d.clone()),
                None => None,
            },
        },
    )
}

/// The outcome of a workspace deletion: no row touched means the workspace
/// does not exist.
pub fn workspace_delete_outcome(rows_affected: u64, workspace_id: i32) -> (r: Result<
    (),
    ErrorResponse,
>)
    ensures
        r is Ok <==> rows_affected != 0,
        r is Err ==> r->Err_0.status == Status::NotFound && r->Err_0.body.error@
            == "Workspace with id "@ + spec_int_decimal(workspace_id as int) + " does not exist"@,
{
    if rows_affected == 0 {
        Err(workspace_not_found_error(workspace_id))
    } else {
        Ok(())
    }
}

} // verus!
