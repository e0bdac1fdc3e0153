//! The task-group routes' value types and decision logic.

use vstd::prelude::*;
use vstd::string::StringExecFns;

use crate::digits::format_i32;
use crate::digits::spec_int_decimal;
use crate::responses::ErrorResponse;
use crate::status::Status;

verus! {

/// A task-group-creation payload.
pub struct NewTaskGroup {
    pub workspace_id: i32,
    pub title: String,
}

/// The answer to a successful task-group creation.
pub struct InsertedTaskGroup {
    pub title: String,
}

/// A task-group-update payload.
pub struct ModifiedTaskGroupData {
    pub title: String,
}

/// The 404 answering an update or delete of a task group that does not
/// exist (or belongs to another user, which must look the same).
pub fn task_group_not_found_error(task_group_id: i32) -> (r: ErrorResponse)
    ensures
        r.status == Status::NotFound,
        r.body.error@ == "Task group with id "@ + spec_int_decimal(task_group_id as int)
            + " does not exist"@,
{
    let mut message = "Task group with id ".to_owned();
    let id_str = format_i32(task_group_id);
    message.append(id_str.as_str());
    message.append(" does not exist");
    proof {
        assert(message@ =~= "Task group with id "@ + spec_int_decimal(task_group_id as int)
            + " does not exist"@);
    }
    ErrorResponse::new(Some(message), Status::NotFound)
}

/// The outcome of a task-group deletion: no row touched means the task
/// group does not exist.
pub fn task_group_delete_outcome(rows_affected: u64, task_group_id: i32) -> (r: Result<
    (),
    ErrorResponse,
>)
    ensures
        r is Ok <==> rows_affected != 0,
        r is Err ==> r->Err_0.status == Status::NotFound && r->Err_0.body.error@
            == "Task group with id "@ + spec_int_decimal(task_group_id as int)
            + " does not exist"@,
{
    if rows_affected == 0 {
        Err(task_group_not_found_error(task_group_id))
    } else {
        Ok(())
    }
}

} // verus!
