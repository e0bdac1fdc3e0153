//! The task-creation route's value type and decision logic: payload
//! validation and the check that every referenced label exists.

use vstd::prelude::*;
use vstd::string::StringExecFns;
use vstd::utf8::encode_utf8;

use crate::digits::format_i32;
use crate::digits::spec_int_decimal;
use crate::responses::spec_len_error_message;
use crate::responses::validate_len;
use crate::responses::ErrorResponse;
use crate::status::Status;

verus! {

/// A task-creation payload, echoed back on success.
pub struct NewTask {
    pub task_group_id: i32,
    pub title: String,
    pub description: String,
    pub labels_ids: Option<Vec<i32>>,
}

/// The 404 answering a task creation whose task group does not exist (or
/// belongs to another user, which must look the same).
pub fn task_group_missing_error(task_group_id: i32) -> (r: ErrorResponse)
    ensures
        r.status == Status::NotFound,
        r.body.error@ == "Could not create task in task group with id "@ + spec_int_decimal(
            task_group_id as int,
        ) + ", task group does not exist"@,
{
    let mut message = "Could not create task in task group with id ".to_owned();
    let id_str = format_i32(task_group_id);
    message.append(id_str.as_str());
    message.append(", task group does not exist");
    proof {
        assert(message@ =~= "Could not create task in task group with id "@ + spec_int_decimal(
            task_group_id as int,
        ) + ", task group does not exist"@);
    }
    ErrorResponse::new(Some(message), Status::NotFound)
}

/// Validates a task-creation payload: the title's length, then the
/// description's.
pub fn validate_new_task(data: &NewTask) -> (r: Option<ErrorResponse>)
    ensures
        ({
            let title_bad = !(1 <= encode_utf8(data.title@).len() <= 50);
            let desc_bad = !(1 <= encode_utf8(data.description@).len() <= 255);
            &&& (r is None <==> !title_bad && !desc_bad)
            &&& (title_bad ==> r is Some && r->Some_0.status == Status::BadRequest
                && r->Some_0.body.error@ == spec_len_error_message("Title"@, 1, 50))
            &&& (!title_bad && desc_bad ==> r is Some && r->Some_0.status == Status::BadRequest
                && r->Some_0.body.error@ == spec_len_error_message("Description"@, 1, 255))
        }),
{
    if let Some(err) = validate_len(&data.title, 1, 50, "Title") {
        return Some(err);
    }
    if let Some(err) = validate_len(&data.description, 1, 255, "Description") {
        return Some(err);
    }
    None
}

fn contains_i32(v: &Vec<i32>, x: i32) -> (r: bool)
    ensures
        r == v@.contains(x),
{
    let n = v.len();
    let mut i: usize = 0;
    while i < n
        invariant
            0 <= i <= n == v@.len(),
            forall|j: int| 0 <= j < i ==> v@[j] != x,
        decreases n - i,
    {
        if v[i] == x {
            return true;
        }
        i += 1;
    }
    false
}

/// The requested label ids that the storage lookup did not return, in
/// request order.
pub open spec fn spec_missing_ids(requested: Seq<i32>, existing: Seq<i32>) -> Seq<i32>
    decreases requested.len(),
{
    if requested.len() == 0 {
        Seq::<i32>::empty()
    } else {
        spec_missing_ids(requested.drop_last(), existing) + (if existing.contains(
            requested.last(),
        ) {
            Seq::<i32>::empty()
        } else {
            seq![requested.last()]
        })
    }
}

/// Collects the requested label ids that were not found.
pub fn missing_label_ids(requested: &Vec<i32>, existing: &Vec<i32>) -> (r: Vec<i32>)
    ensures
        r@ == spec_missing_ids(requested@, existing@),
{
    let n = requested.len();
    let mut r: Vec<i32> = Vec::new();
    let mut i: usize = 0;
    proof {
        assert(requested@.subrange(0, 0) =~= Seq::<i32>::empty());
    }
    while i < n
        invariant
            0 <= i <= n == requested@.len(),
            r@ == spec_missing_ids(requested@.subrange(0, i as int), existing@),
        decreases n - i,
    {
        proof {
            assert(requested@.subrange(0, i + 1).drop_last() =~= requested@.subrange(0, i as int));
            assert(requested@.subrange(0, i + 1).last() == requested@[i as int]);
        }
        if !contains_i32(existing, requested[i]) {
            r.push(requested[i]);
        }
        i += 1;
    }
    proof {
        assert(requested@.subrange(0, n as int) =~= requested@);
    }
    r
}

/// The ids as the conflict message lists them: each followed by `, `.
pub open spec fn spec_joined_ids(ids: Seq<i32>) -> Seq<char>
    decreases ids.len(),
{
    if ids.len() == 0 {
        Seq::<char>::empty()
    } else {
        spec_joined_ids(ids.drop_last()) + spec_int_decimal(ids.last() as int) + ", "@
    }
}

/// The 409 naming the label ids a task creation referenced but the store
/// does not hold.
pub fn task_labels_error(missing: &Vec<i32>) -> (r: ErrorResponse)
    ensures
        r.status == Status::Conflict,
        r.body.error@ == "Could not create task with labels ids "@ + spec_joined_ids(missing@)
            + "labels do not exist"@,
{
    let mut listed = String::new();
    let n = missing.len();
    let mut i: usize = 0;
    proof {
        assert(missing@.subrange(0, 0) =~= Seq::<i32>::empty());
    }
    while i < n
        invariant
            0 <= i <= n == missing@.len(),
            listed@ == spec_joined_ids(missing@.subrange(0, i as int)),
        decreases n - i,
    {
        proof {
            assert(missing@.subrange(0, i + 1).drop_last() =~= missing@.subrange(0, i as int));
            assert(missing@.subrange(0, i + 1).last() == missing@[i as int]);
        }
        let id_str = format_i32(missing[i]);
        listed.append(id_str.as_str());
        listed.append(", ");
        i += 1;
    }
    proof {
        assert(missing@.subrange(0, n as int) =~= missing@);
    }
    let mut message = "Could not create task with labels ids ".to_owned();
    message.append(listed.as_str());
    message.append("labels do not exist");
    proof {
        assert(message@ =~= "Could not create task with labels ids "@ + spec_joined_ids(missing@)
            + "labels do not exist"@);
    }
    ErrorResponse::new(Some(message), Status::Conflict)
}

} // verus!
