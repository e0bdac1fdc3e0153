//! The label routes' value types and decision logic: color grammar,
//! payload validation, and the error mapping of the storage answers.

use vstd::prelude::*;
use vstd::string::StringExecFns;
use vstd::string::StrSliceExecFns;
use vstd::utf8::encode_utf8;

use crate::digits::format_i32;
use crate::digits::spec_int_decimal;
use crate::responses::spec_len_error_message;
use crate::responses::validate_len;
use crate::responses::ErrorResponse;
use crate::status::spec_reason;
use crate::status::Status;
use crate::strutil::lower_of;
use crate::strutil::to_lowercase;

verus! {

/// A label-creation payload.
pub struct NewLabel {
    pub workspace_id: i32,
    pub color: String,
    pub description: Option<String>,
}

/// The answer to a successful label creation.
pub struct SavedLabel {
    pub workspace_id: i32,
    pub color: String,
    pub description: Option<String>,
    pub id: i32,
}

/// A label-update payload; at least one field must be given.
pub struct LabelDataToUpdate {
    pub description: Option<String>,
    pub color: Option<String>,
}

/// The answer to a successful label update.
pub struct UpdatedLabel {
    pub workspace_id: i32,
    pub description: Option<String>,
    pub color: String,
}

/// A lowercase hex digit.
pub open spec fn is_lower_hex_digit(c: char) -> bool {
    ||| c == '0'
    ||| c == '1'
    ||| c == '2'
    ||| c == '3'
    ||| c == '4'
    ||| c == '5'
    ||| c == '6'
    ||| c == '7'
    ||| c == '8'
    ||| c == '9'
    ||| c == 'a'
    ||| c == 'b'
    ||| c == 'c'
    ||| c == 'd'
    ||| c == 'e'
    ||| c == 'f'
}

/// A valid label color: `#` followed by three or six lowercase hex digits.
pub open spec fn spec_is_valid_label_color(s: Seq<char>) -> bool {
    &&& (s.len() == 4 || s.len() == 7)
    &&& s[0] == '#'
    &&& (forall|i: int| 1 <= i < s.len() ==> is_lower_hex_digit(#[trigger] s[i]))
}

/// The message rejecting a malformed color.
pub open spec fn spec_color_error_message(clr: Seq<char>) -> Seq<char> {
    "Color "@ + clr + " is not a valid hex color (#123abc)"@
}

fn is_lower_hex_digit_exec(c: char) -> (r: bool)
    ensures
        r == is_lower_hex_digit(c),
{
    match c {
        '0' | '1' | '2' | '3' | '4' | '5' | '6' | '7' | '8' | '9' => true,
        'a' | 'b' | 'c' | 'd' | 'e' | 'f' => true,
        _ => false,
    }
}

/// Accepts exactly the colors of the form `#rgb` or `#rrggbb` with
/// lowercase hex digits, and otherwise answers a 422 naming the color.
pub fn validate_label_color(clr: &String) -> (r: Option<ErrorResponse>)
    ensures
        r is None <==> spec_is_valid_label_color(clr@),
        r is Some ==> r->Some_0.status == Status::UnprocessableEntity
            && r->Some_0.body.error@ == spec_color_error_message(clr@),
{
    let s = clr.as_str();
    let len = s.unicode_len();
    let mut well_formed = false;
    if len == 4 || len == 7 {
        if s.get_char(0) == '#' {
            let mut i: usize = 1;
            let mut all_hex = true;
            while i < len
                invariant
                    1 <= i <= len == s@.len(),
                    all_hex ==> forall|j: int| 1 <= j < i ==> is_lower_hex_digit(
                        #[trigger] s@[j],
                    ),
                    !all_hex ==> exists|j: int|
                        1 <= j < i && !is_lower_hex_digit(#[trigger] s@[j]),
                decreases len - i,
            {
                if !is_lower_hex_digit_exec(s.get_char(i)) {
                    all_hex = false;
                }
                i += 1;
            }
            well_formed = all_hex;
        }
    }
    if well_formed {
        None
    } else {
        let mut message = "Color ".to_owned();
        message.append(clr.as_str());
        message.append(" is not a valid hex color (#123abc)");
        proof {
            assert(message@ =~= spec_color_error_message(clr@));
        }
        Some(ErrorResponse::new(Some(message), Status::UnprocessableEntity))
    }
}

/// Validates a label-creation payload: the description's length when one is
/// given, then the lowercased color's grammar.  Yields the lowercased color
/// that is stored and echoed back.
pub fn validate_new_label(data: &NewLabel) -> (r: Result<String, ErrorResponse>)
    ensures
        ({
            let desc_bad = data.description is Some && !(1 <= encode_utf8(
                data.description->Some_0@,
            ).len() <= 30);
            let color_bad = !spec_is_valid_label_color(lower_of(data.color@));
            &&& (r is Ok <==> !desc_bad && !color_bad)
            &&& (r is Ok ==> r->Ok_0@ == lower_of(data.color@))
            &&& (desc_bad ==> r is Err && r->Err_0.status == Status::BadRequest
                && r->Err_0.body.error@ == spec_len_error_message("Description"@, 1, 30))
            &&& (!desc_bad && color_bad ==> r is Err && r->Err_0.status
                == Status::UnprocessableEntity && r->Err_0.body.error@
                == spec_color_error_message(lower_of(data.color@)))
        }),
{
    if let Some(desc) = &data.description {
        if let Some(err) = validate_len(desc, 1, 30, "Description") {
            return Err(err);
        }
    }
    let clr_lowercase = to_lowercase(data.color.as_str());
    if let Some(err) = validate_label_color(&clr_lowercase) {
        return Err(err);
    }
    Ok(clr_lowercase)
}

/// Maps a failed label insert to its answer: a workspace foreign-key
/// violation names the missing workspace with a 400, anything else is the
/// generic internal error.
pub fn label_insert_error(workspace_fk_violation: bool, workspace_id: i32) -> (r: ErrorResponse)
    ensures
        workspace_fk_violation ==> r.status == Status::BadRequest && r.body.error@
            == "Could not create label with workspace id "@ + spec_int_decimal(workspace_id as int)
            + ", workspace does not exist"@,
        !workspace_fk_violation ==> r.status == Status::InternalServerError && r.body.error@
            == spec_reason(Status::InternalServerError),
{
    if workspace_fk_violation {
        let mut message = "Could not create label with workspace id ".to_owned();
        let id_str = format_i32(workspace_id);
        message.append(id_str.as_str());
        message.append(", workspace does not exist");
        proof {
            assert(message@ =~= "Could not create label with workspace id "@ + spec_int_decimal(
                workspace_id as int,
            ) + ", workspace does not exist"@);
        }
        ErrorResponse::new(Some(message), Status::BadRequest)
    } else {
        ErrorResponse::new(None, Status::InternalServerError)
    }
}

/// The 404 answering an update or delete of a label that does not exist
/// (or belongs to another user, which must look the same).
pub fn label_not_found_error(label_id: i32) -> (r: ErrorResponse)
    ensures
        r.status == Status::NotFound,
        r.body.error@ == "Label with id "@ + spec_int_decimal(label_id as int)
            + " does not exist"@,
{
    let mut message = "Label with id ".to_owned();
    let id_str = format_i32(label_id);
    message.append(id_str.as_str());
    message.append(" does not exist");
    proof {
        assert(message@ =~= "Label with id "@ + spec_int_decimal(label_id as int)
            + " does not exist"@);
    }
    ErrorResponse::new(Some(message), Status::NotFound)
}

/// The not-found message of a label deletion.
pub fn label_delete_not_found_message(label_id: i32) -> (r: String)
    ensures
        r@ == "Could not delete label with id "@ + spec_int_decimal(label_id as int)
            + ", label does not exist"@,
{
    let mut message = "Could not delete label with id ".to_owned();
    let id_str = format_i32(label_id);
    message.append(id_str.as_str());
    message.append(", label does not exist");
    proof {
        assert(message@ =~= "Could not delete label with id "@ + spec_int_decimal(
            label_id as int,
        ) + ", label does not exist"@);
    }
    message
}

/// One disjunct of the task filter of a label deletion.
pub open spec fn spec_task_group_condition(id: int) -> Seq<char> {
    "\"task\".\"task_group_id\" = "@ + spec_int_decimal(id)
}

/// The task filter's disjuncts joined with ` OR `.
pub open spec fn spec_joined_conditions(ids: Seq<i32>) -> Seq<char>
    decreases ids.len(),
{
    if ids.len() == 0 {
        Seq::<char>::empty()
    } else if ids.len() == 1 {
        spec_task_group_condition(ids[0] as int)
    } else {
        spec_joined_conditions(ids.drop_last()) + " OR "@ + spec_task_group_condition(
            ids.last() as int,
        )
    }
}

/// The statement a label deletion runs to drop the label's id from every
/// task of the workspace's task groups that still lists it.
pub open spec fn spec_remove_label_statement(
    label_id: int,
    user_id: int,
    task_group_ids: Seq<i32>,
) -> Seq<char> {
    "UPDATE \"task\" SET \"labels_ids\" = array_remove(\"task\".\"labels_ids\", "@
        + spec_int_decimal(label_id) + ") WHERE \"task\".\"user_id\" = "@ + spec_int_decimal(
        user_id,
    ) + " AND \"task\".\"labels_ids\" @> ARRAY["@ + spec_int_decimal(label_id) + "] AND ("@
        + spec_joined_conditions(task_group_ids) + ")"@
}

/// Builds the statement that removes a deleted label's id from the tasks
/// of the given task groups.
pub fn remove_label_from_tasks_statement(
    label_id: i32,
    user_id: i32,
    task_group_ids: &Vec<i32>,
) -> (r: String)
    ensures
        r@ == spec_remove_label_statement(label_id as int, user_id as int, task_group_ids@),
{
    let mut conditions = String::new();
    let n = task_group_ids.len();
    let mut i: usize = 0;
    proof {
        assert(task_group_ids@.subrange(0, 0) =~= Seq::<i32>::empty());
    }
    while i < n
        invariant
            0 <= i <= n == task_group_ids@.len(),
            conditions@ == spec_joined_conditions(task_group_ids@.subrange(0, i as int)),
        decreases n - i,
    {
        proof {
            assert(task_group_ids@.subrange(0, i + 1).drop_last() =~= task_group_ids@.subrange(
                0,
                i as int,
            ));
            assert(task_group_ids@.subrange(0, i + 1).last() == task_group_ids@[i as int]);
        }
        if i > 0 {
            conditions.append(" OR ");
        }
        conditions.append("\"task\".\"task_group_id\" = ");
        let id_str = format_i32(task_group_ids[i]);
        conditions.append(id_str.as_str());
        proof {
            assert(conditions@ =~= spec_joined_conditions(
                task_group_ids@.subrange(0, i + 1),
            ));
        }
        i += 1;
    }
    proof {
        assert(task_group_ids@.subrange(0, n as int) =~= task_group_ids@);
    }
    let label_id_str = format_i32(label_id);
    let user_id_str = format_i32(user_id);
    let mut statement =
        "UPDATE \"task\" SET \"labels_ids\" = array_remove(\"task\".\"labels_ids\", ".to_owned();
    statement.append(label_id_str.as_str());
    statement.append(") WHERE \"task\".\"user_id\" = ");
    statement.append(user_id_str.as_str());
    statement.append(" AND \"task\".\"labels_ids\" @> ARRAY[");
    statement.append(label_id_str.as_str());
    statement.append("] AND (");
    statement.append(conditions.as_str());
    statement.append(")");
    proof {
        assert(statement@ =~= spec_remove_label_statement(
            label_id as int,
            user_id as int,
            task_group_ids@,
        ));
    }
    statement
}

/// Validates a label-update payload: at least one field, a well-formed
/// lowercased color when one is given, a bounded description when one is
/// given.  Yields the lowercased color to store, if any.
pub fn validate_label_update(data: &LabelDataToUpdate) -> (r: Result<Option<String>, ErrorResponse>)
    ensures
        ({
            let none_given = data.color is None && data.description is None;
            let color_bad = data.color is Some && !spec_is_valid_label_color(
                lower_of(data.color->Some_0@),
            );
            let desc_bad = data.description is Some && !(1 <= encode_utf8(
                data.description->Some_0@,
            ).len() <= 30);
            &&& (r is Ok <==> !none_given && !color_bad && !desc_bad)
            &&& (r is Ok ==> match r->Ok_0 {
                Some(c) => data.color is Some && c@ == lower_of(data.color->Some_0@),
                None => data.color is None,
            })
            &&& (none_given ==> r is Err && r->Err_0.status == Status::BadRequest
                && r->Err_0.body.error@ == "Either color or description has to be provided"@)
            &&& (!none_given && color_bad ==> r is Err && r->Err_0.status
                == Status::UnprocessableEntity && r->Err_0.body.error@
                == spec_color_error_message(lower_of(data.color->Some_0@)))
            &&& (!none_given && !color_bad && desc_bad ==> r is Err && r->Err_0.status
                == Status::BadRequest && r->Err_0.body.error@ == spec_len_error_message(
                "Description"@,
                1,
                30,
            ))
        }),
{
    if data.color.is_none() && data.description.is_none() {
        return Err(
            ErrorResponse::new(
                Some("Either color or description has to be provided".to_owned()),
                Status::BadRequest,
            ),
        );
    }
    let color_to_set = match &data.color {
        Some(clr) => {
            let clr_lowercase = to_lowercase(clr.as_str());
            if let Some(err) = validate_label_color(&clr_lowercase) {
                return Err(err);
            }
            Some(clr_lowercase)
        },
        None => None,
    };
    if let Some(desc) = &data.description {
        if let Some(err) = validate_len(desc, 1, 30, "Description") {
            return Err(err);
        }
    }
    Ok(color_to_set)
}

} // verus!
