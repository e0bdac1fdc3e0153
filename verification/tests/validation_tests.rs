use backend::label::label_delete_not_found_message;
use backend::label::label_insert_error;
use backend::label::label_not_found_error;
use backend::label::remove_label_from_tasks_statement;
use backend::label::validate_label_color;
use backend::label::validate_label_update;
use backend::label::validate_new_label;
use backend::label::LabelDataToUpdate;
use backend::label::NewLabel;
use backend::provider::SocialProviderType;
use backend::responses::validate_len;
use backend::responses::ErrorResponse;
use backend::responses::ErrorResponseBody;
use backend::responses::SuccessResponse;
use backend::status::Status;
use backend::store::SocialProfileRecord;
use backend::store::UserRecord;
use backend::task::missing_label_ids;
use backend::task::task_group_missing_error;
use backend::task::task_labels_error;
use backend::task::validate_new_task;
use backend::task::NewTask;
use backend::task_group::task_group_delete_outcome;
use backend::task_group::task_group_not_found_error;
use backend::user::user_get_response;
use backend::workspace::validate_new_workspace;
use backend::workspace::validate_workspace_update;
use backend::workspace::workspace_delete_outcome;
use backend::workspace::workspace_not_found_error;
use backend::workspace::workspace_update_outcome;
use backend::workspace::ModifiedWorkspaceData;
use backend::workspace::NewWorkspace;
use backend::workspace_view::group_tasks;
use backend::workspace_view::TaskGroupRow;
use backend::workspace_view::TaskRow;

#[test]
fn validate_len_bounds_and_message() {
    assert!(validate_len(&"abc".to_string(), 1, 5, "Title").is_none());
    assert!(validate_len(&"".to_string(), 0, 5, "Title").is_none());
    let err = validate_len(&"abcdef".to_string(), 1, 5, "Title").unwrap();
    assert_eq!(err.status.code(), 400);
    assert_eq!(err.body.error, "Title length must be between 1 and 5 characters");
    let err = validate_len(&"".to_string(), 1, 30, "Description").unwrap();
    assert_eq!(err.body.error, "Description length must be between 1 and 30 characters");
}

#[test]
fn status_codes_and_reasons() {
    assert_eq!(Status::BadRequest.code(), 400);
    assert_eq!(Status::Unauthorized.code(), 401);
    assert_eq!(Status::NotFound.code(), 404);
    assert_eq!(Status::Conflict.code(), 409);
    assert_eq!(Status::UnprocessableEntity.code(), 422);
    assert_eq!(Status::InternalServerError.code(), 500);
    assert_eq!(Status::InternalServerError.reason(), "Internal Server Error");
    assert_eq!(Status::NotFound.reason(), "Not Found");
}

#[test]
fn response_bodies() {
    let ok = SuccessResponse::new(7);
    assert!(ok.success);
    assert_eq!(ok.data, 7);

    let body = ErrorResponseBody::new("Not authenticated");
    assert!(!body.success);
    assert_eq!(body.error, "Not authenticated");

    let with_message = ErrorResponse::new(Some("boom".to_string()), Status::BadRequest);
    assert_eq!(with_message.body.error, "boom");
    let with_reason = ErrorResponse::new(None, Status::InternalServerError);
    assert_eq!(with_reason.body.error, "Internal Server Error");
}

#[test]
fn label_color_grammar() {
    for ok in ["#abc", "#123", "#f0f0f0", "#123abc", "#000000"] {
        assert!(validate_label_color(&ok.to_string()).is_none(), "{ok} should be accepted");
    }
    for bad in ["", "#", "abc", "#ABC", "#12", "#abcd", "#12345", "#1234567", "#12g", "123abc"] {
        let err = validate_label_color(&bad.to_string()).unwrap();
        assert_eq!(err.status.code(), 422);
        assert_eq!(
            err.body.error,
            format!("Color {bad} is not a valid hex color (#123abc)")
        );
    }
}

#[test]
fn new_label_validation_lowercases_color() {
    let data = NewLabel {
        workspace_id: 1,
        color: "#AbCdEf".to_string(),
        description: Some("urgent".to_string()),
    };
    assert_eq!(validate_new_label(&data).unwrap(), "#abcdef");

    let bad_desc = NewLabel {
        workspace_id: 1,
        color: "#abc".to_string(),
        description: Some("x".repeat(31)),
    };
    let err = validate_new_label(&bad_desc).unwrap_err();
    assert_eq!(err.body.error, "Description length must be between 1 and 30 characters");

    let bad_color =
        NewLabel { workspace_id: 1, color: "blue".to_string(), description: None };
    let err = validate_new_label(&bad_color).unwrap_err();
    assert_eq!(err.status.code(), 422);
}

#[test]
fn label_update_validation() {
    let neither = LabelDataToUpdate { description: None, color: None };
    let err = validate_label_update(&neither).unwrap_err();
    assert_eq!(err.status.code(), 400);
    assert_eq!(err.body.error, "Either color or description has to be provided");

    let color_only = LabelDataToUpdate { description: None, color: Some("#FFF".to_string()) };
    assert_eq!(validate_label_update(&color_only).unwrap(), Some("#fff".to_string()));

    let desc_only =
        LabelDataToUpdate { description: Some("notes".to_string()), color: None };
    assert_eq!(validate_label_update(&desc_only).unwrap(), None);
}

#[test]
fn label_error_messages() {
    let fk = label_insert_error(true, 9);
    assert_eq!(fk.status.code(), 400);
    assert_eq!(
        fk.body.error,
        "Could not create label with workspace id 9, workspace does not exist"
    );
    let other = label_insert_error(false, 9);
    assert_eq!(other.status.code(), 500);

    let not_found = label_not_found_error(5);
    assert_eq!(not_found.status.code(), 404);
    assert_eq!(not_found.body.error, "Label with id 5 does not exist");

    assert_eq!(
        label_delete_not_found_message(5),
        "Could not delete label with id 5, label does not exist"
    );
}

#[test]
fn remove_label_statement_text() {
    let statement = remove_label_from_tasks_statement(7, 3, &vec![1, 2]);
    assert_eq!(
        statement,
        r#"UPDATE "task" SET "labels_ids" = array_remove("task"."labels_ids", 7) WHERE "task"."user_id" = 3 AND "task"."labels_ids" @> ARRAY[7] AND ("task"."task_group_id" = 1 OR "task"."task_group_id" = 2)"#
    );
    let single = remove_label_from_tasks_statement(1, 2, &vec![10]);
    assert!(single.ends_with(r#"AND ("task"."task_group_id" = 10)"#));
}

#[test]
fn task_validation_and_label_check() {
    let ok = NewTask {
        task_group_id: 1,
        title: "write report".to_string(),
        description: "by friday".to_string(),
        labels_ids: None,
    };
    assert!(validate_new_task(&ok).is_none());

    let bad_title = NewTask { title: "".to_string(), ..task_like() };
    let err = validate_new_task(&bad_title).unwrap();
    assert_eq!(err.body.error, "Title length must be between 1 and 50 characters");

    let bad_desc = NewTask { description: "x".repeat(256), ..task_like() };
    let err = validate_new_task(&bad_desc).unwrap();
    assert_eq!(err.body.error, "Description length must be between 1 and 255 characters");

    assert_eq!(missing_label_ids(&vec![1, 2, 3], &vec![2]), vec![1, 3]);
    assert_eq!(missing_label_ids(&vec![1, 2], &vec![1, 2]), Vec::<i32>::new());

    let conflict = task_labels_error(&vec![1, 3]);
    assert_eq!(conflict.status.code(), 409);
    assert_eq!(
        conflict.body.error,
        "Could not create task with labels ids 1, 3, labels do not exist"
    );

    let missing_group = task_group_missing_error(8);
    assert_eq!(missing_group.status.code(), 404);
    assert_eq!(
        missing_group.body.error,
        "Could not create task in task group with id 8, task group does not exist"
    );
}

fn task_like() -> NewTask {
    NewTask {
        task_group_id: 1,
        title: "title".to_string(),
        description: "description".to_string(),
        labels_ids: None,
    }
}

#[test]
fn task_group_outcomes() {
    let err = task_group_not_found_error(4);
    assert_eq!(err.status.code(), 404);
    assert_eq!(err.body.error, "Task group with id 4 does not exist");
    assert!(task_group_delete_outcome(1, 4).is_ok());
    assert!(task_group_delete_outcome(0, 4).is_err());
}

#[test]
fn workspace_validation_and_outcomes() {
    let ok = NewWorkspace { title: "home".to_string(), description: None };
    assert!(validate_new_workspace(&ok).is_none());
    let bad = NewWorkspace {
        title: "home".to_string(),
        description: Some("x".repeat(256)),
    };
    let err = validate_new_workspace(&bad).unwrap();
    assert_eq!(err.body.error, "Description length must be between 255 and 1 characters");

    let neither = ModifiedWorkspaceData { title: None, description: None };
    let err = validate_workspace_update(&neither).unwrap_err();
    assert_eq!(err.body.error, "Either title or description has to be provided");

    let with_empty_desc = ModifiedWorkspaceData {
        title: Some("new title".to_string()),
        description: Some("".to_string()),
    };
    let cols = validate_workspace_update(&with_empty_desc).unwrap();
    assert_eq!(cols.title, "new title");
    assert_eq!(cols.description, Some(None));

    let with_desc = ModifiedWorkspaceData {
        title: Some("new title".to_string()),
        description: Some("fresh".to_string()),
    };
    let cols = validate_workspace_update(&with_desc).unwrap();
    assert_eq!(cols.description, Some(Some("fresh".to_string())));

    let not_found = workspace_not_found_error(12);
    assert_eq!(not_found.status.code(), 404);
    assert_eq!(not_found.body.error, "Workspace with id 12 does not exist");

    let data = ModifiedWorkspaceData { title: Some("t".to_string()), description: None };
    let saved = workspace_update_outcome(1, 12, &data).unwrap();
    assert_eq!((saved.id, saved.title.as_str(), saved.description), (12, "t", None));
    assert!(workspace_update_outcome(0, 12, &data).is_err());
    assert!(workspace_delete_outcome(2, 12).is_ok());
    assert!(workspace_delete_outcome(0, 12).is_err());
}

#[test]
fn user_response_uses_default_profile() {
    let user = UserRecord { id: 1, default_social_profile: SocialProviderType::Discord };
    let profiles = vec![
        SocialProfileRecord {
            id: 10,
            user_id: 1,
            provider_type: SocialProviderType::Google,
            provider_id: "g-1".to_string(),
            provider_username: "".to_string(),
            provider_avatar: None,
        },
        SocialProfileRecord {
            id: 11,
            user_id: 1,
            provider_type: SocialProviderType::Discord,
            provider_id: "d-1".to_string(),
            provider_username: "alex".to_string(),
            provider_avatar: Some("https://cdn.example.test/a.png".to_string()),
        },
    ];
    let data = user_get_response(&user, &profiles).unwrap();
    assert_eq!(data.provider_type, "discord");
    assert_eq!(data.username, "alex");
    assert_eq!(data.avatar, Some("https://cdn.example.test/a.png".to_string()));

    let err = user_get_response(&user, &vec![]).unwrap_err();
    assert_eq!(err.status.code(), 500);
}

#[test]
fn group_tasks_merges_by_group() {
    let groups = vec![
        TaskGroupRow { id: 1, title: "todo".to_string() },
        TaskGroupRow { id: 2, title: "done".to_string() },
    ];
    let tasks = vec![
        TaskRow {
            id: 100,
            task_group_id: 2,
            title: "shipped".to_string(),
            description: "out".to_string(),
            labels_ids: Some(vec![7]),
        },
        TaskRow {
            id: 101,
            task_group_id: 1,
            title: "draft".to_string(),
            description: "wip".to_string(),
            labels_ids: None,
        },
        TaskRow {
            id: 102,
            task_group_id: 1,
            title: "review".to_string(),
            description: "soon".to_string(),
            labels_ids: Some(vec![]),
        },
    ];
    let merged = group_tasks(&groups, &tasks);
    assert_eq!(merged.len(), 2);
    assert_eq!((merged[0].id, merged[0].title.as_str()), (1, "todo"));
    assert_eq!(merged[0].tasks.len(), 2);
    assert_eq!(merged[0].tasks[0].id, 101);
    assert_eq!(merged[0].tasks[1].id, 102);
    assert_eq!(merged[0].tasks[1].labels_ids, Some(vec![]));
    assert_eq!(merged[1].tasks.len(), 1);
    assert_eq!(merged[1].tasks[0].id, 100);
    assert_eq!(merged[1].tasks[0].labels_ids, Some(vec![7]));
}
