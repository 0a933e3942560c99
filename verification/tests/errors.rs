use async_openai_alt::error::{ApiError, OpenAIError};
use async_openai_alt::types::{
    ChatCompletionRequestAssistantMessage, ChatCompletionRequestAssistantMessageContent,
    ChatCompletionRequestFunctionMessage, ChatCompletionRequestMessage,
    ChatCompletionRequestSystemMessage, ChatCompletionRequestSystemMessageContent,
    ChatCompletionRequestToolMessage, ChatCompletionRequestUserMessage,
    ChatCompletionRequestUserMessageContent,
};
use tabby_schema::chat::{ChatCompletionMessage, Role};
use tabby_schema::error::{
    from_validation_errors, invalid_input_error, CoreError, ErrorCode, FieldIssue,
    TestModelConnectionError, ValidationEntry, ValidationEntryKind,
};
use tabby_schema::mutation::{Mutation, AVATAR_NOT_BASE64};

#[test]
fn codes_and_messages_of_each_failure() {
    let cases: Vec<(CoreError, Option<ErrorCode>, &str)> = vec![
        (CoreError::Unauthorized("You're not logged in"), Some(ErrorCode::Unauthorized), "You're not logged in"),
        (CoreError::Forbidden("no"), Some(ErrorCode::Forbidden), "no"),
        (CoreError::NotFound("Thread not found"), Some(ErrorCode::NotFound), "Thread not found"),
        (CoreError::InvalidID, Some(ErrorCode::InvalidId), "Invalid ID"),
        (CoreError::EmailNotConfigured, Some(ErrorCode::EmailNotConfigured), "SMTP is not configured"),
        (CoreError::InvalidLicense("expired"), Some(ErrorCode::InvalidLicense), "expired"),
        (CoreError::Other("database is locked".to_string()), None, "database is locked"),
    ];
    for (error, code, message) in cases {
        assert_eq!(error.error_code(), code);
        assert_eq!(error.message(), message);
        let out = error.into_field_error();
        assert_eq!(out.code, code);
        assert_eq!(out.message, message);
        assert!(out.failures.is_empty());
        assert!(out.skipped.is_empty());
    }
}

#[test]
fn code_names() {
    assert_eq!(ErrorCode::Unauthorized.as_str(), "UNAUTHORIZED");
    assert_eq!(ErrorCode::Forbidden.as_str(), "FORBIDDEN");
    assert_eq!(ErrorCode::NotFound.as_str(), "NOT_FOUND");
    assert_eq!(ErrorCode::InvalidId.as_str(), "INVALID_ID");
    assert_eq!(ErrorCode::InvalidInput.as_str(), "INVALID_INPUT");
    assert_eq!(ErrorCode::EmailNotConfigured.as_str(), "EMAIL_NOT_CONFIGURED");
    assert_eq!(ErrorCode::InvalidLicense.as_str(), "INVALID_LICENSE");
}

#[test]
fn two_invalid_fields_give_one_error_with_two_entries() {
    let mut errors = validator::ValidationErrors::new();
    errors.add("email", validator::ValidationError::new("email").with_message("Invalid email address".into()));
    errors.add("password1", validator::ValidationError::new("length"));
    let out = CoreError::InvalidInput(errors).into_field_error();
    assert_eq!(out.code, Some(ErrorCode::InvalidInput));
    assert_eq!(out.message, "Invalid input parameters");
    assert_eq!(out.failures.len(), 2);
    assert!(out.skipped.is_empty());
    let mut pairs: Vec<(String, String)> =
        out.failures.iter().map(|f| (f.path.clone(), f.message.clone())).collect();
    pairs.sort();
    assert_eq!(
        pairs,
        vec![
            ("email".to_string(), "Invalid email address".to_string()),
            ("password1".to_string(), "".to_string()),
        ]
    );
}

#[test]
fn several_broken_rules_of_one_field_give_one_entry() {
    let mut errors = validator::ValidationErrors::new();
    errors.add("name", validator::ValidationError::new("length").with_message("too short".into()));
    errors.add("name", validator::ValidationError::new("regex").with_message("bad characters".into()));
    let out = from_validation_errors(&errors);
    assert_eq!(out.code, Some(ErrorCode::InvalidInput));
    let pairs: Vec<(&str, &str)> =
        out.failures.iter().map(|f| (f.path.as_str(), f.message.as_str())).collect();
    assert_eq!(pairs, vec![("name", "too short")]);
    let mut errors = validator::ValidationErrors::new();
    errors.add("password1", validator::ValidationError::new("length"));
    errors.add("password1", validator::ValidationError::new("must_match").with_message("differs".into()));
    let out = from_validation_errors(&errors);
    let pairs: Vec<(&str, &str)> =
        out.failures.iter().map(|f| (f.path.as_str(), f.message.as_str())).collect();
    assert_eq!(pairs, vec![("password1", "")]);
}

#[test]
fn nested_struct_and_list_entries_from_the_validator() {
    let mut inner = validator::ValidationErrors::new();
    inner.add("url", validator::ValidationError::new("url").with_message("not an address".into()));
    let nested = validator::ValidationErrors::merge(Ok(()), "source", Err(inner.clone()));
    let out = from_validation_errors(&nested.unwrap_err());
    assert_eq!(out.failures.len(), 1);
    assert_eq!(out.failures[0].path, "source");
    assert_eq!(out.failures[0].message, "url: not an address");
    assert!(out.skipped.is_empty());
    let mut child = validator::ValidationErrors::new();
    child.0.insert("items", validator::ValidationErrorsKind::Struct(Box::new(inner)));
    let listed = validator::ValidationErrors::merge_all(Ok(()), "items", vec![Ok(()), Err(child)]);
    let out = from_validation_errors(&listed.unwrap_err());
    assert!(out.failures.is_empty());
    assert_eq!(out.skipped, vec!["items".to_string()]);
    let out = from_validation_errors(&validator::ValidationErrors::new());
    assert!(out.failures.is_empty());
    assert_eq!(out.message, "Invalid input parameters");
}

#[test]
fn invalid_input_error_keeps_the_entries_order() {
    let entries = vec![
        ValidationEntry {
            field: "email".to_string(),
            kind: ValidationEntryKind::Field(vec![
                FieldIssue { code: "email".to_string(), message: Some("bad address".to_string()) },
                FieldIssue { code: "length".to_string(), message: None },
            ]),
        },
        ValidationEntry { field: "tags".to_string(), kind: ValidationEntryKind::List },
        ValidationEntry { field: "owner".to_string(), kind: ValidationEntryKind::Struct("owner.id: missing".to_string()) },
        ValidationEntry { field: "empty".to_string(), kind: ValidationEntryKind::Field(vec![]) },
        ValidationEntry { field: "parts".to_string(), kind: ValidationEntryKind::List },
    ];
    let out = invalid_input_error(&entries);
    assert_eq!(out.code, Some(ErrorCode::InvalidInput));
    assert_eq!(out.message, "Invalid input parameters");
    let pairs: Vec<(&str, &str)> =
        out.failures.iter().map(|f| (f.path.as_str(), f.message.as_str())).collect();
    assert_eq!(pairs, vec![("email", "bad address"), ("owner", "owner.id: missing"), ("empty", "")]);
    assert_eq!(out.skipped, vec!["tags".to_string(), "parts".to_string()]);
    let out = invalid_input_error(&vec![]);
    assert!(out.failures.is_empty());
    assert!(out.skipped.is_empty());
}

#[test]
fn model_client_errors_become_failures_to_connect() {
    let sent: ApiError = serde_json::from_str(
        "{\"message\": \"model overloaded\", \"type\": \"server_error\", \"param\": null, \"code\": \"503\"}",
    )
    .unwrap();
    assert_eq!(sent.to_string(), "server_error: model overloaded (code: 503)");
    let api = OpenAIError::ApiError(sent);
    let e = TestModelConnectionError::from(api);
    assert!(matches!(&e, TestModelConnectionError::FailedToConnect(m) if m == "model overloaded"));
    assert_eq!(e.message(), "model overloaded");
    let e = TestModelConnectionError::from(OpenAIError::InvalidArgument("no messages".to_string()));
    assert!(matches!(&e, TestModelConnectionError::FailedToConnect(m) if m == "invalid args: no messages"));
    let e = TestModelConnectionError::from(OpenAIError::StreamError("closed".to_string()));
    assert!(matches!(&e, TestModelConnectionError::FailedToConnect(m) if m == "stream failed: closed"));
}

#[test]
fn probe_failures_have_no_code() {
    let out = TestModelConnectionError::NotEnabled.into_field_error();
    assert_eq!(out.code, None);
    assert_eq!(out.message, "Model backend is not enabled");
    let out = TestModelConnectionError::FailedToConnect("refused".to_string()).into_field_error();
    assert_eq!(out.code, None);
    assert_eq!(out.message, "refused");
    let wrapped: TestModelConnectionError = CoreError::Forbidden("You must be admin to proceed").into();
    assert!(matches!(&wrapped, TestModelConnectionError::Other(CoreError::Forbidden(_))));
    assert_eq!(wrapped.message(), "You must be admin to proceed");
    let out = wrapped.into_field_error();
    assert_eq!(out.code, Some(ErrorCode::Forbidden));
    assert_eq!(out.message, "You must be admin to proceed");
}

#[test]
fn directory_errors_become_other() {
    let e = CoreError::from(ldap3::result::LdapError::FilterParsing);
    assert!(matches!(&e, CoreError::Other(m) if m == "filter parse error"));
    assert_eq!(e.error_code(), None);
    let e = CoreError::from(ldap3::result::LdapError::UnknownScheme("gopher".to_string()));
    assert_eq!(e.message(), "unknown LDAP URL scheme: gopher");
}

#[test]
fn chat_message_of_each_request_message() {
    let user = ChatCompletionRequestMessage::User(ChatCompletionRequestUserMessage {
        content: ChatCompletionRequestUserMessageContent::Text("hello".to_string()),
        name: None,
    });
    let m = ChatCompletionMessage::from(user);
    assert_eq!((m.role.as_str(), m.content.as_str()), ("user", "hello"));
    let parts = ChatCompletionRequestMessage::User(ChatCompletionRequestUserMessage {
        content: ChatCompletionRequestUserMessageContent::Array(vec![]),
        name: None,
    });
    let m = ChatCompletionMessage::from(parts);
    assert_eq!((m.role.as_str(), m.content.as_str()), ("user", ""));
    let assistant = ChatCompletionRequestMessage::Assistant(ChatCompletionRequestAssistantMessage {
        content: Some(ChatCompletionRequestAssistantMessageContent::Text("hi there".to_string())),
        ..Default::default()
    });
    let m = ChatCompletionMessage::from(assistant);
    assert_eq!((m.role.as_str(), m.content.as_str()), ("assistant", "hi there"));
    let silent = ChatCompletionRequestMessage::Assistant(ChatCompletionRequestAssistantMessage::default());
    let m = ChatCompletionMessage::from(silent);
    assert_eq!((m.role.as_str(), m.content.as_str()), ("assistant", ""));
    let system = ChatCompletionRequestMessage::System(ChatCompletionRequestSystemMessage {
        content: ChatCompletionRequestSystemMessageContent::Text("be brief".to_string()),
        name: None,
    });
    let m = ChatCompletionMessage::from(system);
    assert_eq!((m.role.as_str(), m.content.as_str()), ("system", "be brief"));
    let tool = ChatCompletionRequestMessage::Tool(ChatCompletionRequestToolMessage::default());
    let m = ChatCompletionMessage::from(tool);
    assert_eq!((m.role.as_str(), m.content.as_str()), ("tool", ""));
    let function = ChatCompletionRequestMessage::Function(ChatCompletionRequestFunctionMessage {
        content: Some("42".to_string()),
        name: "answer".to_string(),
    });
    let m = ChatCompletionMessage::from(function);
    assert_eq!((m.role.as_str(), m.content.as_str()), ("function", ""));
}

#[test]
fn chat_message_of_role_and_text() {
    let m = ChatCompletionMessage::of_role(Role::System, Some("rules".to_string()));
    assert_eq!((m.role.as_str(), m.content.as_str()), ("system", "rules"));
    let m = ChatCompletionMessage::of_role(Role::Tool, Some("dropped".to_string()));
    assert_eq!((m.role.as_str(), m.content.as_str()), ("tool", ""));
    let m = ChatCompletionMessage::of_role(Role::Function, Some("dropped".to_string()));
    assert_eq!((m.role.as_str(), m.content.as_str()), ("function", ""));
    let m = ChatCompletionMessage::of_role(Role::User, None);
    assert_eq!((m.role.as_str(), m.content.as_str()), ("user", ""));
    assert_eq!(Role::Assistant.as_str(), "assistant");
}

#[test]
fn avatar_is_decoded_from_standard_base64() {
    let r = Mutation::decode_avatar(Some("aGVsbG8=".to_string()));
    assert_eq!(r.unwrap(), Some(b"hello".to_vec()));
    let r = Mutation::decode_avatar(Some("aGk=".to_string()));
    assert_eq!(r.unwrap(), Some(vec![0x68, 0x69]));
    assert!(matches!(Mutation::decode_avatar(Some("@@".to_string())), Err(CoreError::Other(_))));
    let r = Mutation::decode_avatar(Some("".to_string()));
    assert_eq!(r.unwrap(), Some(vec![]));
    let r = Mutation::decode_avatar(Some("/+8=".to_string()));
    assert_eq!(r.unwrap(), Some(vec![0xff, 0xef]));
    assert!(Mutation::decode_avatar(None).unwrap().is_none());
    for bad in ["aGVsbG8", "not base64!", "_-8=", "aGVsbG8=="] {
        let r = Mutation::decode_avatar(Some(bad.to_string()));
        assert!(matches!(r, Err(CoreError::Other(m)) if m == AVATAR_NOT_BASE64));
    }
}

#[test]
fn response_carries_the_code_in_its_extensions() {
    let out = CoreError::Forbidden("You must be admin to proceed").into_field_error().into_response();
    assert_eq!(out.message(), "You must be admin to proceed");
    let extensions = out.extensions().as_object_value().unwrap();
    assert_eq!(extensions.field_count(), 1);
    assert_eq!(extensions.get_field_value("code").unwrap().as_string_value(), Some("FORBIDDEN"));
    let out = CoreError::NotFound("Thread not found").into_field_error().into_response();
    let extensions = out.extensions().as_object_value().unwrap();
    assert_eq!(extensions.get_field_value("code").unwrap().as_string_value(), Some("NOT_FOUND"));
    let out = CoreError::InvalidID.into_field_error().into_response();
    assert_eq!(out.message(), "Invalid ID");
    let extensions = out.extensions().as_object_value().unwrap();
    assert_eq!(extensions.get_field_value("code").unwrap().as_string_value(), Some("INVALID_ID"));
}

#[test]
fn response_without_code_has_no_extensions() {
    let out = CoreError::Other("connection reset".to_string()).into_field_error().into_response();
    assert_eq!(out.message(), "connection reset");
    assert!(out.extensions().is_null());
    let out = TestModelConnectionError::NotEnabled.into_field_error().into_response();
    assert_eq!(out.message(), "Model backend is not enabled");
    assert!(out.extensions().is_null());
}

#[test]
fn response_lists_the_failures_of_an_invalid_input() {
    let entries = vec![
        ValidationEntry {
            field: "email".to_string(),
            kind: ValidationEntryKind::Field(vec![FieldIssue {
                code: "email".to_string(),
                message: Some("Invalid email address".to_string()),
            }]),
        },
        ValidationEntry {
            field: "password1".to_string(),
            kind: ValidationEntryKind::Field(vec![FieldIssue { code: "length".to_string(), message: None }]),
        },
    ];
    let out = invalid_input_error(&entries).into_response();
    assert_eq!(out.message(), "Invalid input parameters");
    let extensions = out.extensions().as_object_value().unwrap();
    assert_eq!(extensions.field_count(), 2);
    assert_eq!(extensions.get_field_value("code").unwrap().as_string_value(), Some("INVALID_INPUT"));
    let errors = extensions
        .get_field_value("validation-errors")
        .unwrap()
        .as_object_value()
        .unwrap()
        .get_field_value("errors")
        .unwrap()
        .as_list_value()
        .unwrap();
    assert_eq!(errors.len(), 2);
    let pairs: Vec<(&str, &str)> = errors
        .iter()
        .map(|e| {
            let entry = e.as_object_value().unwrap();
            assert_eq!(entry.field_count(), 2);
            (
                entry.get_field_value("path").unwrap().as_string_value().unwrap(),
                entry.get_field_value("message").unwrap().as_string_value().unwrap(),
            )
        })
        .collect();
    assert_eq!(pairs, vec![("email", "Invalid email address"), ("password1", "")]);
    let out = invalid_input_error(&vec![]).into_response();
    let extensions = out.extensions().as_object_value().unwrap();
    let errors = extensions
        .get_field_value("validation-errors")
        .unwrap()
        .as_object_value()
        .unwrap()
        .get_field_value("errors")
        .unwrap()
        .as_list_value()
        .unwrap();
    assert!(errors.is_empty());
}

#[test]
fn failure_to_connect_takes_the_api_message_before_the_rendering() {
    let e = TestModelConnectionError::failed_to_connect(
        Some("quota exceeded".to_string()),
        "insufficient_quota: quota exceeded".to_string(),
    );
    assert!(matches!(&e, TestModelConnectionError::FailedToConnect(m) if m == "quota exceeded"));
    let e = TestModelConnectionError::failed_to_connect(None, "stream failed: closed".to_string());
    assert!(matches!(&e, TestModelConnectionError::FailedToConnect(m) if m == "stream failed: closed"));
    let e = TestModelConnectionError::failed_to_connect(Some(String::new()), "unused".to_string());
    assert!(matches!(&e, TestModelConnectionError::FailedToConnect(m) if m.is_empty()));
}

#[test]
fn response_of_failures_without_code_has_only_the_failures() {
    let error = tabby_schema::error::StructuredError {
        code: None,
        message: "two fields".to_string(),
        failures: vec![
            tabby_schema::error::FieldFailure { path: "a".to_string(), message: "first".to_string() },
            tabby_schema::error::FieldFailure { path: "b".to_string(), message: "second".to_string() },
        ],
        skipped: vec![],
    };
    let out = error.into_response();
    assert_eq!(out.message(), "two fields");
    let extensions = out.extensions().as_object_value().unwrap();
    assert_eq!(extensions.field_count(), 1);
    let names: Vec<&str> = extensions.iter().map(|(name, _)| name.as_str()).collect();
    assert_eq!(names, vec!["validation-errors"]);
    let detail = extensions.get_field_value("validation-errors").unwrap().as_object_value().unwrap();
    assert_eq!(detail.field_count(), 1);
    let errors = detail.get_field_value("errors").unwrap().as_list_value().unwrap();
    let fields: Vec<Vec<(&str, &str)>> = errors
        .iter()
        .map(|e| {
            e.as_object_value()
                .unwrap()
                .iter()
                .map(|(name, value)| (name.as_str(), value.as_string_value().unwrap()))
                .collect()
        })
        .collect();
    assert_eq!(
        fields,
        vec![
            vec![("path", "a"), ("message", "first")],
            vec![("path", "b"), ("message", "second")],
        ]
    );
}

#[test]
fn response_puts_the_code_in_front_of_the_failures() {
    let out = invalid_input_error(&vec![ValidationEntry {
        field: "name".to_string(),
        kind: ValidationEntryKind::Struct("name.first: missing".to_string()),
    }])
    .into_response();
    let extensions = out.extensions().as_object_value().unwrap();
    let names: Vec<&str> = extensions.iter().map(|(name, _)| name.as_str()).collect();
    assert_eq!(names, vec!["code", "validation-errors"]);
}

#[test]
fn every_field_of_the_validator_gives_its_entry_once() {
    let mut errors = validator::ValidationErrors::new();
    for field in ["a", "b", "c", "d", "e", "f", "g"] {
        errors.add(field, validator::ValidationError::new("required"));
    }
    errors.add("c", validator::ValidationError::new("length").with_message("too long".into()));
    let out = from_validation_errors(&errors);
    assert!(out.skipped.is_empty());
    let mut paths: Vec<&str> = out.failures.iter().map(|f| f.path.as_str()).collect();
    paths.sort();
    assert_eq!(paths, vec!["a", "b", "c", "d", "e", "f", "g"]);
    assert!(out.failures.iter().all(|f| f.message.is_empty()));
}
