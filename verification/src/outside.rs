//! The items of outside crates that the library calls, each behind a contract
//! that is taken on trust.

use vstd::prelude::*;
use async_openai_alt::error::OpenAIError;
use async_openai_alt::types::{
    ChatCompletionRequestAssistantMessageContent as AssistantContent, ChatCompletionRequestMessage,
    ChatCompletionRequestSystemMessageContent as SystemContent,
    ChatCompletionRequestUserMessageArgs, ChatCompletionRequestUserMessageContent as UserContent,
    CreateChatCompletionRequestArgs,
};
use base64::Engine;
use crate::chat::Role;
use crate::error::{issue_model, FieldIssue, HeldModel, ValueModel};

verus! {

#[verifier::external_type_specification]
#[verifier::external_body]
pub struct ExDecodeError(base64::DecodeError);

#[verifier::external_type_specification]
#[verifier::external_body]
pub struct ExValidationErrors(validator::ValidationErrors);

#[verifier::external_type_specification]
#[verifier::external_body]
pub struct ExRequestMessage(async_openai_alt::types::ChatCompletionRequestMessage);

#[verifier::external_type_specification]
#[verifier::external_body]
pub struct ExUserMessage(async_openai_alt::types::ChatCompletionRequestUserMessage);

#[verifier::external_type_specification]
#[verifier::external_body]
pub struct ExChatRequest(async_openai_alt::types::CreateChatCompletionRequest);

#[verifier::external_type_specification]
#[verifier::external_body]
pub struct ExOpenAIError(async_openai_alt::error::OpenAIError);

#[verifier::external_type_specification]
#[verifier::external_body]
pub struct ExLdapError(ldap3::result::LdapError);

/// What the standard base64 alphabet with canonical padding decodes `text` to,
/// or `None` where `text` is not such an encoding.
pub uninterp spec fn standard_base64(text: Seq<char>) -> Option<Seq<u8>>;

/// `base64::prelude::BASE64_STANDARD.decode` on the bytes of `text`: the decoded
/// bytes, or the decoder's error where `text` is no canonical encoding. The
/// decoder reads nothing but its input.
#[verifier::external_body]
pub(crate) fn decode_standard(text: &String) -> (r: Result<Vec<u8>, base64::DecodeError>)
    ensures
        match r {
            Ok(bytes) => standard_base64(text@) == Some(bytes@),
            Err(_) => standard_base64(text@) is None,
        },
{
    base64::prelude::BASE64_STANDARD.decode(text.as_bytes())
}

/// What `validator::ValidationErrors` holds: for each field that failed, the
/// shape of its entry and, for a field that broke rules itself, the rules'
/// codes and messages in the order in which they were added.
pub uninterp spec fn held(errors: validator::ValidationErrors) -> Map<Seq<char>, HeldModel>;

/// The keys of the map behind `validator::ValidationErrors::errors`, as
/// `HashMap::keys` hands them out: each field that has an entry, once, in an
/// order that is not fixed.
#[verifier::external_body]
pub(crate) fn held_fields(errors: &validator::ValidationErrors) -> (fields: Vec<&'static str>)
    ensures
        forall|i: int, j: int| 0 <= i < j < fields@.len() ==> fields@[i]@ != fields@[j]@,
        forall|i: int| 0 <= i < fields@.len() ==> held(*errors).dom().contains(#[trigger] fields@[i]@),
        forall|field: Seq<char>| #[trigger]
            held(*errors).dom().contains(field) ==> exists|i: int|
                0 <= i < fields@.len() && #[trigger] fields@[i]@ == field,
{
    errors.errors().keys().copied().collect()
}

/// How many failures the entry of `field` holds where it is a
/// `ValidationErrorsKind::Field`; `None` for a field without an entry and for
/// an entry of another variant.
#[verifier::external_body]
pub(crate) fn held_issue_count(
    errors: &validator::ValidationErrors,
    field: &str,
) -> (count: Option<usize>)
    ensures
        match count {
            Some(n) => held(*errors).dom().contains(field@) && held(*errors)[field@] is Field && n
                == held(*errors)[field@]->Field_0.len(),
            None => !(held(*errors).dom().contains(field@) && held(*errors)[field@] is Field),
        },
{
    match errors.errors().get(field) {
        Some(validator::ValidationErrorsKind::Field(failed)) => Some(failed.len()),
        _ => None,
    }
}

/// The failure at `index` in the `ValidationErrorsKind::Field` entry of
/// `field`: the `code` of the `ValidationError` and its `message`, where it
/// has one. `None` where there is no such failure.
#[verifier::external_body]
pub(crate) fn held_issue(
    errors: &validator::ValidationErrors,
    field: &str,
    index: usize,
) -> (issue: Option<FieldIssue>)
    ensures
        match issue {
            Some(found) => held(*errors).dom().contains(field@) && held(*errors)[field@] is Field
                && index < held(*errors)[field@]->Field_0.len() && issue_model(found) == held(
                *errors,
            )[field@]->Field_0[index as int],
            None => !(held(*errors).dom().contains(field@) && held(*errors)[field@] is Field
                && index < held(*errors)[field@]->Field_0.len()),
        },
{
    let found = match errors.errors().get(field) {
        Some(validator::ValidationErrorsKind::Field(failed)) => failed.get(index),
        _ => None,
    };
    found.map(|e| FieldIssue {
        code: e.code.to_string(),
        message: e.message.as_ref().map(|m| m.to_string()),
    })
}

/// `Display` of the nested `ValidationErrors` where the entry of `field` is a
/// `ValidationErrorsKind::Struct`; `None` for a field without an entry and
/// for an entry of another variant. The text comes from a walk of a hash map,
/// so nothing is claimed of it.
#[verifier::external_body]
pub(crate) fn held_rendering(
    errors: &validator::ValidationErrors,
    field: &str,
) -> (text: Option<String>)
    ensures
        match text {
            Some(_) => held(*errors).dom().contains(field@) && held(*errors)[field@] is Struct,
            None => !(held(*errors).dom().contains(field@) && held(*errors)[field@] is Struct),
        },
{
    match errors.errors().get(field) {
        Some(validator::ValidationErrorsKind::Struct(nested)) => Some(nested.to_string()),
        _ => None,
    }
}

/// The message of the error that the model's API sent, where the failure is
/// an `OpenAIError::ApiError`; `None` for every other failure.
pub uninterp spec fn api_message(error: async_openai_alt::error::OpenAIError) -> Option<Seq<char>>;

/// The `message` of the `ApiError` inside an `OpenAIError::ApiError`, and `None`
/// for every other variant of `async_openai_alt::error::OpenAIError`.
#[verifier::external_body]
pub(crate) fn api_error_message(error: &async_openai_alt::error::OpenAIError) -> (message: Option<String>)
    ensures
        match message {
            Some(text) => api_message(*error) == Some(text@),
            None => api_message(*error) is None,
        },
{
    match error {
        OpenAIError::ApiError(e) => Some(e.message.clone()),
        _ => None,
    }
}

/// `Display` of an `async_openai_alt::error::OpenAIError`, as `to_string` gives it.
#[verifier::external_body]
pub(crate) fn openai_error_text(error: &async_openai_alt::error::OpenAIError) -> String {
    error.to_string()
}

/// `Display` of an `ldap3::result::LdapError`, as `to_string` gives it.
#[verifier::external_body]
pub(crate) fn ldap_error_text(error: &ldap3::result::LdapError) -> String {
    error.to_string()
}

/// The role of a request message: the variant of
/// `async_openai_alt::types::ChatCompletionRequestMessage` that it is.
pub uninterp spec fn message_role(message: async_openai_alt::types::ChatCompletionRequestMessage) -> Role;

/// The plain text of a request message: the text of the `content` of a user,
/// assistant or system message where that content is its `Text` variant.
/// `None` for content in parts, for an assistant message without content,
/// and for tool and function messages.
pub uninterp spec fn message_text(message: async_openai_alt::types::ChatCompletionRequestMessage) -> Option<Seq<char>>;

/// Tells the five variants of
/// `async_openai_alt::types::ChatCompletionRequestMessage` apart.
#[verifier::external_body]
pub(crate) fn role_of(message: &async_openai_alt::types::ChatCompletionRequestMessage) -> (role: Role)
    ensures
        role == message_role(*message),
{
    match message {
        ChatCompletionRequestMessage::User(_) => Role::User,
        ChatCompletionRequestMessage::Assistant(_) => Role::Assistant,
        ChatCompletionRequestMessage::Tool(_) => Role::Tool,
        ChatCompletionRequestMessage::System(_) => Role::System,
        ChatCompletionRequestMessage::Function(_) => Role::Function,
    }
}

/// Hands out the text inside the `content` field of a user, assistant or
/// system message where the content is its `Text` variant, and `None` for
/// every other message.
#[verifier::external_body]
pub(crate) fn text_of(message: async_openai_alt::types::ChatCompletionRequestMessage) -> (text: Option<String>)
    ensures
        match text {
            Some(held) => message_text(message) == Some(held@),
            None => message_text(message) is None,
        },
{
    match message {
        ChatCompletionRequestMessage::User(m) => match m.content {
            UserContent::Text(t) => Some(t),
            UserContent::Array(_) => None,
        },
        ChatCompletionRequestMessage::Assistant(m) => match m.content {
            Some(AssistantContent::Text(t)) => Some(t),
            _ => None,
        },
        ChatCompletionRequestMessage::System(m) => match m.content {
            SystemContent::Text(t) => Some(t),
            SystemContent::Array(_) => None,
        },
        _ => None,
    }
}

/// The plain text of a user message: the text of its `content` where that
/// is the `Text` variant, `None` for content in parts.
pub uninterp spec fn user_message_text(
    message: async_openai_alt::types::ChatCompletionRequestUserMessage,
) -> Option<Seq<char>>;

/// The `messages` of a chat request, in their order: each message's role
/// and its plain text.
pub uninterp spec fn request_messages(
    request: async_openai_alt::types::CreateChatCompletionRequest,
) -> Seq<(Role, Option<Seq<char>>)>;

/// `ChatCompletionRequestUserMessageArgs`: the builder is given the text as
/// its content and nothing else. Its `build` takes every field that was not
/// set from the struct's default and tests nothing, so it does not fail, and
/// the message it makes has the text as its plain content.
#[verifier::external_body]
pub(crate) fn user_message(text: &str) -> (made: Result<
    async_openai_alt::types::ChatCompletionRequestUserMessage,
    async_openai_alt::error::OpenAIError,
>)
    ensures
        match made {
            Ok(message) => user_message_text(message) == Some(text@),
            Err(_) => false,
        },
{
    ChatCompletionRequestUserMessageArgs::default().content(text).build()
}

/// `CreateChatCompletionRequestArgs`: the builder is given the one user
/// message as its messages and nothing else. Its `build` takes every field
/// that was not set from the struct's default and tests nothing, so it does
/// not fail, and the request it makes holds that one message.
#[verifier::external_body]
pub(crate) fn chat_request(
    message: async_openai_alt::types::ChatCompletionRequestUserMessage,
) -> (made: Result<
    async_openai_alt::types::CreateChatCompletionRequest,
    async_openai_alt::error::OpenAIError,
>)
    ensures
        match made {
            Ok(request) => request_messages(request) == seq![
                (Role::User, user_message_text(message)),
            ],
            Err(_) => false,
        },
{
    CreateChatCompletionRequestArgs::default()
        .messages(vec![ChatCompletionRequestMessage::User(message)])
        .build()
}

#[verifier::external_type_specification]
#[verifier::external_body]
pub struct ExInstant(std::time::Instant);

/// `std::time::Instant::now`: the reading of the monotonic clock at the call,
/// of which nothing is known.
#[verifier::external_body]
pub(crate) fn instant_now() -> std::time::Instant {
    std::time::Instant::now()
}

/// `Instant::elapsed`: the time since `start`, as the clock stands at the
/// call. Nothing is known of it.
#[verifier::external_body]
pub(crate) fn elapsed_since(start: &std::time::Instant) -> std::time::Duration {
    start.elapsed()
}

/// `Duration::as_millis`: the whole milliseconds of a duration.
#[verifier::external_body]
pub(crate) fn whole_millis(duration: &std::time::Duration) -> u128 {
    duration.as_millis()
}

#[verifier::external_type_specification]
#[verifier::external_body]
pub struct ExDefaultScalarValue(juniper::DefaultScalarValue);

#[verifier::external_type_specification]
#[verifier::external_body]
#[verifier::reject_recursive_types(S)]
pub struct ExValue<S>(juniper::Value<S>);

#[verifier::external_type_specification]
#[verifier::external_body]
#[verifier::reject_recursive_types(S)]
pub struct ExObject<S>(juniper::Object<S>);

#[verifier::external_type_specification]
#[verifier::external_body]
#[verifier::reject_recursive_types(S)]
pub struct ExFieldError<S>(juniper::FieldError<S>);

/// What a `juniper::Value` holds.
pub uninterp spec fn value_model(value: juniper::Value<juniper::DefaultScalarValue>) -> ValueModel;

/// The fields of a `juniper::Object`, each with its name and what its value
/// holds, in the order of the object's index map.
pub uninterp spec fn object_fields(object: juniper::Object<juniper::DefaultScalarValue>) -> Seq<
    (Seq<char>, ValueModel),
>;

/// What `juniper::FieldError::message` returns.
pub uninterp spec fn error_message(error: juniper::FieldError<juniper::DefaultScalarValue>) -> Seq<
    char,
>;

/// What the value holds that `juniper::FieldError::extensions` returns.
pub uninterp spec fn error_extensions(
    error: juniper::FieldError<juniper::DefaultScalarValue>,
) -> ValueModel;

/// What each of a list of values holds.
pub open spec fn models(values: Seq<juniper::Value<juniper::DefaultScalarValue>>) -> Seq<ValueModel> {
    values.map_values(|v: juniper::Value<juniper::DefaultScalarValue>| value_model(v))
}

/// The first position in `fields` that has the name `key`, if one has.
pub open spec fn field_index(fields: Seq<(Seq<char>, ValueModel)>, key: Seq<char>) -> Option<int>
    decreases fields.len(),
{
    if fields.len() == 0 {
        None
    } else {
        match field_index(fields.drop_last(), key) {
            Some(i) => Some(i),
            None => if fields.last().0 == key {
                Some(fields.len() - 1)
            } else {
                None
            },
        }
    }
}

/// The fields once `key` is set to `value`: a field of that name keeps its
/// place and gets the value, a new field comes last.
pub open spec fn with_field(
    fields: Seq<(Seq<char>, ValueModel)>,
    key: Seq<char>,
    value: ValueModel,
) -> Seq<(Seq<char>, ValueModel)> {
    match field_index(fields, key) {
        Some(i) => fields.update(i, (key, value)),
        None => fields.push((key, value)),
    }
}

/// `juniper::Object::with_capacity`: an object without fields.
#[verifier::external_body]
pub(crate) fn new_object(size: usize) -> (object: juniper::Object<juniper::DefaultScalarValue>)
    ensures
        object_fields(object) == Seq::<(Seq<char>, ValueModel)>::empty(),
{
    juniper::Object::with_capacity(size)
}

/// `juniper::Object::add_field`: sets the field `key` of the object to
/// `value`. A field of that name keeps its place in the order and the value
/// it had is dropped; a new field is put last.
#[verifier::external_body]
pub(crate) fn add_field(
    object: &mut juniper::Object<juniper::DefaultScalarValue>,
    key: &str,
    value: juniper::Value<juniper::DefaultScalarValue>,
)
    ensures
        object_fields(*final(object)) == with_field(
            object_fields(*old(object)),
            key@,
            value_model(value),
        ),
{
    object.add_field(key, value);
}

/// `juniper::Value::scalar` on a string: the scalar that holds the string.
#[verifier::external_body]
pub(crate) fn scalar_value(text: String) -> (value: juniper::Value<juniper::DefaultScalarValue>)
    ensures
        value_model(value) == ValueModel::Text(text@),
{
    juniper::Value::scalar(text)
}

/// `juniper::Value::list`: the list of these values, in their order.
#[verifier::external_body]
pub(crate) fn list_value(
    items: Vec<juniper::Value<juniper::DefaultScalarValue>>,
) -> (value: juniper::Value<juniper::DefaultScalarValue>)
    ensures
        value_model(value) == ValueModel::List(models(items@)),
{
    juniper::Value::list(items)
}

/// `juniper::Value::object`: the object as a value.
#[verifier::external_body]
pub(crate) fn object_value(
    object: juniper::Object<juniper::DefaultScalarValue>,
) -> (value: juniper::Value<juniper::DefaultScalarValue>)
    ensures
        value_model(value) == ValueModel::Object(object_fields(object)),
{
    juniper::Value::object(object)
}

/// `juniper::Value::null`.
#[verifier::external_body]
pub(crate) fn null_value() -> (value: juniper::Value<juniper::DefaultScalarValue>)
    ensures
        value_model(value) == ValueModel::Null,
{
    juniper::Value::null()
}

/// `juniper::FieldError::new` on a string: the field error whose message is
/// that string and whose extensions are the value given.
#[verifier::external_body]
pub(crate) fn new_field_error(
    message: &String,
    extensions: juniper::Value<juniper::DefaultScalarValue>,
) -> (error: juniper::FieldError<juniper::DefaultScalarValue>)
    ensures
        error_message(error) == message@,
        error_extensions(error) == value_model(extensions),
{
    juniper::FieldError::new(message, extensions)
}

} // verus!
