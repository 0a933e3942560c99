//! The failures of the gateway, and the structured error that a response
//! carries for each.

use vstd::prelude::*;
use vstd::std_specs::convert::FromSpecImpl;
use crate::outside::{
    add_field, api_error_message, ldap_error_text, list_value, new_field_error, new_object,
    api_message, error_extensions, error_message, held, held_fields, held_issue,
    held_issue_count,
    field_index, held_rendering, models, null_value, object_fields, object_value,
    openai_error_text, scalar_value, value_model, with_field,
};

verus! {

/// The closed set of codes that discriminate a structured error.
#[derive(Clone, Copy, Debug, PartialEq, Eq, Structural)]
pub enum ErrorCode {
    Unauthorized,
    Forbidden,
    NotFound,
    InvalidId,
    InvalidInput,
    EmailNotConfigured,
    InvalidLicense,
}

impl ErrorCode {
    /// The name under which the code goes out.
    pub open spec fn name(self) -> Seq<char> {
        match self {
            ErrorCode::Unauthorized => "UNAUTHORIZED"@,
            ErrorCode::Forbidden => "FORBIDDEN"@,
            ErrorCode::NotFound => "NOT_FOUND"@,
            ErrorCode::InvalidId => "INVALID_ID"@,
            ErrorCode::InvalidInput => "INVALID_INPUT"@,
            ErrorCode::EmailNotConfigured => "EMAIL_NOT_CONFIGURED"@,
            ErrorCode::InvalidLicense => "INVALID_LICENSE"@,
        }
    }

    pub fn as_str(&self) -> (name: &'static str)
        ensures
            name@ == self.name(),
    {
        match self {
            ErrorCode::Unauthorized => "UNAUTHORIZED",
            ErrorCode::Forbidden => "FORBIDDEN",
            ErrorCode::NotFound => "NOT_FOUND",
            ErrorCode::InvalidId => "INVALID_ID",
            ErrorCode::InvalidInput => "INVALID_INPUT",
            ErrorCode::EmailNotConfigured => "EMAIL_NOT_CONFIGURED",
            ErrorCode::InvalidLicense => "INVALID_LICENSE",
        }
    }
}

/// One failed rule on one field, as the validator reports it.
#[derive(Debug)]
pub struct FieldIssue {
    pub code: String,
    pub message: Option<String>,
}

/// What the validator holds for one field of an input.
#[derive(Debug)]
pub enum ValidationEntryKind {
    /// The field is a struct that failed; the text renders its failures.
    Struct(String),
    /// The field is a list with failing items. This shape is not carried over.
    List,
    /// The field itself broke these rules.
    Field(Vec<FieldIssue>),
}

/// The shape of what the validator holds for one field, and for a field that
/// broke rules itself each rule's code and message.
pub enum HeldModel {
    Struct,
    List,
    Field(Seq<(Seq<char>, Option<Seq<char>>)>),
}

/// What a value of a response holds: nothing, a text, a list of values, or
/// named fields in their order. Of a scalar that is no text nothing is said.
pub enum ValueModel {
    Null,
    Text(Seq<char>),
    List(Seq<ValueModel>),
    Object(Seq<(Seq<char>, ValueModel)>),
}

#[derive(Debug)]
pub struct ValidationEntry {
    pub field: String,
    pub kind: ValidationEntryKind,
}

/// One offending field in a structured error.
#[derive(Debug)]
pub struct FieldFailure {
    pub path: String,
    pub message: String,
}

impl View for FieldFailure {
    type V = (Seq<char>, Seq<char>);

    open spec fn view(&self) -> (Seq<char>, Seq<char>) {
        (self.path@, self.message@)
    }
}

/// The `(path, message)` pairs of a list of failures.
pub open spec fn failure_views(failures: Seq<FieldFailure>) -> Seq<(Seq<char>, Seq<char>)> {
    failures.map_values(|f: FieldFailure| f@)
}

/// The views of a list of field names.
pub open spec fn name_views(names: Seq<String>) -> Seq<Seq<char>> {
    names.map_values(|n: String| n@)
}

/// The message of an issue: its own, or the empty text where it has none.
pub open spec fn issue_message(issue: FieldIssue) -> Seq<char> {
    match issue.message {
        Some(m) => m@,
        None => Seq::empty(),
    }
}

/// The code and the message of an issue.
pub open spec fn issue_model(issue: FieldIssue) -> (Seq<char>, Option<Seq<char>>) {
    (
        issue.code@,
        match issue.message {
            Some(m) => Some(m@),
            None => None,
        },
    )
}

/// The shape of an entry, with the codes and messages of its issues.
pub open spec fn entry_model(entry: ValidationEntry) -> HeldModel {
    match entry.kind {
        ValidationEntryKind::Struct(_) => HeldModel::Struct,
        ValidationEntryKind::List => HeldModel::List,
        ValidationEntryKind::Field(issues) => HeldModel::Field(
            issues@.map_values(|i: FieldIssue| issue_model(i)),
        ),
    }
}

/// Whether `entries` are what the validator holds, in the order of some walk
/// of it: each field that failed has one entry, of the shape and with the
/// issues that the validator holds for it, and there is no other entry.
pub open spec fn walks(errors: validator::ValidationErrors, entries: Seq<ValidationEntry>) -> bool {
    &&& forall|i: int, j: int|
        0 <= i < j < entries.len() ==> (#[trigger] entries[i]).field@ != (
        #[trigger] entries[j]).field@
    &&& forall|i: int|
        0 <= i < entries.len() ==> held(errors).dom().contains((#[trigger] entries[i]).field@)
            && held(errors)[entries[i].field@] == entry_model(entries[i])
    &&& forall|field: Seq<char>| #[trigger]
        held(errors).dom().contains(field) ==> exists|i: int|
            0 <= i < entries.len() && (#[trigger] entries[i]).field@ == field
}

/// The message under which a field that broke rules goes out: that of the
/// first rule it broke, and the empty text where that rule has none.
pub open spec fn first_message(issues: Seq<FieldIssue>) -> Seq<char> {
    if issues.len() > 0 {
        issue_message(issues[0])
    } else {
        Seq::empty()
    }
}

/// The failure that one entry gives: one for an offending field, under the
/// field's own name, however many rules the field broke. A nested struct
/// goes out with the rendering of its failures, a field that broke rules
/// with the message of the first. An entry of the list shape gives none.
pub open spec fn entry_failures(entry: ValidationEntry) -> Seq<(Seq<char>, Seq<char>)> {
    match entry.kind {
        ValidationEntryKind::Struct(text) => seq![(entry.field@, text@)],
        ValidationEntryKind::List => Seq::empty(),
        ValidationEntryKind::Field(issues) => seq![(entry.field@, first_message(issues@))],
    }
}

/// The failures of all entries, in the entries' order.
pub open spec fn all_failures(entries: Seq<ValidationEntry>) -> Seq<(Seq<char>, Seq<char>)>
    decreases entries.len(),
{
    if entries.len() == 0 {
        Seq::empty()
    } else {
        all_failures(entries.drop_last()) + entry_failures(entries.last())
    }
}

/// The fields whose entry is a list, in the entries' order.
pub open spec fn skipped_lists(entries: Seq<ValidationEntry>) -> Seq<Seq<char>>
    decreases entries.len(),
{
    if entries.len() == 0 {
        Seq::empty()
    } else if entries.last().kind is List {
        skipped_lists(entries.drop_last()).push(entries.last().field@)
    } else {
        skipped_lists(entries.drop_last())
    }
}

/// The structured error of a response.
#[derive(Debug)]
pub struct StructuredError {
    /// The discriminating code; `None` for a failure that has no structured code.
    pub code: Option<ErrorCode>,
    pub message: String,
    /// One entry per offending field of an invalid input.
    pub failures: Vec<FieldFailure>,
    /// The fields of an invalid input whose failures had the list shape and
    /// were left out of `failures`; the caller reports them.
    pub skipped: Vec<String>,
}

/// One failure as a response carries it: an object with the failure's path
/// and message.
pub open spec fn failure_entry(failure: (Seq<char>, Seq<char>)) -> ValueModel {
    ValueModel::Object(
        seq![("path"@, ValueModel::Text(failure.0)), ("message"@, ValueModel::Text(failure.1))],
    )
}

/// The failures of an invalid input as a response carries them: an object
/// whose field `errors` lists them in their order.
pub open spec fn failure_list(failures: Seq<(Seq<char>, Seq<char>)>) -> ValueModel {
    ValueModel::Object(
        seq![
            (
                "errors"@,
                ValueModel::List(failures.map_values(|f: (Seq<char>, Seq<char>)| failure_entry(f))),
            ),
        ],
    )
}

/// The extensions of a response: the code's name under `code` where there is
/// a code, behind it the failures under `validation-errors` where the input
/// was invalid or there are failures, and nothing at all where there is
/// neither.
pub open spec fn response_extensions(
    code: Option<ErrorCode>,
    failures: Seq<(Seq<char>, Seq<char>)>,
) -> ValueModel {
    let named: Seq<(Seq<char>, ValueModel)> = match code {
        Some(c) => seq![("code"@, ValueModel::Text(c.name()))],
        None => Seq::empty(),
    };
    if code == Some(ErrorCode::InvalidInput) || failures.len() > 0 {
        ValueModel::Object(named.push(("validation-errors"@, failure_list(failures))))
    } else if code is Some {
        ValueModel::Object(named)
    } else {
        ValueModel::Null
    }
}

/// A field of a new name comes last.
proof fn lemma_new_field(fields: Seq<(Seq<char>, ValueModel)>, key: Seq<char>, value: ValueModel)
    requires
        forall|i: int| 0 <= i < fields.len() ==> (#[trigger] fields[i]).0 != key,
    ensures
        field_index(fields, key) is None,
        with_field(fields, key, value) == fields.push((key, value)),
    decreases fields.len(),
{
    if fields.len() > 0 {
        let front = fields.drop_last();
        assert(forall|i: int| 0 <= i < front.len() ==> front[i] == fields[i]);
        lemma_new_field(front, key, value);
    }
}

/// The failures as values of a response, one object for each.
fn failure_values(failures: &Vec<FieldFailure>) -> (values: Vec<
    juniper::Value<juniper::DefaultScalarValue>,
>)
    ensures
        models(values@) == failure_views(failures@).map_values(
            |f: (Seq<char>, Seq<char>)| failure_entry(f),
        ),
{
    let mut values: Vec<juniper::Value<juniper::DefaultScalarValue>> = Vec::new();
    let mut i: usize = 0;
    while i < failures.len()
        invariant
            i <= failures.len(),
            models(values@) == failure_views(failures@.take(i as int)).map_values(
                |f: (Seq<char>, Seq<char>)| failure_entry(f),
            ),
        decreases failures.len() - i,
    {
        let mut entry = new_object(2);
        add_field(&mut entry, "path", scalar_value(failures[i].path.clone()));
        add_field(&mut entry, "message", scalar_value(failures[i].message.clone()));
        let value = object_value(entry);
        proof {
            reveal_strlit("path");
            reveal_strlit("message");
            let first = ("path"@, ValueModel::Text(failures@[i as int].path@));
            let second = ("message"@, ValueModel::Text(failures@[i as int].message@));
            let empty = Seq::<(Seq<char>, ValueModel)>::empty();
            lemma_new_field(empty, first.0, first.1);
            assert(empty.push(first) == seq![first]);
            assert("path"@.len() != "message"@.len());
            lemma_new_field(seq![first], second.0, second.1);
            assert(seq![first].push(second) == seq![first, second]);
            assert(value_model(value) == failure_entry(failures@[i as int]@));
        }
        let ghost before = values@;
        values.push(value);
        proof {
            assert(failures@.take(i + 1) == failures@.take(i as int).push(failures@[i as int]));
            assert(models(values@) == models(before).push(value_model(value)));
            assert(failure_views(failures@.take(i + 1)) == failure_views(
                failures@.take(i as int),
            ).push(failures@[i as int]@));
            assert(models(values@) == failure_views(failures@.take(i + 1)).map_values(
                |f: (Seq<char>, Seq<char>)| failure_entry(f),
            ));
        }
        i += 1;
    }
    proof {
        assert(failures@.take(i as int) == failures@);
    }
    values
}

impl StructuredError {
    /// The error as the GraphQL response carries it: the message, and as
    /// extensions an object with the code's name under `code` and, for an
    /// invalid input, the failures under `validation-errors`, each with its
    /// `path` and `message`. An error without code and failures has no
    /// extensions.
    pub fn into_response(self) -> (out: juniper::FieldError<juniper::DefaultScalarValue>)
        ensures
            error_message(out) == self.message@,
            error_extensions(out) == response_extensions(self.code, failure_views(self.failures@)),
    {
        let mut extensions = new_object(2);
        let mut bare = true;
        if let Some(code) = self.code {
            add_field(&mut extensions, "code", scalar_value(code.as_str().to_owned()));
            bare = false;
            proof {
                let empty = Seq::<(Seq<char>, ValueModel)>::empty();
                lemma_new_field(empty, "code"@, ValueModel::Text(code.name()));
                assert(empty.push(("code"@, ValueModel::Text(code.name()))) == seq![
                    ("code"@, ValueModel::Text(code.name())),
                ]);
            }
        }
        let ghost named = object_fields(extensions);
        let invalid_input = match self.code {
            Some(ErrorCode::InvalidInput) => true,
            _ => false,
        };
        if invalid_input || self.failures.len() > 0 {
            let errors = failure_values(&self.failures);
            let mut error = new_object(1);
            add_field(&mut error, "errors", list_value(errors));
            add_field(&mut extensions, "validation-errors", object_value(error));
            bare = false;
            proof {
                reveal_strlit("code");
                reveal_strlit("validation-errors");
                assert("code"@.len() != "validation-errors"@.len());
                let listed = ("errors"@, ValueModel::List(models(errors@)));
                let empty = Seq::<(Seq<char>, ValueModel)>::empty();
                lemma_new_field(empty, listed.0, listed.1);
                assert(empty.push(listed) == seq![listed]);
                assert(object_fields(error) == seq![listed]);
                lemma_new_field(named, "validation-errors"@, ValueModel::Object(seq![listed]));
                assert(object_fields(extensions) == named.push(
                    ("validation-errors"@, failure_list(failure_views(self.failures@))),
                ));
            }
        }
        let extensions = if bare {
            null_value()
        } else {
            object_value(extensions)
        };
        new_field_error(&self.message, extensions)
    }
}

/// Failure of an operation, as the guards and the services report it.
#[derive(Debug)]
pub enum CoreError {
    Unauthorized(&'static str),
    Forbidden(&'static str),
    NotFound(&'static str),
    InvalidID,
    InvalidInput(validator::ValidationErrors),
    EmailNotConfigured,
    InvalidLicense(&'static str),
    Other(String),
}

impl CoreError {
    /// The code that discriminates this failure.
    pub open spec fn code(self) -> Option<ErrorCode> {
        match self {
            CoreError::Unauthorized(_) => Some(ErrorCode::Unauthorized),
            CoreError::Forbidden(_) => Some(ErrorCode::Forbidden),
            CoreError::NotFound(_) => Some(ErrorCode::NotFound),
            CoreError::InvalidID => Some(ErrorCode::InvalidId),
            CoreError::InvalidInput(_) => Some(ErrorCode::InvalidInput),
            CoreError::EmailNotConfigured => Some(ErrorCode::EmailNotConfigured),
            CoreError::InvalidLicense(_) => Some(ErrorCode::InvalidLicense),
            CoreError::Other(_) => None,
        }
    }

    /// The text that describes this failure to the caller.
    pub open spec fn text(self) -> Seq<char> {
        match self {
            CoreError::Unauthorized(m) => m@,
            CoreError::Forbidden(m) => m@,
            CoreError::NotFound(m) => m@,
            CoreError::InvalidID => "Invalid ID"@,
            CoreError::InvalidInput(_) => "Invalid input parameters"@,
            CoreError::EmailNotConfigured => "SMTP is not configured"@,
            CoreError::InvalidLicense(m) => m@,
            CoreError::Other(m) => m@,
        }
    }

    pub fn error_code(&self) -> (code: Option<ErrorCode>)
        ensures
            code == self.code(),
    {
        match self {
            CoreError::Unauthorized(_) => Some(ErrorCode::Unauthorized),
            CoreError::Forbidden(_) => Some(ErrorCode::Forbidden),
            CoreError::NotFound(_) => Some(ErrorCode::NotFound),
            CoreError::InvalidID => Some(ErrorCode::InvalidId),
            CoreError::InvalidInput(_) => Some(ErrorCode::InvalidInput),
            CoreError::EmailNotConfigured => Some(ErrorCode::EmailNotConfigured),
            CoreError::InvalidLicense(_) => Some(ErrorCode::InvalidLicense),
            CoreError::Other(_) => None,
        }
    }

    pub fn message(&self) -> (message: String)
        ensures
            message@ == self.text(),
    {
        match self {
            CoreError::Unauthorized(m) => (*m).to_owned(),
            CoreError::Forbidden(m) => (*m).to_owned(),
            CoreError::NotFound(m) => (*m).to_owned(),
            CoreError::InvalidID => "Invalid ID".to_owned(),
            CoreError::InvalidInput(_) => "Invalid input parameters".to_owned(),
            CoreError::EmailNotConfigured => "SMTP is not configured".to_owned(),
            CoreError::InvalidLicense(m) => (*m).to_owned(),
            CoreError::Other(m) => m.clone(),
        }
    }

    /// Whether `out` is the structured error of this failure: its code and
    /// its text, and for an invalid input one failure for each field that the
    /// validator holds, in the order of some walk of it.
    pub open spec fn structured_as(self, out: StructuredError) -> bool {
        &&& out.code == self.code()
        &&& out.message@ == self.text()
        &&& !(self is InvalidInput) ==> out.failures@.len() == 0 && out.skipped@.len() == 0
        &&& self matches CoreError::InvalidInput(errors) ==> exists|entries: Seq<ValidationEntry>|
         #[trigger]
            walks(errors, entries) && failure_views(out.failures@) == all_failures(entries)
                && name_views(out.skipped@) == skipped_lists(entries)
    }

    /// The structured error of this failure: its code and its text, and for an
    /// invalid input what the validator holds, field by field.
    pub fn into_field_error(self) -> (out: StructuredError)
        ensures
            self.structured_as(out),
    {
        let code = self.error_code();
        match self {
            CoreError::InvalidInput(errors) => from_validation_errors(&errors),
            _ => StructuredError { code, message: self.message(), failures: Vec::new(), skipped: Vec::new() },
        }
    }

    /// A directory failure has no code of its own: it goes out as `Other`,
    /// with the text that the directory client gives it.
    pub fn from(err: ldap3::result::LdapError) -> (out: CoreError)
        ensures
            out is Other,
    {
        CoreError::Other(ldap_error_text(&err))
    }
}

/// The structured error of an invalid input: code `InvalidInput` and one
/// failure for each offending field, under the field's name and in the
/// entries' order. Entries of the list shape give no failure; their fields
/// are returned under `skipped`.
pub fn invalid_input_error(entries: &Vec<ValidationEntry>) -> (out: StructuredError)
    ensures
        out.code == Some(ErrorCode::InvalidInput),
        out.message@ == "Invalid input parameters"@,
        failure_views(out.failures@) == all_failures(entries@),
        name_views(out.skipped@) == skipped_lists(entries@),
{
    let mut failures: Vec<FieldFailure> = Vec::new();
    let mut skipped: Vec<String> = Vec::new();
    let mut i: usize = 0;
    while i < entries.len()
        invariant
            i <= entries.len(),
            failure_views(failures@) == all_failures(entries@.take(i as int)),
            name_views(skipped@) == skipped_lists(entries@.take(i as int)),
        decreases entries.len() - i,
    {
        let entry = &entries[i];
        proof {
            assert(entries@.take(i + 1).drop_last() == entries@.take(i as int));
            assert(entries@.take(i + 1).last() == entries@[i as int]);
        }
        match &entry.kind {
            ValidationEntryKind::Struct(text) => {
                failures.push(FieldFailure { path: entry.field.clone(), message: text.clone() });
                assert(failure_views(failures@) == all_failures(entries@.take(i as int)) + seq![
                    (entry.field@, text@),
                ]);
            },
            ValidationEntryKind::List => {
                skipped.push(entry.field.clone());
                assert(name_views(skipped@) == skipped_lists(entries@.take(i as int)).push(
                    entry.field@,
                ));
            },
            ValidationEntryKind::Field(issues) => {
                let message = if issues.len() > 0 {
                    match &issues[0].message {
                        Some(m) => m.clone(),
                        None => String::new(),
                    }
                } else {
                    String::new()
                };
                failures.push(FieldFailure { path: entry.field.clone(), message });
                assert(failure_views(failures@) == all_failures(entries@.take(i as int)) + seq![
                    (entry.field@, first_message(issues@)),
                ]);
            },
        }
        i += 1;
    }
    proof {
        assert(entries@.take(i as int) == entries@);
    }
    StructuredError {
        code: Some(ErrorCode::InvalidInput),
        message: "Invalid input parameters".to_owned(),
        failures,
        skipped,
    }
}

/// The issues that the validator holds for `field`, as plain values and in
/// the order in which it holds them.
fn field_issues(errors: &validator::ValidationErrors, field: &str, count: usize) -> (issues: Vec<
    FieldIssue,
>)
    requires
        held(*errors).dom().contains(field@),
        held(*errors)[field@] matches HeldModel::Field(found) && found.len() == count,
    ensures
        HeldModel::Field(issues@.map_values(|i: FieldIssue| issue_model(i))) == held(
            *errors,
        )[field@],
{
    let ghost found = held(*errors)[field@]->Field_0;
    let mut issues: Vec<FieldIssue> = Vec::new();
    let mut i: usize = 0;
    while i < count
        invariant
            i <= count,
            held(*errors).dom().contains(field@),
            held(*errors)[field@] == HeldModel::Field(found),
            found.len() == count,
            issues@.map_values(|i: FieldIssue| issue_model(i)) == found.take(i as int),
        decreases count - i,
    {
        if let Some(issue) = held_issue(errors, field, i) {
            issues.push(issue);
        }
        proof {
            assert(found.take(i + 1) == found.take(i as int).push(found[i as int]));
        }
        i += 1;
    }
    proof {
        assert(found.take(i as int) == found);
    }
    issues
}

/// What the validator holds, field by field, as plain values and in the
/// order of one walk of its entries.
fn validation_entries(errors: &validator::ValidationErrors) -> (entries: Vec<ValidationEntry>)
    ensures
        walks(*errors, entries@),
{
    let fields = held_fields(errors);
    let mut entries: Vec<ValidationEntry> = Vec::new();
    let mut i: usize = 0;
    while i < fields.len()
        invariant
            i <= fields.len(),
            entries@.len() == i,
            forall|k: int| 0 <= k < fields@.len() ==> held(*errors).dom().contains(
                #[trigger] fields@[k]@,
            ),
            forall|k: int|
                0 <= k < i ==> (#[trigger] entries@[k]).field@ == fields@[k]@ && held(
                    *errors,
                )[fields@[k]@] == entry_model(entries@[k]),
        decreases fields.len() - i,
    {
        let field = fields[i];
        let kind = match held_issue_count(errors, field) {
            Some(count) => ValidationEntryKind::Field(field_issues(errors, field, count)),
            None => match held_rendering(errors, field) {
                Some(text) => ValidationEntryKind::Struct(text),
                None => ValidationEntryKind::List,
            },
        };
        entries.push(ValidationEntry { field: field.to_owned(), kind });
        i += 1;
    }
    proof {
        assert forall|field: Seq<char>| #[trigger]
            held(*errors).dom().contains(field) implies exists|k: int|
            0 <= k < entries@.len() && (#[trigger] entries@[k]).field@ == field by {
            let k = choose|k: int| 0 <= k < fields@.len() && #[trigger] fields@[k]@ == field;
            assert(entries@[k].field@ == field);
        }
    }
    entries
}

/// The structured error of a failed validation. The validator keeps its
/// entries in a hash map, so the order of the failures is the order of one
/// walk of it; whatever that order, the error is the one that
/// `invalid_input_error` gives for the entries so walked.
pub fn from_validation_errors(error: &validator::ValidationErrors) -> (out: StructuredError)
    ensures
        out.code == Some(ErrorCode::InvalidInput),
        out.message@ == "Invalid input parameters"@,
        exists|entries: Seq<ValidationEntry>| #[trigger]
            walks(*error, entries) && failure_views(out.failures@) == all_failures(entries)
                && name_views(out.skipped@) == skipped_lists(entries),
{
    let entries = validation_entries(error);
    invalid_input_error(&entries)
}

/// Law: an invalid input yields one error that carries exactly one failure
/// for each offending field, under that field's name: two invalid fields give
/// two failures, however many rules each broke. Only entries of the list
/// shape give none; they are counted under the skipped fields.
pub proof fn lemma_failures_counted(entries: Seq<ValidationEntry>)
    ensures
        all_failures(entries).len() + skipped_lists(entries).len() == entries.len(),
        (forall|i: int| 0 <= i < entries.len() ==> !((#[trigger] entries[i]).kind is List))
            ==> all_failures(entries).len() == entries.len() && forall|i: int|
            0 <= i < entries.len() ==> (#[trigger] all_failures(entries)[i]).0 == entries[i].field@,
    decreases entries.len(),
{
    if entries.len() > 0 {
        let front = entries.drop_last();
        lemma_failures_counted(front);
        assert(forall|i: int| 0 <= i < front.len() ==> front[i] == entries[i]);
    }
}

/// Failure of a probe of a model backend.
#[derive(Debug)]
pub enum TestModelConnectionError {
    FailedToConnect(String),
    NotEnabled,
    Other(CoreError),
}

impl TestModelConnectionError {
    /// The text that describes this failure to the caller.
    pub open spec fn text(self) -> Seq<char> {
        match self {
            TestModelConnectionError::FailedToConnect(m) => m@,
            TestModelConnectionError::NotEnabled => "Model backend is not enabled"@,
            TestModelConnectionError::Other(e) => e.text(),
        }
    }

    pub fn message(&self) -> (message: String)
        ensures
            message@ == self.text(),
    {
        match self {
            TestModelConnectionError::FailedToConnect(m) => m.clone(),
            TestModelConnectionError::NotEnabled => "Model backend is not enabled".to_owned(),
            TestModelConnectionError::Other(e) => e.message(),
        }
    }

    /// A failure of the model client is a failure to connect. An error that
    /// the model's API sent goes out with that error's own message, any other
    /// with the client's rendering of it.
    pub fn from(err: async_openai_alt::error::OpenAIError) -> (out: TestModelConnectionError)
        ensures
            out matches TestModelConnectionError::FailedToConnect(message) && (api_message(err)
                matches Some(sent) ==> message@ == sent),
    {
        Self::failed_to_connect(api_error_message(&err), openai_error_text(&err))
    }

    /// The failure to connect that a failure of the model client stands for,
    /// given the message of the error that the model's API sent, where the
    /// failure is such an error, and the client's rendering of the failure:
    /// the API's message where there is one, else the rendering.
    pub fn failed_to_connect(api_message: Option<String>, rendering: String) -> (out:
        TestModelConnectionError)
        ensures
            out == TestModelConnectionError::FailedToConnect(
                match api_message {
                    Some(message) => message,
                    None => rendering,
                },
            ),
    {
        match api_message {
            Some(message) => TestModelConnectionError::FailedToConnect(message),
            None => TestModelConnectionError::FailedToConnect(rendering),
        }
    }

    /// The structured error of this failure: a guard's or a service's failure
    /// keeps its own, the probe's failures have a text and no code.
    pub fn into_field_error(self) -> (out: StructuredError)
        ensures
            out.message@ == self.text(),
            match self {
                TestModelConnectionError::Other(e) => e.structured_as(out),
                _ => out.code is None && out.failures@.len() == 0 && out.skipped@.len() == 0,
            },
    {
        match self {
            TestModelConnectionError::Other(err) => err.into_field_error(),
            _ => StructuredError { code: None, message: self.message(), failures: Vec::new(), skipped: Vec::new() },
        }
    }
}

impl From<CoreError> for TestModelConnectionError {
    fn from(err: CoreError) -> (out: TestModelConnectionError) {
        TestModelConnectionError::Other(err)
    }
}

impl FromSpecImpl<CoreError> for TestModelConnectionError {
    open spec fn obeys_from_spec() -> bool {
        true
    }

    open spec fn from_spec(err: CoreError) -> TestModelConnectionError {
        TestModelConnectionError::Other(err)
    }
}

} // verus!
