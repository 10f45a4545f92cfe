use vstd::prelude::*;
use vstd::string::*;

verus! {

/// One field of a request together with what is wrong with it.
#[derive(Debug)]
pub struct ApiFieldError {
    pub field: String,
    pub message: String,
}

/// The envelope of every answer: a message, the payload if there is one, the
/// identifier of the request it answers, and the per-field findings of a
/// failed validation.
#[derive(Debug)]
pub struct ApiResponse<T> {
    pub message: String,
    pub data: Option<T>,
    pub request_id: String,
    pub errors: Option<Vec<ApiFieldError>>,
}

/// The correlation identifier of a request, handed explicitly to whatever
/// answers it.
#[derive(Debug)]
pub struct RequestId(pub String);

/// Why a request failed.
#[derive(Debug)]
pub enum AppError {
    /// Malformed input, an unknown queue type, or a transition that the
    /// ticket's state does not allow.
    BadRequest(String),
    /// Field-level findings on an intake request.
    ValidationError(Vec<ApiFieldError>),
    /// No ticket, intent or patient matches.
    NotFound(String),
    /// A failure of the store, the cache or a conversion.
    Internal(String),
}

/// What one validation rule reported on a field: the rule's code and, if the
/// rule carries one, its message.
#[derive(Debug)]
pub struct FieldIssue {
    pub code: String,
    pub message: Option<String>,
}

/// All that validation reported on one field.
#[derive(Debug)]
pub struct FieldIssues {
    pub field: String,
    pub issues: Vec<FieldIssue>,
}

impl ApiFieldError {
    /// A copy with the same field name and message.
    pub fn duplicate(&self) -> (copy: ApiFieldError)
        ensures
            copy == *self,
    {
        ApiFieldError { field: self.field.clone(), message: self.message.clone() }
    }
}

impl FieldIssue {
    /// The text shown for this issue: its message, or its code where it has
    /// no message.
    pub open spec fn shown(&self) -> Seq<char> {
        match self.message {
            Some(m) => m@,
            None => self.code@,
        }
    }
}

/// The texts of the issues joined by a comma and a space.
pub open spec fn joined(issues: Seq<FieldIssue>) -> Seq<char>
    decreases issues.len(),
{
    if issues.len() == 0 {
        Seq::empty()
    } else if issues.len() == 1 {
        issues[0].shown()
    } else {
        joined(issues.drop_last()) + ", "@ + issues.last().shown()
    }
}

/// The field error that a field's issues flatten to.
pub open spec fn flattened_one(entry: FieldIssues) -> (Seq<char>, Seq<char>) {
    (entry.field@, joined(entry.issues@))
}

fn join_issues(issues: &Vec<FieldIssue>) -> (text: String)
    ensures
        text@ == joined(issues@),
{
    let mut text = String::new();
    let mut i: usize = 0;
    while i < issues.len()
        invariant
            i <= issues.len(),
            text@ == joined(issues@.take(i as int)),
        decreases issues.len() - i,
    {
        let ghost before = issues@.take(i as int);
        let ghost after = issues@.take(i + 1);
        assert(after.drop_last() =~= before);
        assert(after.last() == issues@[i as int]);
        if i > 0 {
            text.append(", ");
        }
        match &issues[i].message {
            Some(m) => text.append(m.as_str()),
            None => text.append(issues[i].code.as_str()),
        }
        assert(text@ =~= joined(after)) by {
            if i == 0 {
                assert(before.len() == 0);
                assert(joined(before) =~= Seq::<char>::empty());
            }
        }
        i = i + 1;
    }
    assert(issues@.take(i as int) =~= issues@);
    text
}

impl AppError {
    /// Turns the issues found per field into one field error each, in the
    /// order given: the field's name, and the issues' texts joined by a comma
    /// and a space.
    pub fn flatten_validation_errors(errors: Vec<FieldIssues>) -> (flat: Vec<ApiFieldError>)
        ensures
            flat@.len() == errors@.len(),
            forall|i: int|
                0 <= i < errors@.len() ==> (#[trigger] flat@[i].field@, flat@[i].message@)
                    == flattened_one(errors@[i]),
    {
        let mut flat: Vec<ApiFieldError> = Vec::new();
        let mut i: usize = 0;
        while i < errors.len()
            invariant
                i <= errors.len(),
                flat@.len() == i,
                forall|k: int|
                    0 <= k < i ==> (#[trigger] flat@[k].field@, flat@[k].message@)
                        == flattened_one(errors@[k]),
            decreases errors.len() - i,
        {
            let message = join_issues(&errors[i].issues);
            flat.push(ApiFieldError { field: errors[i].field.clone(), message });
            i = i + 1;
        }
        flat
    }

    /// The HTTP status that answers this error.
    pub open spec fn status_of(&self) -> u16 {
        match self {
            AppError::BadRequest(_) => 400,
            AppError::ValidationError(_) => 400,
            AppError::NotFound(_) => 404,
            AppError::Internal(_) => 500,
        }
    }

    /// The message that the answer to this error carries.
    pub open spec fn message_of(&self) -> Seq<char> {
        match self {
            AppError::BadRequest(m) => m@,
            AppError::ValidationError(_) => "Validation failed"@,
            AppError::NotFound(m) => m@,
            AppError::Internal(m) => m@,
        }
    }

    /// The one-line description of this error.
    pub open spec fn description(&self) -> Seq<char> {
        match self {
            AppError::BadRequest(m) => "Bad request: "@ + m@,
            AppError::ValidationError(_) => "Validation error"@,
            AppError::NotFound(m) => "Not found: "@ + m@,
            AppError::Internal(m) => "Internal server error: "@ + m@,
        }
    }

    pub fn status_code(&self) -> (code: u16)
        ensures
            code == self.status_of(),
    {
        match self {
            AppError::BadRequest(_) => 400,
            AppError::ValidationError(_) => 400,
            AppError::NotFound(_) => 404,
            AppError::Internal(_) => 500,
        }
    }

    /// Describes the error in one line: the kind, then its message.
    pub fn to_string(&self) -> (text: String)
        ensures
            text@ == self.description(),
    {
        match self {
            AppError::BadRequest(m) => String::from_str("Bad request: ").concat(m.as_str()),
            AppError::ValidationError(_) => String::from_str("Validation error"),
            AppError::NotFound(m) => String::from_str("Not found: ").concat(m.as_str()),
            AppError::Internal(m) => String::from_str("Internal server error: ").concat(
                m.as_str(),
            ),
        }
    }

    /// Builds the answer to a failed request: the status, and an envelope
    /// with the error's message, no payload, the request's identifier and,
    /// for a validation error, its field errors.
    pub fn into_response(self, request_id: String) -> (answer: (u16, ApiResponse<()>))
        ensures
            answer.0 == self.status_of(),
            answer.1.message@ == self.message_of(),
            answer.1.data is None,
            answer.1.request_id == request_id,
            match self {
                AppError::ValidationError(found) => answer.1.errors == Some(found),
                _ => answer.1.errors is None,
            },
    {
        let status = self.status_code();
        let (message, errors) = match self {
            AppError::BadRequest(m) => (m, None),
            AppError::ValidationError(found) => (
                String::from_str("Validation failed"),
                Some(found),
            ),
            AppError::NotFound(m) => (m, None),
            AppError::Internal(m) => (m, None),
        };
        (status, ApiResponse { message, data: None, request_id, errors })
    }
}

impl<T> ApiResponse<T> {
    /// The envelope of a successful answer.
    pub fn success(message: &str, data: T, request_id: &RequestId) -> (answer: ApiResponse<T>)
        ensures
            answer.message@ == message@,
            answer.data == Some(data),
            answer.request_id@ == request_id.0@,
            answer.errors is None,
    {
        ApiResponse {
            message: String::from_str(message),
            data: Some(data),
            request_id: request_id.0.clone(),
            errors: None,
        }
    }
}

} // verus!
