//! The error taxonomy of the service, the text each error presents, and
//! the mapping from errors to transport status codes.

use vstd::prelude::*;
use vstd::string::*;

verus! {

use crate::text::contains_seq;
use crate::text::contains_str;

/// Top-level application error. Every variant carries plain values; the
/// text shown for a variant comes from [`AppError::describe`].
#[derive(Debug)]
pub enum AppError {
    DatabaseConnectionFailed(String),
    DatabaseQueryFailed { message: String },
    RecordNotFound { entity_type: String, id: String },
    OllamaUnavailable { host: String },
    ModelNotFound { model_name: String },
    InferenceError { message: String },
    EmptyField { field_name: String },
    FieldTooLong { field_name: String, max_length: usize, actual_length: usize },
    ConversationNotFound { id: String },
    Unexpected(String),
}

/// The decimal digit character for `d`.
pub open spec fn digit_char(d: int) -> char {
    ((48 + d) as u8) as char
}

/// The decimal rendering of `n`, most significant digit first.
pub open spec fn dec_rep(n: nat) -> Seq<char>
    decreases n,
{
    if n < 10 {
        seq![digit_char(n as int)]
    } else {
        dec_rep(n / 10).push(digit_char((n % 10) as int))
    }
}

/// The one-character string for a decimal digit.
fn digit_str(d: u64) -> (r: &'static str)
    requires
        d < 10,
    ensures
        r@ == seq![digit_char(d as int)],
{
    proof {
        reveal_strlit("0");
        reveal_strlit("1");
        reveal_strlit("2");
        reveal_strlit("3");
        reveal_strlit("4");
        reveal_strlit("5");
        reveal_strlit("6");
        reveal_strlit("7");
        reveal_strlit("8");
        reveal_strlit("9");
    }
    let r = match d {
        0 => "0",
        1 => "1",
        2 => "2",
        3 => "3",
        4 => "4",
        5 => "5",
        6 => "6",
        7 => "7",
        8 => "8",
        _ => "9",
    };
    proof {
        assert(r@ =~= seq![digit_char(d as int)]);
    }
    r
}

/// Renders `n` in decimal.
pub fn u64_to_string(n: u64) -> (r: String)
    ensures
        r@ == dec_rep(n as nat),
    decreases n,
{
    if n < 10 {
        digit_str(n).to_owned()
    } else {
        let mut s = u64_to_string(n / 10);
        s.append(digit_str(n % 10));
        proof {
            assert(s@ =~= dec_rep((n / 10) as nat).push(digit_char((n % 10) as int)));
        }
        s
    }
}

/// The text presented for an error, mirroring the variant's fields.
pub open spec fn error_text(e: AppError) -> Seq<char> {
    match e {
        AppError::DatabaseConnectionFailed(m) => "Database connection failed: "@ + m@,
        AppError::DatabaseQueryFailed { message } => "Database query failed: "@ + message@,
        AppError::RecordNotFound { entity_type, id } => "Record not found: "@ + entity_type@
            + " with id '"@ + id@ + "'"@,
        AppError::OllamaUnavailable { host } => "Ollama service unavailable at "@ + host@,
        AppError::ModelNotFound { model_name } => "Model '"@ + model_name@
            + "' not found in Ollama"@,
        AppError::InferenceError { message } => "Inference error: "@ + message@,
        AppError::EmptyField { field_name } => "Field '"@ + field_name@ + "' cannot be empty"@,
        AppError::FieldTooLong { field_name, max_length, actual_length } => "Field '"@
            + field_name@ + "' exceeds max length of "@ + dec_rep(max_length as nat)
            + " (actual: "@ + dec_rep(actual_length as nat) + ")"@,
        AppError::ConversationNotFound { id } => "Conversation '"@ + id@ + "' not found"@,
        AppError::Unexpected(m) => "Unexpected error: "@ + m@,
    }
}

/// The error is a validation failure: empty field or over-long field.
pub open spec fn is_validation_error(e: AppError) -> bool {
    e is EmptyField || e is FieldTooLong
}

/// The error reports something that was looked up and not found.
pub open spec fn is_not_found_error(e: AppError) -> bool {
    e is ConversationNotFound || e is RecordNotFound
}

/// The error reports an unreachable inference backend.
pub open spec fn is_agent_unavailable_error(e: AppError) -> bool {
    e is OllamaUnavailable
}

/// The transport status code used when a non-streaming completion fails:
/// client error for validation, not-found for lookup misses, service
/// unavailable for an unreachable backend, internal error otherwise.
pub open spec fn status_of(e: AppError) -> u16 {
    if is_validation_error(e) {
        400
    } else if is_not_found_error(e) {
        404
    } else if is_agent_unavailable_error(e) {
        503
    } else {
        500
    }
}

impl AppError {
    /// A database query failure with the given description.
    pub fn db_query(message: String) -> (e: AppError)
        ensures
            e == (AppError::DatabaseQueryFailed { message }),
    {
        AppError::DatabaseQueryFailed { message }
    }

    /// Whether this error reports something not found.
    pub fn is_not_found(&self) -> (r: bool)
        ensures
            r == is_not_found_error(*self),
    {
        match self {
            AppError::ConversationNotFound { .. } => true,
            AppError::RecordNotFound { .. } => true,
            _ => false,
        }
    }

    /// Whether this error is a validation failure.
    pub fn is_validation(&self) -> (r: bool)
        ensures
            r == is_validation_error(*self),
    {
        match self {
            AppError::EmptyField { .. } => true,
            AppError::FieldTooLong { .. } => true,
            _ => false,
        }
    }

    /// Whether this error reports an unreachable inference backend.
    pub fn is_agent_unavailable(&self) -> (r: bool)
        ensures
            r == is_agent_unavailable_error(*self),
    {
        match self {
            AppError::OllamaUnavailable { .. } => true,
            _ => false,
        }
    }

    /// The text presented for this error.
    pub fn describe(&self) -> (r: String)
        ensures
            r@ == error_text(*self),
    {
        match self {
            AppError::DatabaseConnectionFailed(m) => String::from_str(
                "Database connection failed: ",
            ).concat(m.as_str()),
            AppError::DatabaseQueryFailed { message } => String::from_str(
                "Database query failed: ",
            ).concat(message.as_str()),
            AppError::RecordNotFound { entity_type, id } => String::from_str("Record not found: ")
                .concat(entity_type.as_str()).concat(" with id '").concat(id.as_str()).concat(
                "'",
            ),
            AppError::OllamaUnavailable { host } => String::from_str(
                "Ollama service unavailable at ",
            ).concat(host.as_str()),
            AppError::ModelNotFound { model_name } => String::from_str("Model '").concat(
                model_name.as_str(),
            ).concat("' not found in Ollama"),
            AppError::InferenceError { message } => String::from_str("Inference error: ").concat(
                message.as_str(),
            ),
            AppError::EmptyField { field_name } => String::from_str("Field '").concat(
                field_name.as_str(),
            ).concat("' cannot be empty"),
            AppError::FieldTooLong { field_name, max_length, actual_length } => {
                let max_text = u64_to_string(*max_length as u64);
                let actual_text = u64_to_string(*actual_length as u64);
                String::from_str("Field '").concat(field_name.as_str()).concat(
                    "' exceeds max length of ",
                ).concat(max_text.as_str()).concat(" (actual: ").concat(actual_text.as_str())
                    .concat(")")
            },
            AppError::ConversationNotFound { id } => String::from_str("Conversation '").concat(
                id.as_str(),
            ).concat("' not found"),
            AppError::Unexpected(m) => String::from_str("Unexpected error: ").concat(m.as_str()),
        }
    }

    /// The transport status code for this error.
    pub fn http_status(&self) -> (r: u16)
        ensures
            r == status_of(*self),
    {
        if self.is_validation() {
            400
        } else if self.is_not_found() {
            404
        } else if self.is_agent_unavailable() {
            503
        } else {
            500
        }
    }
}

impl Clone for AppError {
    fn clone(&self) -> (e: Self)
        ensures
            e == *self,
    {
        match self {
            AppError::DatabaseConnectionFailed(m) => AppError::DatabaseConnectionFailed(m.clone()),
            AppError::DatabaseQueryFailed { message } => AppError::DatabaseQueryFailed {
                message: message.clone(),
            },
            AppError::RecordNotFound { entity_type, id } => AppError::RecordNotFound {
                entity_type: entity_type.clone(),
                id: id.clone(),
            },
            AppError::OllamaUnavailable { host } => AppError::OllamaUnavailable {
                host: host.clone(),
            },
            AppError::ModelNotFound { model_name } => AppError::ModelNotFound {
                model_name: model_name.clone(),
            },
            AppError::InferenceError { message } => AppError::InferenceError {
                message: message.clone(),
            },
            AppError::EmptyField { field_name } => AppError::EmptyField {
                field_name: field_name.clone(),
            },
            AppError::FieldTooLong { field_name, max_length, actual_length } => {
                AppError::FieldTooLong {
                    field_name: field_name.clone(),
                    max_length: *max_length,
                    actual_length: *actual_length,
                }
            },
            AppError::ConversationNotFound { id } => AppError::ConversationNotFound {
                id: id.clone(),
            },
            AppError::Unexpected(m) => AppError::Unexpected(m.clone()),
        }
    }
}

/// Classifies the text of an inference-backend failure: a refused or
/// failed connection means the backend is unreachable; a complaint naming
/// the model means the model is absent; anything else is a generic
/// inference failure.
pub fn map_rig_error(e: &str, base_url: &str, model: &str) -> (r: AppError)
    ensures
        (contains_seq(e@, "Connection refused"@) || contains_seq(e@, "connect"@)) ==> (
        r matches AppError::OllamaUnavailable { host } && host@ == base_url@),
        (!contains_seq(e@, "Connection refused"@) && !contains_seq(e@, "connect"@)
            && contains_seq(e@, "model"@)) ==> (r matches AppError::ModelNotFound { model_name }
            && model_name@ == model@),
        (!contains_seq(e@, "Connection refused"@) && !contains_seq(e@, "connect"@)
            && !contains_seq(e@, "model"@)) ==> (r matches AppError::InferenceError { message }
            && message@ == e@),
{
    if contains_str(e, "Connection refused") || contains_str(e, "connect") {
        AppError::OllamaUnavailable { host: base_url.to_owned() }
    } else if contains_str(e, "model") {
        AppError::ModelNotFound { model_name: model.to_owned() }
    } else {
        AppError::InferenceError { message: e.to_owned() }
    }
}

} // verus!
