//! The errors of the protocol, as `rmcp` carries them.

use vstd::prelude::*;

use crate::{text, ui};
use crate::server::ToolError;
use crate::ui::scrub_urls;

verus! {

/// An error of the protocol: a code, a message and further data.
#[verifier::external_type_specification]
#[verifier::external_body]
pub struct ExErrorData(rmcp::ErrorData);

/// The code of a request that cannot be served now.
pub const INVALID_REQUEST: i32 = -32600;

/// The code of arguments that cannot be served.
pub const INVALID_PARAMS: i32 = -32602;

/// The code of a request that failed.
pub const INTERNAL_ERROR: i32 = -32603;

/// The code of an error.
pub uninterp spec fn error_code(error: rmcp::ErrorData) -> i32;

/// The message of an error.
pub uninterp spec fn error_message(error: rmcp::ErrorData) -> Seq<char>;

/// Calls `rmcp::ErrorData::invalid_params` with a message and no further data.
/// The error bears the message and the code of invalid parameters.
#[verifier::external_body]
fn invalid_params(message: String) -> (error: rmcp::ErrorData)
    ensures
        error_code(error) == INVALID_PARAMS,
        error_message(error) == message@,
{
    rmcp::ErrorData::invalid_params(message, None)
}

/// Calls `rmcp::ErrorData::invalid_request` with a message and no further
/// data. The error bears the message and the code of an invalid request.
#[verifier::external_body]
fn invalid_request(message: String) -> (error: rmcp::ErrorData)
    ensures
        error_code(error) == INVALID_REQUEST,
        error_message(error) == message@,
{
    rmcp::ErrorData::invalid_request(message, None)
}

/// Calls `rmcp::ErrorData::internal_error` with a message and no further data.
/// The error bears the message and the code of an internal error.
#[verifier::external_body]
fn internal_error(message: String) -> (error: rmcp::ErrorData)
    ensures
        error_code(error) == INTERNAL_ERROR,
        error_message(error) == message@,
{
    rmcp::ErrorData::internal_error(message, None)
}

impl ToolError {
    /// The code under which a client is told of an error.
    pub open spec fn code(self) -> i32 {
        match self {
            ToolError::InvalidParams(message) => INVALID_PARAMS,
            ToolError::InvalidRequest(message) => INVALID_REQUEST,
            ToolError::Failed { context, cause } => INTERNAL_ERROR,
        }
    }

    /// What a client is told. The cause of a failed lookup is scrubbed: the
    /// errors of chain clients quote the endpoint that was asked.
    pub open spec fn told(self) -> Seq<char> {
        match self {
            ToolError::InvalidParams(message) => message@,
            ToolError::InvalidRequest(message) => message@,
            ToolError::Failed { context, cause } => context@ + ": "@ + ui::scrubbed(cause@),
        }
    }

    /// The error of the protocol that a client is sent.
    pub fn to_error_data(self) -> (error: rmcp::ErrorData)
        ensures
            error_code(error) == self.code(),
            error_message(error) == self.told(),
    {
        match self {
            ToolError::InvalidParams(message) => invalid_params(message),
            ToolError::InvalidRequest(message) => invalid_request(message),
            ToolError::Failed { context, cause } => {
                let mut message = context;
                message.append(": ");
                message.append(scrub_urls(cause.as_str()).as_str());
                internal_error(message)
            },
        }
    }
}

/// A client tells the three kinds of error apart by their codes.
pub proof fn law_a_code_tells_the_kind_of_error(error: ToolError)
    ensures
        error is InvalidParams <==> error.code() == -32602,
        error is InvalidRequest <==> error.code() == -32600,
        error is Failed <==> error.code() == -32603,
{
}

/// A refusal is told as it is. A failure is told by what failed and then its
/// cause, in which every word with a URL is redacted and nothing else is.
pub proof fn law_a_failure_is_told_without_its_urls(error: ToolError)
    ensures
        error matches ToolError::InvalidParams(message) ==> error.told() == message@,
        error matches ToolError::InvalidRequest(message) ==> error.told() == message@,
        error matches ToolError::Failed { context, cause } ==> {
            &&& (context@ + ": "@).is_prefix_of(error.told())
            &&& !text::holds(error.told().skip((context@ + ": "@).len() as int), "://"@)
            &&& error.told().skip((context@ + ": "@).len() as int) == ui::scrubbed(cause@)
            &&& !text::holds(cause@, "://"@) ==> error.told() == context@ + ": "@ + cause@
        },
{
    if let ToolError::Failed { context, cause } = error {
        let head = context@ + ": "@;
        text::lemma_affixes(head, ui::scrubbed(cause@));
        assert(error.told().skip(head.len() as int) =~= ui::scrubbed(cause@));
        ui::law_scrubbing_leaves_no_url(cause@);
        ui::law_a_url_is_known_by_its_mark(ui::scrubbed(cause@));
        ui::law_a_url_is_known_by_its_mark(cause@);
        if !ui::holds_url(cause@) {
            ui::law_scrubbing_keeps_other_text(cause@);
        }
    }
}

} // verus!
