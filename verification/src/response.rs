use crate::dateutil::UtcDateTime;
use crate::error::DuneRequestError;
use crate::text::same_text;
use vstd::prelude::*;

verus! {

/// Returned from a successful call to `DuneClient::execute_query`.
#[derive(Debug)]
pub struct ExecutionResponse {
    pub execution_id: String,
    pub state: ExecutionStatus,
}

/// Represents all possible states of query execution.
/// Most states are self explanatory.
/// Failure can occur if a query takes too long (30 minutes) to execute.
/// A pending state also comes along with a "queue position".
#[derive(Debug, Clone, Copy, PartialEq, Eq, Structural)]
pub enum ExecutionStatus {
    Complete,
    Executing,
    Pending,
    Cancelled,
    Failed,
}

impl ExecutionStatus {
    /// The text that stands for a state on the wire.
    pub open spec fn wire_value(self) -> Seq<char> {
        match self {
            ExecutionStatus::Complete => "QUERY_STATE_COMPLETED"@,
            ExecutionStatus::Executing => "QUERY_STATE_EXECUTING"@,
            ExecutionStatus::Pending => "QUERY_STATE_PENDING"@,
            ExecutionStatus::Cancelled => "QUERY_STATE_CANCELLED"@,
            ExecutionStatus::Failed => "QUERY_STATE_FAILED"@,
        }
    }

    /// The state that a text stands for on the wire, by exact match.
    pub open spec fn from_wire(text: Seq<char>) -> Option<ExecutionStatus> {
        if text == ExecutionStatus::Complete.wire_value() {
            Some(ExecutionStatus::Complete)
        } else if text == ExecutionStatus::Executing.wire_value() {
            Some(ExecutionStatus::Executing)
        } else if text == ExecutionStatus::Pending.wire_value() {
            Some(ExecutionStatus::Pending)
        } else if text == ExecutionStatus::Cancelled.wire_value() {
            Some(ExecutionStatus::Cancelled)
        } else if text == ExecutionStatus::Failed.wire_value() {
            Some(ExecutionStatus::Failed)
        } else {
            None
        }
    }

    /// What parsing a text gives: the state that it stands for, or an error
    /// message that names the text.
    pub open spec fn parsed(input: Seq<char>, outcome: Result<ExecutionStatus, String>) -> bool {
        match ExecutionStatus::from_wire(input) {
            Some(status) => outcome == Ok::<ExecutionStatus, String>(status),
            None => outcome is Err && outcome->Err_0@ == "Parse Error "@ + input,
        }
    }

    /// Every state is read back from its own wire value: no two states
    /// share one.
    pub proof fn lemma_wire_value_round_trip(status: ExecutionStatus)
        ensures
            ExecutionStatus::from_wire(status.wire_value()) == Some(status),
    {
        reveal_strlit("QUERY_STATE_COMPLETED");
        reveal_strlit("QUERY_STATE_EXECUTING");
        reveal_strlit("QUERY_STATE_PENDING");
        reveal_strlit("QUERY_STATE_CANCELLED");
        reveal_strlit("QUERY_STATE_FAILED");
        assert("QUERY_STATE_COMPLETED"@[12] == 'C');
        assert("QUERY_STATE_EXECUTING"@[12] == 'E');
        assert("QUERY_STATE_PENDING"@[12] == 'P');
        assert("QUERY_STATE_CANCELLED"@[13] == 'A');
        assert("QUERY_STATE_COMPLETED"@[13] == 'O');
        assert("QUERY_STATE_FAILED"@[12] == 'F');
    }

    /// Reads a state from its wire value. Any other text is rejected with
    /// a message that names it.
    pub fn from_str(input: &str) -> (outcome: Result<ExecutionStatus, String>)
        ensures
            ExecutionStatus::parsed(input@, outcome),
    {
        if same_text(input, "QUERY_STATE_COMPLETED") {
            Ok(ExecutionStatus::Complete)
        } else if same_text(input, "QUERY_STATE_EXECUTING") {
            Ok(ExecutionStatus::Executing)
        } else if same_text(input, "QUERY_STATE_PENDING") {
            Ok(ExecutionStatus::Pending)
        } else if same_text(input, "QUERY_STATE_CANCELLED") {
            Ok(ExecutionStatus::Cancelled)
        } else if same_text(input, "QUERY_STATE_FAILED") {
            Ok(ExecutionStatus::Failed)
        } else {
            let mut message = "Parse Error ".to_owned();
            message.append(input);
            Err(message)
        }
    }

    /// What decoding a text gives: the state that it stands for, or a
    /// decoding error whose message names the text.
    pub open spec fn decoded(
        input: Seq<char>,
        outcome: Result<ExecutionStatus, DuneRequestError>,
    ) -> bool {
        match ExecutionStatus::from_wire(input) {
            Some(status) => outcome == Ok::<ExecutionStatus, DuneRequestError>(status),
            None => outcome matches Err(DuneRequestError::Decode(message)) && message@
                == "Parse Error "@ + input,
        }
    }

    /// Reads a state from its wire value, as [`ExecutionStatus::from_str`]
    /// does. Any other text is a decoding error that carries the text.
    pub fn decode(input: &str) -> (outcome: Result<ExecutionStatus, DuneRequestError>)
        ensures
            ExecutionStatus::decoded(input@, outcome),
    {
        match ExecutionStatus::from_str(input) {
            Ok(status) => Ok(status),
            Err(message) => Err(DuneRequestError::Decode(message)),
        }
    }

    /// The states from which an execution makes no further transition.
    pub open spec fn spec_is_terminal(&self) -> bool {
        *self is Complete || *self is Cancelled || *self is Failed
    }

    /// Utility method for terminal query execution status.
    /// The three terminal states are complete, cancelled and failed.
    #[verifier::when_used_as_spec(spec_is_terminal)]
    pub fn is_terminal(&self) -> (terminal: bool)
        ensures
            terminal == self.spec_is_terminal(),
    {
        match self {
            ExecutionStatus::Complete => true,
            ExecutionStatus::Cancelled => true,
            ExecutionStatus::Failed => true,
            ExecutionStatus::Executing => false,
            ExecutionStatus::Pending => false,
        }
    }
}

impl core::str::FromStr for ExecutionStatus {
    type Err = String;

    /// Reads a state from its wire value, as the method of the same name
    /// on the type does.
    fn from_str(input: &str) -> (outcome: Result<ExecutionStatus, String>)
        ensures
            ExecutionStatus::parsed(input@, outcome),
    {
        ExecutionStatus::from_str(input)
    }
}

/// Returned from a call to `DuneClient::cancel_execution`.
#[derive(Debug)]
pub struct CancellationResponse {
    /// true when cancellation was successful, otherwise false.
    pub success: bool,
}

/// Meta content returned optionally with [`GetStatusResponse`]
/// and always contained in [`ExecutionResult`].
#[derive(Debug)]
pub struct ResultMetaData {
    pub column_names: Vec<String>,
    pub result_set_bytes: u16,
    pub total_row_count: u32,
    pub datapoint_count: u32,
    pub pending_time_millis: Option<u32>,
    pub execution_time_millis: u32,
}

/// Nested inside [`GetStatusResponse`] and [`GetResultResponse`].
/// Contains several UTC timestamps related to the query execution.
#[derive(Debug)]
pub struct ExecutionTimes {
    /// Time when query execution was submitted.
    pub submitted_at: UtcDateTime,
    /// Time when execution results will no longer be stored on Dune servers.
    /// None when query execution has not yet completed.
    pub expires_at: Option<UtcDateTime>,
    /// Time when query execution began.
    /// Differs from `submitted_at` if execution was pending in the queue.
    pub execution_started_at: Option<UtcDateTime>,
    /// Time that query execution completed.
    pub execution_ended_at: Option<UtcDateTime>,
    /// Time that query execution was cancelled.
    pub cancelled_at: Option<UtcDateTime>,
}

/// Returned by a successful call to `DuneClient::get_status`.
/// Indicates the current state of execution along with some metadata.
#[derive(Debug)]
pub struct GetStatusResponse {
    pub execution_id: String,
    pub query_id: u32,
    pub state: ExecutionStatus,
    pub times: ExecutionTimes,
    /// If the query state is Pending,
    /// then there will be an associated integer indicating queue position.
    pub queue_position: Option<u32>,
    /// This field will be non-empty once query execution has completed.
    pub result_metadata: Option<ResultMetaData>,
}

/// Contains the query results along with some additional metadata.
/// This struct is nested inside [`GetResultResponse`] as the `result` field.
#[derive(Debug)]
pub struct ExecutionResult<T> {
    pub rows: Vec<T>,
    pub metadata: ResultMetaData,
}

/// Returned by a successful call to `DuneClient::get_results`.
/// Contains similar information to [`GetStatusResponse`]
/// except that [`ResultMetaData`] is contained within the `result` field.
#[derive(Debug)]
pub struct GetResultResponse<T> {
    pub execution_id: String,
    pub query_id: u32,
    pub state: ExecutionStatus,
    pub times: ExecutionTimes,
    pub result: ExecutionResult<T>,
}

impl<T> GetResultResponse<T> {
    /// Convenience method for fetching the "deeply" nested `rows` of the result response.
    pub fn get_rows(self) -> (rows: Vec<T>)
        ensures
            rows == self.result.rows,
    {
        self.result.rows
    }
}

} // verus!
