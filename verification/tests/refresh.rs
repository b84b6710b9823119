use duners::client::DuneClient;
use duners::dateutil::UtcDateTime;
use duners::error::DuneRequestError;
use duners::parameters::Parameter;
use duners::refresh::{Refresh, RefreshAction, RefreshEvent, RefreshState, DEFAULT_PING_FREQUENCY};
use duners::response::{
    ExecutionResponse, ExecutionResult, ExecutionStatus, ExecutionTimes, GetResultResponse,
    GetStatusResponse, ResultMetaData,
};

const JOB_ID: &str = "01K9QTN27XQTXQV59BKBJ4GKFW";

#[derive(Debug, PartialEq)]
struct Block {
    number: u64,
    time: u64,
}

fn times() -> ExecutionTimes {
    ExecutionTimes {
        submitted_at: UtcDateTime::default(),
        expires_at: None,
        execution_started_at: None,
        execution_ended_at: None,
        cancelled_at: None,
    }
}

fn accepted(state: ExecutionStatus) -> ExecutionResponse {
    ExecutionResponse {
        execution_id: JOB_ID.to_string(),
        state,
    }
}

fn status(state: ExecutionStatus) -> GetStatusResponse {
    GetStatusResponse {
        execution_id: JOB_ID.to_string(),
        query_id: 3238189,
        state,
        times: times(),
        queue_position: None,
        result_metadata: None,
    }
}

fn results(state: ExecutionStatus, rows: Vec<Block>) -> GetResultResponse<Block> {
    let count = rows.len() as u32;
    GetResultResponse {
        execution_id: JOB_ID.to_string(),
        query_id: 3238189,
        state,
        times: times(),
        result: ExecutionResult {
            rows,
            metadata: ResultMetaData {
                column_names: vec!["number".to_string(), "time".to_string()],
                result_set_bytes: 48,
                total_row_count: count,
                datapoint_count: 2 * count,
                pending_time_millis: None,
                execution_time_millis: 12,
            },
        },
    }
}

fn blocks() -> Vec<Block> {
    vec![
        Block {
            number: 5,
            time: 1438270083,
        },
        Block {
            number: 6,
            time: 1438270107,
        },
        Block {
            number: 7,
            time: 1438270110,
        },
    ]
}

/// What the actions of a refresh are called, for comparing runs.
fn name<T>(action: &RefreshAction<T>) -> String {
    match action {
        RefreshAction::Execute {
            query_id,
            parameters,
        } => format!(
            "execute {query_id} with {} parameters",
            parameters.as_ref().map(|list| list.len()).unwrap_or(0)
        ),
        RefreshAction::GetStatus { job_id } => format!("status of {job_id}"),
        RefreshAction::Sleep { seconds } => format!("sleep {seconds}"),
        RefreshAction::GetResults { job_id } => format!("results of {job_id}"),
        RefreshAction::Return { outcome } => match outcome {
            Ok(_) => "return results".to_string(),
            Err(error) => format!("return {error:?}"),
        },
    }
}

/// Runs a refresh against a script of events and gives the names of the
/// actions taken, the first included, with the last action itself.
fn run(
    ping_frequency: Option<u64>,
    events: Vec<RefreshEvent<Block>>,
) -> (Vec<String>, Refresh, RefreshAction<Block>) {
    let dune = DuneClient::new("key");
    let (mut plan, mut action) = dune.refresh::<Block>(
        3238189,
        Some(vec![
            Parameter::number("Start", "5"),
            Parameter::number("Width", "2"),
        ]),
        ping_frequency,
    );
    let mut names = vec![name(&action)];
    for event in events {
        assert!(plan.expects(&event));
        assert!(!plan.is_done());
        match plan.step(event) {
            Ok((moved, next)) => {
                plan = moved;
                action = next;
            }
            Err(_) => panic!("the event was not taken"),
        }
        names.push(name(&action));
    }
    (names, plan, action)
}

#[test]
fn default_ping_frequency_is_five_seconds() {
    assert_eq!(DEFAULT_PING_FREQUENCY, 5);
    let dune = DuneClient::new("key");
    let (plan, _) = dune.refresh::<Block>(1, None, None);
    assert_eq!(plan.ping_frequency, 5);
    let (plan, _) = dune.refresh::<Block>(1, None, Some(1));
    assert_eq!(plan.ping_frequency, 1);
    let (plan, _) = dune.refresh::<Block>(1, None, Some(0));
    assert_eq!(plan.ping_frequency, 0);
}

#[test]
fn refresh_starts_by_executing_the_query() {
    let dune = DuneClient::new("key");
    let (plan, action) = dune.refresh::<Block>(
        1215383,
        Some(vec![Parameter::number("NumberField", "3.141592653589793")]),
        None,
    );
    assert!(matches!(plan.state, RefreshState::Submitting));
    match action {
        RefreshAction::Execute {
            query_id,
            parameters,
        } => {
            assert_eq!(query_id, 1215383);
            assert_eq!(
                parameters,
                Some(vec![Parameter::number("NumberField", "3.141592653589793")])
            );
        }
        other => panic!("unexpected first action: {}", name(&other)),
    }
}

#[test]
fn refresh_of_a_complete_execution_fetches_at_once() {
    let (names, plan, action) = run(
        None,
        vec![
            RefreshEvent::Executed(Ok(accepted(ExecutionStatus::Pending))),
            RefreshEvent::Status(Ok(status(ExecutionStatus::Complete))),
            RefreshEvent::Results(Ok(results(ExecutionStatus::Complete, blocks()))),
        ],
    );
    assert_eq!(
        names,
        vec![
            "execute 3238189 with 2 parameters",
            "status of 01K9QTN27XQTXQV59BKBJ4GKFW",
            "results of 01K9QTN27XQTXQV59BKBJ4GKFW",
            "return results",
        ]
    );
    assert!(plan.is_done());
    match action {
        RefreshAction::Return { outcome } => {
            let response = outcome.unwrap();
            assert_eq!(
                response.result.rows.len() as u32,
                response.result.metadata.total_row_count
            );
            assert_eq!(response.get_rows(), blocks());
        }
        other => panic!("unexpected last action: {}", name(&other)),
    }
}

#[test]
fn refresh_sleeps_between_checks_until_a_terminal_state() {
    let (names, plan, action) = run(
        Some(1),
        vec![
            RefreshEvent::Executed(Ok(accepted(ExecutionStatus::Pending))),
            RefreshEvent::Status(Ok(status(ExecutionStatus::Pending))),
            RefreshEvent::Slept,
            RefreshEvent::Status(Ok(status(ExecutionStatus::Executing))),
            RefreshEvent::Slept,
            RefreshEvent::Status(Ok(status(ExecutionStatus::Executing))),
            RefreshEvent::Slept,
            RefreshEvent::Status(Ok(status(ExecutionStatus::Complete))),
            RefreshEvent::Results(Ok(results(ExecutionStatus::Complete, blocks()))),
        ],
    );
    assert_eq!(
        names,
        vec![
            "execute 3238189 with 2 parameters",
            "status of 01K9QTN27XQTXQV59BKBJ4GKFW",
            "sleep 1",
            "status of 01K9QTN27XQTXQV59BKBJ4GKFW",
            "sleep 1",
            "status of 01K9QTN27XQTXQV59BKBJ4GKFW",
            "sleep 1",
            "status of 01K9QTN27XQTXQV59BKBJ4GKFW",
            "results of 01K9QTN27XQTXQV59BKBJ4GKFW",
            "return results",
        ]
    );
    assert!(plan.is_done());
    match action {
        RefreshAction::Return { outcome } => assert_eq!(outcome.unwrap().get_rows(), blocks()),
        other => panic!("unexpected last action: {}", name(&other)),
    }
}

#[test]
fn refresh_sleeps_the_default_where_no_frequency_is_given() {
    let (names, _, _) = run(
        None,
        vec![
            RefreshEvent::Executed(Ok(accepted(ExecutionStatus::Executing))),
            RefreshEvent::Status(Ok(status(ExecutionStatus::Executing))),
        ],
    );
    assert_eq!(names.last().unwrap(), "sleep 5");
}

#[test]
fn refresh_observes_a_cancelled_execution_and_fetches() {
    let (names, plan, action) = run(
        Some(2),
        vec![
            RefreshEvent::Executed(Ok(accepted(ExecutionStatus::Pending))),
            RefreshEvent::Status(Ok(status(ExecutionStatus::Executing))),
            RefreshEvent::Slept,
            RefreshEvent::Status(Ok(status(ExecutionStatus::Cancelled))),
            RefreshEvent::Results(Ok(results(ExecutionStatus::Cancelled, vec![]))),
        ],
    );
    assert_eq!(
        names,
        vec![
            "execute 3238189 with 2 parameters",
            "status of 01K9QTN27XQTXQV59BKBJ4GKFW",
            "sleep 2",
            "status of 01K9QTN27XQTXQV59BKBJ4GKFW",
            "results of 01K9QTN27XQTXQV59BKBJ4GKFW",
            "return results",
        ]
    );
    assert!(plan.is_done());
    match action {
        RefreshAction::Return { outcome } => {
            let response = outcome.unwrap();
            assert_eq!(response.state, ExecutionStatus::Cancelled);
            assert!(response.get_rows().is_empty());
        }
        other => panic!("unexpected last action: {}", name(&other)),
    }
}

#[test]
fn refresh_of_a_failed_execution_still_fetches_and_passes_the_outcome_on() {
    let (names, plan, action) = run(
        None,
        vec![
            RefreshEvent::Executed(Ok(accepted(ExecutionStatus::Pending))),
            RefreshEvent::Status(Ok(status(ExecutionStatus::Failed))),
            RefreshEvent::Results(Err(DuneRequestError::Dune("no results".to_string()))),
        ],
    );
    assert_eq!(
        names,
        vec![
            "execute 3238189 with 2 parameters",
            "status of 01K9QTN27XQTXQV59BKBJ4GKFW",
            "results of 01K9QTN27XQTXQV59BKBJ4GKFW",
            "return Dune(\"no results\")",
        ]
    );
    assert!(plan.is_done());
    match action {
        RefreshAction::Return { outcome } => assert_eq!(
            outcome.unwrap_err(),
            DuneRequestError::Dune("no results".to_string())
        ),
        other => panic!("unexpected last action: {}", name(&other)),
    }
}

#[test]
fn refresh_returns_the_error_of_the_submission() {
    let (names, plan, _) = run(
        None,
        vec![RefreshEvent::Executed(Err(DuneRequestError::Dune(
            "invalid API Key".to_string(),
        )))],
    );
    assert_eq!(
        names,
        vec![
            "execute 3238189 with 2 parameters",
            "return Dune(\"invalid API Key\")",
        ]
    );
    assert!(plan.is_done());
}

#[test]
fn refresh_returns_the_error_of_a_status_check() {
    let (names, plan, _) = run(
        None,
        vec![
            RefreshEvent::Executed(Ok(accepted(ExecutionStatus::Pending))),
            RefreshEvent::Status(Ok(status(ExecutionStatus::Pending))),
            RefreshEvent::Slept,
            RefreshEvent::Status(Err(DuneRequestError::Request(
                "error sending request".to_string(),
            ))),
        ],
    );
    assert_eq!(
        names,
        vec![
            "execute 3238189 with 2 parameters",
            "status of 01K9QTN27XQTXQV59BKBJ4GKFW",
            "sleep 5",
            "status of 01K9QTN27XQTXQV59BKBJ4GKFW",
            "return Request(\"error sending request\")",
        ]
    );
    assert!(plan.is_done());
}

#[test]
fn refresh_hands_back_an_event_that_answers_nothing() {
    let dune = DuneClient::new("key");
    let (plan, _) = dune.refresh::<Block>(1, None, Some(3));
    assert!(!plan.expects(&RefreshEvent::<Block>::Slept));
    assert!(!plan.expects(&RefreshEvent::<Block>::Status(Ok(status(
        ExecutionStatus::Complete
    )))));
    assert!(!plan.expects(&RefreshEvent::Results(Ok(results(
        ExecutionStatus::Complete,
        blocks()
    )))));
    let (plan, event) = plan.step(RefreshEvent::<Block>::Slept).unwrap_err();
    assert!(matches!(plan.state, RefreshState::Submitting));
    assert_eq!(plan.ping_frequency, 3);
    assert!(matches!(event, RefreshEvent::Slept));

    let (plan, _) = plan
        .step(RefreshEvent::<Block>::Executed(Ok(accepted(
            ExecutionStatus::Pending,
        ))))
        .unwrap();
    assert!(!plan.expects(&RefreshEvent::<Block>::Slept));
    assert!(!plan.expects(&RefreshEvent::<Block>::Executed(Ok(accepted(
        ExecutionStatus::Pending
    )))));
    let (plan, event) = plan
        .step(RefreshEvent::Results(Ok(results(
            ExecutionStatus::Complete,
            blocks(),
        ))))
        .unwrap_err();
    match &plan.state {
        RefreshState::Polling { job_id } => assert_eq!(job_id, JOB_ID),
        other => panic!("unexpected state: {other:?}"),
    }
    match event {
        RefreshEvent::Results(Ok(response)) => assert_eq!(response.get_rows(), blocks()),
        other => panic!("unexpected event: {other:?}"),
    }
}

#[test]
fn refresh_that_has_returned_takes_no_event() {
    let (_, plan, _) = run(
        None,
        vec![RefreshEvent::Executed(Err(DuneRequestError::Dune(
            "invalid API Key".to_string(),
        )))],
    );
    assert!(plan.is_done());
    assert!(!plan.expects(&RefreshEvent::<Block>::Slept));
    assert!(!plan.expects(&RefreshEvent::<Block>::Executed(Ok(accepted(
        ExecutionStatus::Pending
    )))));
    assert!(!plan.expects(&RefreshEvent::<Block>::Status(Ok(status(
        ExecutionStatus::Pending
    )))));
    assert!(!plan.expects(&RefreshEvent::Results(Ok(results(
        ExecutionStatus::Complete,
        blocks()
    )))));
    assert!(plan.step(RefreshEvent::<Block>::Slept).is_err());
}
