use crate::client::DuneClient;
use crate::error::DuneRequestError;
use crate::parameters::Parameter;
use crate::response::{ExecutionResponse, GetResultResponse, GetStatusResponse};
use vstd::prelude::*;

verus! {

/// The seconds between two checks of the status where the caller names none.
pub const DEFAULT_PING_FREQUENCY: u64 = 5;

/// What a refresh has asked for last, and so what it waits for.
#[derive(Debug)]
pub enum RefreshState {
    /// The execution of the query was asked for.
    Submitting,
    /// The status of the execution was asked for.
    Polling { job_id: String },
    /// A pause before the next check of the status was asked for.
    Sleeping { job_id: String },
    /// The results of the execution were asked for.
    Fetching { job_id: String },
    /// The refresh has returned.
    Done,
}

/// What a refresh asks its caller to do next.
#[derive(Debug)]
pub enum RefreshAction<T> {
    /// Execute the query with these parameters.
    Execute { query_id: u32, parameters: Option<Vec<Parameter>> },
    /// Get the status of the execution.
    GetStatus { job_id: String },
    /// Sleep for this many seconds.
    Sleep { seconds: u64 },
    /// Get the results of the execution.
    GetResults { job_id: String },
    /// Return this outcome: the refresh is over.
    Return { outcome: Result<GetResultResponse<T>, DuneRequestError> },
}

/// What came of the action that a refresh asked for.
#[derive(Debug)]
pub enum RefreshEvent<T> {
    /// The answer to `Execute`.
    Executed(Result<ExecutionResponse, DuneRequestError>),
    /// The answer to `GetStatus`.
    Status(Result<GetStatusResponse, DuneRequestError>),
    /// The pause asked for by `Sleep` is over.
    Slept,
    /// The answer to `GetResults`.
    Results(Result<GetResultResponse<T>, DuneRequestError>),
}

/// The plan of a refresh: execute a query, wait for the execution to reach
/// a terminal state, then fetch its results.
///
/// The plan performs nothing itself. It names one action at a time; the
/// caller performs the action and hands back what came of it, and the plan
/// names the next, until it names `Return`.
#[derive(Debug)]
pub struct Refresh {
    /// The seconds to sleep between two checks of the status.
    pub ping_frequency: u64,
    /// What was asked for last.
    pub state: RefreshState,
}

impl Refresh {
    /// The pause between two checks that a caller's choice comes to.
    pub open spec fn frequency(ping_frequency: Option<u64>) -> u64 {
        match ping_frequency {
            Some(seconds) => seconds,
            None => DEFAULT_PING_FREQUENCY,
        }
    }

    /// The plan at its start, and its first action: to execute the query.
    pub open spec fn started<T>(
        query_id: u32,
        parameters: Option<Vec<Parameter>>,
        ping_frequency: Option<u64>,
    ) -> (Refresh, RefreshAction<T>) {
        (
            Refresh {
                ping_frequency: Self::frequency(ping_frequency),
                state: RefreshState::Submitting,
            },
            RefreshAction::Execute { query_id, parameters },
        )
    }

    /// The plan in a later state, with its pause unchanged.
    pub open spec fn moved_to(self, state: RefreshState) -> Refresh {
        Refresh { ping_frequency: self.ping_frequency, state }
    }

    /// The plan after an event, and the action that it names then; nothing
    /// where the event does not answer what the plan asked for last.
    ///
    /// - Once the execution is accepted, its status is asked for.
    /// - A status that is not terminal is followed by a pause of the ping
    ///   frequency, and the pause by the next check of the status.
    /// - At the first terminal status, be it complete, cancelled or
    ///   failed, the results are asked for, once, and whatever comes of
    ///   that is returned.
    /// - The first error of any step is returned at once.
    pub open spec fn next<T>(self, event: RefreshEvent<T>) -> Option<(Refresh, RefreshAction<T>)> {
        match (self.state, event) {
            (RefreshState::Submitting, RefreshEvent::Executed(Ok(accepted))) => Some(
                (
                    self.moved_to(RefreshState::Polling { job_id: accepted.execution_id }),
                    RefreshAction::GetStatus { job_id: accepted.execution_id },
                ),
            ),
            (RefreshState::Submitting, RefreshEvent::Executed(Err(error))) => Some(
                (self.moved_to(RefreshState::Done), RefreshAction::Return { outcome: Err(error) }),
            ),
            (RefreshState::Polling { job_id }, RefreshEvent::Status(Ok(status))) => Some(
                if status.state.is_terminal() {
                    (
                        self.moved_to(RefreshState::Fetching { job_id }),
                        RefreshAction::GetResults { job_id },
                    )
                } else {
                    (
                        self.moved_to(RefreshState::Sleeping { job_id }),
                        RefreshAction::Sleep { seconds: self.ping_frequency },
                    )
                },
            ),
            (RefreshState::Polling { .. }, RefreshEvent::Status(Err(error))) => Some(
                (self.moved_to(RefreshState::Done), RefreshAction::Return { outcome: Err(error) }),
            ),
            (RefreshState::Sleeping { job_id }, RefreshEvent::Slept) => Some(
                (
                    self.moved_to(RefreshState::Polling { job_id }),
                    RefreshAction::GetStatus { job_id },
                ),
            ),
            (RefreshState::Fetching { .. }, RefreshEvent::Results(outcome)) => Some(
                (self.moved_to(RefreshState::Done), RefreshAction::Return { outcome }),
            ),
            _ => None,
        }
    }

    /// Whether an event answers what the plan asked for last.
    pub open spec fn spec_expects<T>(&self, event: &RefreshEvent<T>) -> bool {
        self.next(*event) is Some
    }

    /// Tells whether an event answers what the plan asked for last.
    #[verifier::when_used_as_spec(spec_expects)]
    pub fn expects<T>(&self, event: &RefreshEvent<T>) -> (expected: bool)
        ensures
            expected == self.spec_expects(event),
    {
        match (&self.state, event) {
            (RefreshState::Submitting, RefreshEvent::Executed(_)) => true,
            (RefreshState::Polling { .. }, RefreshEvent::Status(_)) => true,
            (RefreshState::Sleeping { .. }, RefreshEvent::Slept) => true,
            (RefreshState::Fetching { .. }, RefreshEvent::Results(_)) => true,
            _ => false,
        }
    }

    /// Whether the plan has returned.
    pub open spec fn spec_is_done(&self) -> bool {
        self.state is Done
    }

    /// Tells whether the plan has returned.
    #[verifier::when_used_as_spec(spec_is_done)]
    pub fn is_done(&self) -> (done: bool)
        ensures
            done == self.spec_is_done(),
    {
        match &self.state {
            RefreshState::Done => true,
            _ => false,
        }
    }

    /// Takes the event that answers the last action, and names the next
    /// action. An event that answers something else is handed back with
    /// the plan, both unchanged.
    pub fn step<T>(self, event: RefreshEvent<T>) -> (next: Result<
        (Refresh, RefreshAction<T>),
        (Refresh, RefreshEvent<T>),
    >)
        ensures
            next == (match self.next(event) {
                Some(moved) => Ok(moved),
                None => Err((self, event)),
            }),
    {
        let ping_frequency = self.ping_frequency;
        match (self.state, event) {
            (RefreshState::Submitting, RefreshEvent::Executed(Ok(accepted))) => {
                let job_id = accepted.execution_id;
                Ok(
                    (
                        Refresh {
                            ping_frequency,
                            state: RefreshState::Polling { job_id: job_id.clone() },
                        },
                        RefreshAction::GetStatus { job_id },
                    ),
                )
            },
            (RefreshState::Submitting, RefreshEvent::Executed(Err(error))) => Ok(
                (
                    Refresh { ping_frequency, state: RefreshState::Done },
                    RefreshAction::Return { outcome: Err(error) },
                ),
            ),
            (RefreshState::Polling { job_id }, RefreshEvent::Status(Ok(status))) => {
                if status.state.is_terminal() {
                    Ok(
                        (
                            Refresh {
                                ping_frequency,
                                state: RefreshState::Fetching { job_id: job_id.clone() },
                            },
                            RefreshAction::GetResults { job_id },
                        ),
                    )
                } else {
                    Ok(
                        (
                            Refresh { ping_frequency, state: RefreshState::Sleeping { job_id } },
                            RefreshAction::Sleep { seconds: ping_frequency },
                        ),
                    )
                }
            },
            (RefreshState::Polling { .. }, RefreshEvent::Status(Err(error))) => Ok(
                (
                    Refresh { ping_frequency, state: RefreshState::Done },
                    RefreshAction::Return { outcome: Err(error) },
                ),
            ),
            (RefreshState::Sleeping { job_id }, RefreshEvent::Slept) => Ok(
                (
                    Refresh {
                        ping_frequency,
                        state: RefreshState::Polling { job_id: job_id.clone() },
                    },
                    RefreshAction::GetStatus { job_id },
                ),
            ),
            (RefreshState::Fetching { .. }, RefreshEvent::Results(outcome)) => Ok(
                (
                    Refresh { ping_frequency, state: RefreshState::Done },
                    RefreshAction::Return { outcome },
                ),
            ),
            (state, event) => Err((Refresh { ping_frequency, state }, event)),
        }
    }
}

impl Refresh {
    /// Where the plan stands after the events of a script have reached it
    /// in turn, and the actions that it named on the way, in order; nothing
    /// where some event did not answer the action before it.
    pub open spec fn run<T>(self, events: Seq<RefreshEvent<T>>) -> Option<
        (Refresh, Seq<RefreshAction<T>>),
    >
        decreases events.len(),
    {
        if events.len() == 0 {
            Some((self, Seq::empty()))
        } else {
            match self.next(events[0]) {
                None => None,
                Some((moved, action)) => match moved.run(events.drop_first()) {
                    None => None,
                    Some((end, later)) => Some((end, seq![action] + later)),
                },
            }
        }
    }

    /// What reaches the plan while the execution runs on: each status
    /// seen, and after each the end of the pause that followed it.
    pub open spec fn waiting_events<T>(statuses: Seq<GetStatusResponse>) -> Seq<RefreshEvent<T>>
        decreases statuses.len(),
    {
        if statuses.len() == 0 {
            Seq::empty()
        } else {
            seq![RefreshEvent::Status(Ok(statuses[0])), RefreshEvent::Slept]
                + Self::waiting_events(statuses.drop_first())
        }
    }

    /// A number of rounds of waiting: a pause, then a check of the status.
    pub open spec fn waiting_actions<T>(job_id: String, seconds: u64, rounds: nat) -> Seq<
        RefreshAction<T>,
    >
        decreases rounds,
    {
        if rounds == 0 {
            Seq::empty()
        } else {
            seq![RefreshAction::Sleep { seconds }, RefreshAction::GetStatus { job_id }]
                + Self::waiting_actions(job_id, seconds, (rounds - 1) as nat)
        }
    }

    /// A script in two parts runs as its first part, then its second from
    /// where the first ended.
    pub proof fn lemma_run_in_parts<T>(
        self,
        first: Seq<RefreshEvent<T>>,
        second: Seq<RefreshEvent<T>>,
    )
        ensures
            self.run(first + second) == (match self.run(first) {
                None => None,
                Some((middle, early)) => match middle.run(second) {
                    None => None,
                    Some((end, late)) => Some((end, early + late)),
                },
            }),
        decreases first.len(),
    {
        if first.len() == 0 {
            assert(first + second =~= second);
            match self.run(second) {
                None => {},
                Some((end, late)) => {
                    assert(Seq::<RefreshAction<T>>::empty() + late =~= late);
                },
            }
        } else {
            let whole = first + second;
            assert(whole[0] == first[0]);
            assert(whole.drop_first() =~= first.drop_first() + second);
            match self.next(first[0]) {
                None => {},
                Some((moved, action)) => {
                    moved.lemma_run_in_parts(first.drop_first(), second);
                    match moved.run(first.drop_first()) {
                        None => {},
                        Some((middle, early)) => {
                            match middle.run(second) {
                                None => {},
                                Some((end, late)) => {
                                    assert(seq![action] + (early + late) =~= (seq![action] + early)
                                        + late);
                                },
                            }
                        },
                    }
                },
            }
        }
    }

    /// While every status seen is short of terminal, a plan that has asked
    /// for the status pauses and asks again, once for each status, and
    /// stands at the end where it stood.
    pub proof fn lemma_waits_while_not_terminal<T>(self, statuses: Seq<GetStatusResponse>)
        requires
            self.state is Polling,
            forall|i: int| 0 <= i < statuses.len() ==> !(#[trigger] statuses[i]).state.is_terminal(),
        ensures
            self.run(Self::waiting_events::<T>(statuses)) == Some(
                (
                    self,
                    Self::waiting_actions::<T>(
                        self.state->Polling_job_id,
                        self.ping_frequency,
                        statuses.len(),
                    ),
                ),
            ),
        decreases statuses.len(),
    {
        if statuses.len() > 0 {
            let job_id = self.state->Polling_job_id;
            let events = Self::waiting_events::<T>(statuses);
            let rest = Self::waiting_events::<T>(statuses.drop_first());
            let head: Seq<RefreshEvent<T>> = seq![
                RefreshEvent::Status(Ok(statuses[0])),
                RefreshEvent::Slept,
            ];
            assert(!statuses[0].state.is_terminal());
            let paused = self.moved_to(RefreshState::Sleeping { job_id });
            assert(self.next(head[0]) == Some(
                (paused, RefreshAction::<T>::Sleep { seconds: self.ping_frequency }),
            ));
            assert(paused.next(head[1]) == Some((self, RefreshAction::<T>::GetStatus { job_id })));
            assert(head.drop_first().drop_first() =~= Seq::empty());
            assert(head.drop_first()[0] == head[1]);
            assert(self.run(Seq::<RefreshEvent<T>>::empty()) == Some(
                (self, Seq::<RefreshAction<T>>::empty()),
            ));
            assert(paused.run(head.drop_first()) == Some(
                (self, seq![RefreshAction::<T>::GetStatus { job_id }] + Seq::empty()),
            ));
            assert(self.run(head) == Some(
                (
                    self,
                    seq![RefreshAction::<T>::Sleep { seconds: self.ping_frequency }] + (seq![
                        RefreshAction::<T>::GetStatus { job_id },
                    ] + Seq::empty()),
                ),
            ));
            assert forall|i: int| 0 <= i < statuses.drop_first().len() implies !(
            #[trigger] statuses.drop_first()[i]).state.is_terminal() by {
                assert(statuses.drop_first()[i] == statuses[i + 1]);
            }
            self.lemma_waits_while_not_terminal::<T>(statuses.drop_first());
            self.lemma_run_in_parts(head, rest);
            assert(seq![RefreshAction::<T>::Sleep { seconds: self.ping_frequency }] + (seq![
                RefreshAction::<T>::GetStatus { job_id },
            ] + Seq::empty()) + Self::waiting_actions::<T>(
                job_id,
                self.ping_frequency,
                (statuses.len() - 1) as nat,
            ) =~= Self::waiting_actions::<T>(job_id, self.ping_frequency, statuses.len()));
        }
    }

    /// A refresh whose execution is accepted, and whose status is seen short
    /// of terminal any number of times and then terminal, asks in this
    /// order and asks nothing else: for the status; for a pause of the ping
    /// frequency and the status again, once for each status short of
    /// terminal; for the results, once; and then it returns what came of
    /// asking for the results, whichever terminal state was seen.
    pub proof fn lemma_refresh_polls_until_terminal<T>(
        query_id: u32,
        parameters: Option<Vec<Parameter>>,
        ping_frequency: Option<u64>,
        accepted: ExecutionResponse,
        waiting: Seq<GetStatusResponse>,
        settled: GetStatusResponse,
        outcome: Result<GetResultResponse<T>, DuneRequestError>,
    )
        requires
            forall|i: int| 0 <= i < waiting.len() ==> !(#[trigger] waiting[i]).state.is_terminal(),
            settled.state.is_terminal(),
        ensures
            Self::started::<T>(query_id, parameters, ping_frequency).0.run(
                seq![RefreshEvent::Executed(Ok(accepted))] + Self::waiting_events(waiting) + seq![
                    RefreshEvent::Status(Ok(settled)),
                    RefreshEvent::Results(outcome),
                ],
            ) == Some(
                (
                    Refresh {
                        ping_frequency: Self::frequency(ping_frequency),
                        state: RefreshState::Done,
                    },
                    seq![RefreshAction::GetStatus { job_id: accepted.execution_id }]
                        + Self::waiting_actions(
                        accepted.execution_id,
                        Self::frequency(ping_frequency),
                        waiting.len(),
                    ) + seq![
                        RefreshAction::GetResults { job_id: accepted.execution_id },
                        RefreshAction::Return { outcome },
                    ],
                ),
            ),
    {
        let job_id = accepted.execution_id;
        let seconds = Self::frequency(ping_frequency);
        let start = Self::started::<T>(query_id, parameters, ping_frequency).0;
        let polling = start.moved_to(RefreshState::Polling { job_id });
        let fetching = start.moved_to(RefreshState::Fetching { job_id });
        let done = start.moved_to(RefreshState::Done);
        let first: Seq<RefreshEvent<T>> = seq![RefreshEvent::Executed(Ok(accepted))];
        let middle = Self::waiting_events::<T>(waiting);
        let last: Seq<RefreshEvent<T>> = seq![
            RefreshEvent::Status(Ok(settled)),
            RefreshEvent::Results(outcome),
        ];
        let empty_events = Seq::<RefreshEvent<T>>::empty();
        let no_actions = Seq::<RefreshAction<T>>::empty();

        assert(first.drop_first() =~= empty_events);
        assert(polling.run(empty_events) == Some((polling, no_actions)));
        assert(start.run(first) == Some(
            (polling, seq![RefreshAction::<T>::GetStatus { job_id }] + no_actions),
        ));

        polling.lemma_waits_while_not_terminal::<T>(waiting);

        assert(last.drop_first()[0] == last[1]);
        assert(last.drop_first().drop_first() =~= empty_events);
        assert(done.run(empty_events) == Some((done, no_actions)));
        assert(fetching.next(last[1]) == Some((done, RefreshAction::Return { outcome })));
        assert(fetching.run(last.drop_first()) == Some(
            (done, seq![RefreshAction::Return { outcome }] + no_actions),
        ));
        assert(polling.next(last[0]) == Some(
            (fetching, RefreshAction::<T>::GetResults { job_id }),
        ));
        assert(polling.run(last) == Some(
            (
                done,
                seq![RefreshAction::<T>::GetResults { job_id }] + (seq![
                    RefreshAction::Return { outcome },
                ] + no_actions),
            ),
        ));

        polling.lemma_run_in_parts(middle, last);
        start.lemma_run_in_parts(first, middle + last);
        assert(first + middle + last =~= first + (middle + last));
        assert((seq![RefreshAction::<T>::GetStatus { job_id }] + no_actions) + (
        Self::waiting_actions::<T>(job_id, seconds, waiting.len()) + (seq![
            RefreshAction::<T>::GetResults { job_id },
        ] + (seq![RefreshAction::Return { outcome }] + no_actions))) =~= seq![
            RefreshAction::<T>::GetStatus { job_id },
        ] + Self::waiting_actions::<T>(job_id, seconds, waiting.len()) + seq![
            RefreshAction::<T>::GetResults { job_id },
            RefreshAction::Return { outcome },
        ]);
    }

    /// The first error of any step ends the refresh: it is returned as it
    /// came, and nothing more is asked for.
    pub proof fn lemma_first_error_is_returned<T>(self, event: RefreshEvent<T>, error: DuneRequestError)
        requires
            self.expects(&event),
            event == RefreshEvent::<T>::Executed(Err(error)) || event == RefreshEvent::<T>::Status(
                Err(error),
            ) || event == RefreshEvent::<T>::Results(Err(error)),
        ensures
            self.next(event) == Some(
                (
                    self.moved_to(RefreshState::Done),
                    RefreshAction::<T>::Return { outcome: Err(error) },
                ),
            ),
    {
    }

    /// The results are asked for only on a terminal status, and for the
    /// execution whose status it is.
    pub proof fn lemma_results_follow_a_terminal_status<T>(
        self,
        event: RefreshEvent<T>,
        job_id: String,
    )
        requires
            self.next(event) matches Some((_, action)) && action == (RefreshAction::<
                T,
            >::GetResults { job_id }),
        ensures
            self.state == (RefreshState::Polling { job_id }),
            event matches RefreshEvent::Status(Ok(status)) && status.state.is_terminal(),
    {
    }

    /// A plan that has returned expects nothing more.
    pub proof fn lemma_done_expects_nothing<T>(self, event: RefreshEvent<T>)
        requires
            self.is_done(),
        ensures
            !self.expects(&event),
    {
    }
}

impl DuneClient {
    /// Convenience method for users to
    /// 1. execute,
    /// 2. wait for execution to complete,
    /// 3. fetch and return query results.
    ///
    /// Returns the plan of these steps together with its first action.
    /// # Arguments
    /// * `query_id` - an integer representing query ID
    ///   (found at the end of a Dune Query URL: [https://dune.com/queries/971694](https://dune.com/queries/971694))
    /// * `parameters` - an optional list of query `Parameter`
    ///   (cf. [https://dune.xyz/queries/3238619](https://dune.xyz/queries/3238619))
    /// * `ping_frequency` - how frequently (in seconds) should the loop check execution status.
    ///   Default is 5 seconds. Too frequently could result in rate limiting
    ///   (i.e. Too Many Requests) especially when executing multiple queries in parallel.
    pub fn refresh<T>(
        &self,
        query_id: u32,
        parameters: Option<Vec<Parameter>>,
        ping_frequency: Option<u64>,
    ) -> (plan: (Refresh, RefreshAction<T>))
        ensures
            plan == Refresh::started::<T>(query_id, parameters, ping_frequency),
    {
        let seconds = match ping_frequency {
            Some(seconds) => seconds,
            None => DEFAULT_PING_FREQUENCY,
        };
        (
            Refresh { ping_frequency: seconds, state: RefreshState::Submitting },
            RefreshAction::Execute { query_id, parameters },
        )
    }
}

} // verus!
