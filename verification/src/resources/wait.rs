//! Waiting for a server to reach a state, or to leave one.
//!
//! The wait is a loop of rounds. Each round first holds the time that has
//! passed against the deadline, then reads the server afresh, then decides:
//! done, failed, or sleep and go round again. The decisions are made here;
//! reading the clock, fetching and sleeping are the caller's part.

use vstd::prelude::*;
use crate::client::{Client, RequestEnvelope, Method};
use crate::error::SdkError;
use crate::resources::server::server_path;
use crate::types::server::ServerDetails;

verus! {

/// Seconds to sleep between two reads.
pub const POLL_INTERVAL_SECS: u64 = 5;

/// Nanoseconds in [`POLL_INTERVAL_SECS`].
pub const POLL_INTERVAL_NANOS: u128 = 5_000_000_000;

/// What is waited for, and for how long.
#[derive(Debug)]
pub struct StateWait {
    /// The server that is watched.
    pub uuid: String,
    /// The wait is over as soon as the server is in this state.
    pub desired_state: Option<String>,
    /// Failing that, the wait is over as soon as the server is in any state
    /// but this one.
    pub undesired_state: Option<String>,
    /// Time after which the wait is given up, in nanoseconds since it began.
    pub timeout_nanos: u128,
}

/// What the caller does next.
#[derive(Debug)]
pub enum PollStep {
    /// Read the server and report what came back.
    Fetch,
    /// Sleep for so many seconds, then report the time that has passed.
    Sleep { secs: u64 },
    /// The wait is over: the server was seen in an accepted state.
    Done(ServerDetails),
    /// The wait is over without success.
    Failed(SdkError),
}

/// One round as the world presents it: the time that had passed when the
/// round began, and what a read of the server gives in that round.
pub struct Round {
    pub elapsed_nanos: u128,
    pub fetched: Result<ServerDetails, SdkError>,
}

impl StateWait {
    /// Whether a server in `state` ends the wait.
    ///
    /// The desired state ends it; so does every state other than the
    /// undesired one. With neither given, no state ends it.
    pub open spec fn accepts(&self, state: Seq<char>) -> bool {
        ||| (self.desired_state matches Some(desired) && desired@ == state)
        ||| (self.undesired_state matches Some(undesired) && undesired@ != state)
    }

    /// The step at the start of a round.
    pub open spec fn spec_on_elapsed(&self, elapsed_nanos: u128) -> PollStep {
        if elapsed_nanos > self.timeout_nanos {
            PollStep::Failed(SdkError::Timeout)
        } else {
            PollStep::Fetch
        }
    }

    /// The step after a read.
    pub open spec fn spec_on_fetched(&self, fetched: Result<ServerDetails, SdkError>) -> PollStep {
        match fetched {
            Err(error) => PollStep::Failed(error),
            Ok(details) => if self.accepts(details.server.state@) {
                PollStep::Done(details)
            } else {
                PollStep::Sleep { secs: POLL_INTERVAL_SECS }
            },
        }
    }

    /// The step a whole round ends in: never `Fetch`.
    pub open spec fn round(&self, round: Round) -> PollStep {
        match self.spec_on_elapsed(round.elapsed_nanos) {
            PollStep::Fetch => self.spec_on_fetched(round.fetched),
            step => step,
        }
    }

    /// How the wait ends on the given rounds; `None` if it is still going on
    /// after the last of them.
    pub open spec fn outcome(&self, rounds: Seq<Round>) -> Option<Result<ServerDetails, SdkError>>
        decreases rounds.len(),
    {
        if rounds.len() == 0 {
            None
        } else {
            match self.round(rounds[0]) {
                PollStep::Done(details) => Some(Ok(details)),
                PollStep::Failed(error) => Some(Err(error)),
                _ => self.outcome(rounds.drop_first()),
            }
        }
    }

    /// How often the caller is told to sleep on the given rounds.
    pub open spec fn sleeps(&self, rounds: Seq<Round>) -> nat
        decreases rounds.len(),
    {
        if rounds.len() == 0 {
            0
        } else {
            match self.round(rounds[0]) {
                PollStep::Sleep { .. } => 1 + self.sleeps(rounds.drop_first()),
                _ => 0,
            }
        }
    }

    /// How often the server is read on the given rounds.
    pub open spec fn fetches(&self, rounds: Seq<Round>) -> nat
        decreases rounds.len(),
    {
        if rounds.len() == 0 {
            0
        } else if self.spec_on_elapsed(rounds[0].elapsed_nanos) is Fetch {
            match self.round(rounds[0]) {
                PollStep::Sleep { .. } => 1 + self.fetches(rounds.drop_first()),
                _ => 1,
            }
        } else {
            0
        }
    }

    /// A wait for the server `uuid`.
    pub fn new(
        uuid: &str,
        desired_state: Option<&str>,
        undesired_state: Option<&str>,
        timeout_nanos: u128,
    ) -> (wait: StateWait)
        ensures
            wait.uuid@ == uuid@,
            wait.timeout_nanos == timeout_nanos,
            desired_state is None <==> wait.desired_state is None,
            desired_state matches Some(state) ==> wait.desired_state->0@ == state@,
            undesired_state is None <==> wait.undesired_state is None,
            undesired_state matches Some(state) ==> wait.undesired_state->0@ == state@,
    {
        let desired = match desired_state {
            Some(state) => Some(String::from_str(state)),
            None => None,
        };
        let undesired = match undesired_state {
            Some(state) => Some(String::from_str(state)),
            None => None,
        };
        StateWait {
            uuid: String::from_str(uuid),
            desired_state: desired,
            undesired_state: undesired,
            timeout_nanos,
        }
    }

    /// The read of a round: `GET /server/{uuid}` for the watched server. The
    /// wait never prepares any other call.
    pub fn fetch(&self, client: &Client) -> (req: RequestEnvelope)
        ensures
            req@ == client.call(Method::Get, server_path(self.uuid@), None),
    {
        client.get_server(self.uuid.as_str())
    }

    /// Whether a server in `state` ends the wait.
    pub fn is_accepted(&self, state: &String) -> (accepted: bool)
        ensures
            accepted == self.accepts(state@),
    {
        let wanted = match &self.desired_state {
            Some(desired) => *desired == *state,
            None => false,
        };
        if wanted {
            true
        } else {
            match &self.undesired_state {
                Some(undesired) => !(*undesired == *state),
                None => false,
            }
        }
    }

    /// Starts a round, `elapsed_nanos` nanoseconds into the wait: past the
    /// deadline the wait fails with a timeout, else the server is read.
    pub fn on_elapsed(&self, elapsed_nanos: u128) -> (step: PollStep)
        ensures
            step == self.spec_on_elapsed(elapsed_nanos),
    {
        if elapsed_nanos > self.timeout_nanos {
            PollStep::Failed(SdkError::Timeout)
        } else {
            PollStep::Fetch
        }
    }

    /// Ends a round with what the read gave: an error ends the wait as it is,
    /// an accepted state ends it with the snapshot, any other state sends the
    /// caller to sleep.
    pub fn on_fetched(&self, fetched: Result<ServerDetails, SdkError>) -> (step: PollStep)
        ensures
            step == self.spec_on_fetched(fetched),
    {
        match fetched {
            Err(error) => PollStep::Failed(error),
            Ok(details) => {
                if self.is_accepted(&details.server.state) {
                    PollStep::Done(details)
                } else {
                    PollStep::Sleep { secs: POLL_INTERVAL_SECS }
                }
            },
        }
    }
}

/// The two constants name the same interval.
pub proof fn lemma_interval_units()
    ensures
        POLL_INTERVAL_NANOS == POLL_INTERVAL_SECS * 1_000_000_000,
{
}

/// A wait whose first read shows the desired state is over in the first
/// round: it returns that snapshot, after one read and without any sleep.
pub proof fn lemma_desired_state_at_once(wait: StateWait, rounds: Seq<Round>)
    requires
        rounds.len() > 0,
        rounds[0].elapsed_nanos <= wait.timeout_nanos,
        rounds[0].fetched is Ok,
        wait.desired_state matches Some(desired) && desired@
            == rounds[0].fetched->Ok_0.server.state@,
    ensures
        wait.outcome(rounds) == Some(Ok::<ServerDetails, SdkError>(rounds[0].fetched->Ok_0)),
        wait.sleeps(rounds) == 0,
        wait.fetches(rounds) == 1,
{
}

/// With the desired state and the undesired state both given, the desired
/// one decides first: a server in the desired state ends the wait whatever
/// the undesired state is.
pub proof fn lemma_desired_state_has_priority(wait: StateWait, state: Seq<char>)
    requires
        wait.desired_state matches Some(desired) && desired@ == state,
    ensures
        wait.accepts(state),
{
}

/// A wait with neither state given accepts nothing.
pub proof fn lemma_nothing_to_wait_for(wait: StateWait, state: Seq<char>)
    requires
        wait.desired_state is None,
        wait.undesired_state is None,
    ensures
        !wait.accepts(state),
{
}

/// A wait shorter than the sleep between two reads times out if the server
/// never shows an accepted state: given that each round starts at least one
/// sleep after the one before, two rounds are enough for the wait to end, it
/// ends in a timeout, and the server was read at most once.
pub proof fn lemma_short_wait_times_out(wait: StateWait, rounds: Seq<Round>)
    requires
        wait.timeout_nanos < POLL_INTERVAL_NANOS,
        rounds.len() >= 2,
        forall|i: int|
            0 <= i < rounds.len() ==> (#[trigger] rounds[i]).fetched is Ok && !wait.accepts(
                rounds[i].fetched->Ok_0.server.state@,
            ),
        forall|i: int|
            0 <= i < rounds.len() - 1 ==> (#[trigger] rounds[i + 1]).elapsed_nanos
                >= rounds[i].elapsed_nanos + POLL_INTERVAL_NANOS,
    ensures
        wait.outcome(rounds) == Some(Err::<ServerDetails, SdkError>(SdkError::Timeout)),
        wait.fetches(rounds) <= 1,
        wait.sleeps(rounds) <= 1,
{
    let rest = rounds.drop_first();
    assert(rest[0] == rounds[0int + 1]);
    assert(rounds[0].fetched is Ok);
    assert(rest[0].elapsed_nanos > wait.timeout_nanos);
    assert(wait.round(rest[0]) == PollStep::Failed(SdkError::Timeout));
    assert(wait.outcome(rest) == Some(Err::<ServerDetails, SdkError>(SdkError::Timeout)));
    assert(wait.sleeps(rest) == 0);
    assert(wait.fetches(rest) == 0);
}

/// The wait ends in the first round that does not send the caller to sleep,
/// and with what that round ends in. Up to there the caller slept once per
/// round and read the server once per round, the last round included unless
/// it began past the deadline.
pub proof fn lemma_wait_ends_in_first_final_round(wait: StateWait, rounds: Seq<Round>, last: int)
    requires
        0 <= last < rounds.len(),
        forall|j: int| 0 <= j < last ==> wait.round(#[trigger] rounds[j]) is Sleep,
        !(wait.round(rounds[last]) is Sleep),
    ensures
        wait.round(rounds[last]) matches PollStep::Done(details) ==> wait.outcome(rounds) == Some(
            Ok::<ServerDetails, SdkError>(details),
        ),
        wait.round(rounds[last]) matches PollStep::Failed(error) ==> wait.outcome(rounds) == Some(
            Err::<ServerDetails, SdkError>(error),
        ),
        wait.round(rounds[last]) is Done || wait.round(rounds[last]) is Failed,
        wait.sleeps(rounds) == last,
        wait.fetches(rounds) == if rounds[last].elapsed_nanos > wait.timeout_nanos {
            last
        } else {
            last + 1
        },
    decreases last,
{
    if last > 0 {
        let rest = rounds.drop_first();
        assert forall|j: int| 0 <= j < last - 1 implies wait.round(#[trigger] rest[j]) is Sleep by {
            assert(rest[j] == rounds[j + 1]);
        }
        assert(rest[last - 1] == rounds[last]);
        assert(wait.round(rounds[0]) is Sleep);
        lemma_wait_ends_in_first_final_round(wait, rest, last - 1);
    }
}

/// As long as every round sends the caller to sleep the wait goes on: it has
/// no outcome yet, and the caller has slept and read once per round.
pub proof fn lemma_wait_goes_on(wait: StateWait, rounds: Seq<Round>)
    requires
        forall|j: int| 0 <= j < rounds.len() ==> wait.round(#[trigger] rounds[j]) is Sleep,
    ensures
        wait.outcome(rounds) is None,
        wait.sleeps(rounds) == rounds.len(),
        wait.fetches(rounds) == rounds.len(),
    decreases rounds.len(),
{
    if rounds.len() > 0 {
        let rest = rounds.drop_first();
        assert forall|j: int| 0 <= j < rest.len() implies wait.round(#[trigger] rest[j]) is Sleep by {
            assert(rest[j] == rounds[j + 1]);
        }
        assert(wait.round(rounds[0]) is Sleep);
        lemma_wait_goes_on(wait, rest);
    }
}

/// A wait that succeeds returns a snapshot that was read in one of its
/// rounds, before the deadline, and whose state is accepted: the wait only
/// observes, and hands on what it saw.
pub proof fn lemma_success_is_an_accepted_snapshot(wait: StateWait, rounds: Seq<Round>)
    requires
        wait.outcome(rounds) matches Some(Ok(_)),
    ensures
        exists|i: int|
            0 <= i < rounds.len() && (#[trigger] rounds[i]).elapsed_nanos <= wait.timeout_nanos
                && rounds[i].fetched == Ok::<ServerDetails, SdkError>(
                wait.outcome(rounds)->0->Ok_0,
            ) && wait.accepts(wait.outcome(rounds)->0->Ok_0.server.state@),
    decreases rounds.len(),
{
    if rounds.len() > 0 {
        if wait.round(rounds[0]) is Sleep {
            let rest = rounds.drop_first();
            lemma_success_is_an_accepted_snapshot(wait, rest);
            let i = choose|i: int|
                0 <= i < rest.len() && (#[trigger] rest[i]).elapsed_nanos <= wait.timeout_nanos
                    && rest[i].fetched == Ok::<ServerDetails, SdkError>(
                    wait.outcome(rest)->0->Ok_0,
                ) && wait.accepts(wait.outcome(rest)->0->Ok_0.server.state@);
            assert(rest[i] == rounds[i + 1]);
        } else {
            assert(rounds[0].elapsed_nanos <= wait.timeout_nanos);
        }
    }
}

/// A wait that fails either saw the deadline pass at the start of a round,
/// or hands on the error of a read, unchanged.
pub proof fn lemma_failure_is_timeout_or_read_error(wait: StateWait, rounds: Seq<Round>)
    requires
        wait.outcome(rounds) matches Some(Err(_)),
    ensures
        exists|i: int|
            0 <= i < rounds.len() && {
                ||| ((#[trigger] rounds[i]).elapsed_nanos > wait.timeout_nanos && wait.outcome(
                    rounds,
                ) == Some(Err::<ServerDetails, SdkError>(SdkError::Timeout)))
                ||| (rounds[i].elapsed_nanos <= wait.timeout_nanos && rounds[i].fetched
                    == Err::<ServerDetails, SdkError>(wait.outcome(rounds)->0->Err_0))
            },
    decreases rounds.len(),
{
    if rounds.len() > 0 {
        if wait.round(rounds[0]) is Sleep {
            let rest = rounds.drop_first();
            lemma_failure_is_timeout_or_read_error(wait, rest);
            let i = choose|i: int|
                0 <= i < rest.len() && {
                    ||| ((#[trigger] rest[i]).elapsed_nanos > wait.timeout_nanos && wait.outcome(
                        rest,
                    ) == Some(Err::<ServerDetails, SdkError>(SdkError::Timeout)))
                    ||| (rest[i].elapsed_nanos <= wait.timeout_nanos && rest[i].fetched
                        == Err::<ServerDetails, SdkError>(wait.outcome(rest)->0->Err_0))
                };
            assert(rest[i] == rounds[i + 1]);
        } else {
            assert(0 <= 0 < rounds.len());
        }
    }
}

/// However long the wait and whatever the rounds, a wait that never sees an
/// accepted state and never fails to read does not end in success.
pub proof fn lemma_no_success_without_accepted_state(wait: StateWait, rounds: Seq<Round>)
    requires
        forall|i: int|
            0 <= i < rounds.len() ==> (#[trigger] rounds[i]).fetched is Ok && !wait.accepts(
                rounds[i].fetched->Ok_0.server.state@,
            ),
    ensures
        wait.outcome(rounds) is None || wait.outcome(rounds) == Some(
            Err::<ServerDetails, SdkError>(SdkError::Timeout),
        ),
    decreases rounds.len(),
{
    if rounds.len() > 0 {
        let rest = rounds.drop_first();
        assert forall|i: int| 0 <= i < rest.len() implies (#[trigger] rest[i]).fetched is Ok
            && !wait.accepts(rest[i].fetched->Ok_0.server.state@) by {
            assert(rest[i] == rounds[i + 1]);
        }
        lemma_no_success_without_accepted_state(wait, rest);
    }
}

} // verus!
