//! The controller that verifies a token against the cached keys and decides
//! whether a failure is worth one refresh of the keys and one more attempt.
//!
//! The controller does no waiting of its own. It is handed events and answers
//! each with the action it wants performed next: read the cached keys,
//! refresh them from the provider, or finish with a result. Whoever drives it
//! performs the action and hands back the event that the action ends in.

use crate::decode::{
    claim_texts, contains_realm, header_is_readable, owned_names, payload_texts,
    round_settles_on, texts_name_realm, RawClaims, RawToken,
};
use crate::error::AuthError;
use jsonwebtoken::{DecodingKey, Header};
use vstd::prelude::*;

verus! {

/// Where a verification stands.
#[derive(Debug, PartialEq)]
pub enum State {
    /// Nothing has been done yet.
    Initial,
    /// The header is decoded; the cached keys are awaited for the first
    /// attempt.
    FirstAttempt { header: Header },
    /// The first attempt failed to decode the token; the cached keys are
    /// awaited once more, to see whether the token is of this realm.
    FirstAttemptFailed { header: Header, failure: AuthError },
    /// A refresh of the keys was asked for and has not ended yet.
    DiscoveryTriggered { header: Header },
    /// The keys were refreshed; they are awaited for the second attempt.
    SecondAttempt { header: Header },
    /// The result has been handed out: after a success, after the second
    /// attempt, or after a failure that no refresh could mend.
    Done,
}

/// What the driver reports to the controller.
pub enum Event<'a> {
    /// The verification is to begin.
    Start,
    /// The cached keys, as they were read just now, in their order.
    Keys(&'a [DecodingKey]),
    /// The refresh of the keys has ended.
    Refreshed,
}

/// What the controller wants done next.
#[derive(Debug, PartialEq)]
pub enum Action {
    /// Read the cached keys and report them.
    ReadKeys,
    /// Refresh the cached keys from the provider and report when that ended.
    Refresh,
    /// The verification has ended with this result.
    Finish(Result<RawClaims, AuthError>),
    /// The event does not fit the state; nothing has changed.
    Unexpected,
}

/// What an event came to once the controller had done its part of the work:
/// the value that the decision rests on.
#[derive(Debug, PartialEq)]
pub enum Observation {
    /// The header was decoded, or not.
    Header(Result<Header, AuthError>),
    /// The token was tried against the keys.
    Attempt(Result<RawClaims, AuthError>),
    /// It was looked up whether the token names this realm as its issuer.
    Realm(bool),
    /// The keys were refreshed.
    Refreshed,
}

/// A verification of one token in progress.
#[derive(Debug, PartialEq)]
pub struct RetryController {
    /// The encoded token.
    pub token: String,
    /// The audiences on whose behalf the token is verified.
    pub expected_audiences: Vec<String>,
    /// The name of the realm whose tokens are trusted here.
    pub realm: String,
    /// Where the verification stands.
    pub state: State,
}

impl State {
    /// How many refreshes a verification in this state can still ask for.
    pub open spec fn refreshes_left(self) -> nat {
        match self {
            State::Initial | State::FirstAttempt { .. } | State::FirstAttemptFailed { .. } => 1,
            _ => 0,
        }
    }

    /// How many attempts against a key set a verification in this state can
    /// still make.
    pub open spec fn attempts_left(self) -> nat {
        match self {
            State::Initial | State::FirstAttempt { .. } => 2,
            State::FirstAttemptFailed { .. }
            | State::DiscoveryTriggered { .. }
            | State::SecondAttempt { .. } => 1,
            State::Done => 0,
        }
    }
}

impl RetryController {
    /// The controller in the state `state`, all else unchanged.
    pub open spec fn at(self, state: State) -> RetryController {
        RetryController {
            token: self.token,
            expected_audiences: self.expected_audiences,
            realm: self.realm,
            state,
        }
    }

    /// The decision: the state that follows and the action asked for, given
    /// the state and what was observed.
    ///
    /// - The header cannot be decoded: finished with that failure.
    /// - The first attempt gives the claims: finished with them.
    /// - The first attempt found no key at all: refresh, whatever the token.
    /// - The first attempt failed to decode the token: the keys are read
    ///   again to look at the issuer. If it names this realm: refresh.
    ///   If not: finished with the failure of the first attempt.
    /// - The first attempt failed otherwise: finished with that failure.
    /// - After the refresh the keys are read and the token is tried once
    ///   more; whatever that gives is the result.
    /// - Anything that does not fit the state changes nothing.
    pub open spec fn next(self, observation: Observation) -> (RetryController, Action) {
        match (self.state, observation) {
            (State::Initial, Observation::Header(Ok(header))) => (
                self.at(State::FirstAttempt { header }),
                Action::ReadKeys,
            ),
            (State::Initial, Observation::Header(Err(failure))) => (
                self.at(State::Done),
                Action::Finish(Err(failure)),
            ),
            (State::FirstAttempt { header }, Observation::Attempt(Ok(claims))) => (
                self.at(State::Done),
                Action::Finish(Ok(claims)),
            ),
            (State::FirstAttempt { header }, Observation::Attempt(Err(failure))) => {
                if failure is NoDecodingKeys {
                    (self.at(State::DiscoveryTriggered { header }), Action::Refresh)
                } else if failure is Decode {
                    (self.at(State::FirstAttemptFailed { header, failure }), Action::ReadKeys)
                } else {
                    (self.at(State::Done), Action::Finish(Err(failure)))
                }
            },
            (State::FirstAttemptFailed { header, failure }, Observation::Realm(named)) => {
                if named {
                    (self.at(State::DiscoveryTriggered { header }), Action::Refresh)
                } else {
                    (self.at(State::Done), Action::Finish(Err(failure)))
                }
            },
            (State::DiscoveryTriggered { header }, Observation::Refreshed) => (
                self.at(State::SecondAttempt { header }),
                Action::ReadKeys,
            ),
            (State::SecondAttempt { header }, Observation::Attempt(outcome)) => (
                self.at(State::Done),
                Action::Finish(outcome),
            ),
            _ => (self, Action::Unexpected),
        }
    }

    /// What doing the controller's part of the work for `event` can come to:
    /// the observations that the event admits in this state.
    ///
    /// - `Start`: the header is decoded exactly where the token has one that
    ///   can be read; a failure is a failure to decode the header.
    /// - `Keys` for an attempt: what a round of attempts against these keys
    ///   settles on; claims are those of the token's own payload.
    /// - `Keys` after a failed first attempt: the token names the realm only
    ///   where there is a key to read it with and the issuer in its payload
    ///   names the realm.
    pub open spec fn admits(self, event: Event, observation: Observation) -> bool {
        match (self.state, event) {
            (State::Initial, Event::Start) => {
                &&& observation is Header
                &&& observation->Header_0 is Ok <==> header_is_readable(self.token@)
                &&& observation->Header_0 is Err ==> observation->Header_0->Err_0 is DecodeHeader
            },
            (State::FirstAttempt { .. }, Event::Keys(keys))
            | (State::SecondAttempt { .. }, Event::Keys(keys)) => {
                &&& observation is Attempt
                &&& round_settles_on(self.token@, keys@.len(), observation->Attempt_0)
                &&& observation->Attempt_0 is Ok ==> claim_texts(observation->Attempt_0->Ok_0)
                    == payload_texts(self.token@)
            },
            (State::FirstAttemptFailed { .. }, Event::Keys(keys)) => {
                &&& observation is Realm
                &&& keys@.len() == 0 ==> !observation->Realm_0
                &&& observation->Realm_0 ==> texts_name_realm(
                    payload_texts(self.token@),
                    self.realm@,
                )
            },
            (State::DiscoveryTriggered { .. }, Event::Refreshed) => observation is Refreshed,
            _ => false,
        }
    }

    /// The event is one that the state waits for.
    pub open spec fn awaits(self, event: Event) -> bool {
        match (self.state, event) {
            (State::Initial, Event::Start) => true,
            (State::FirstAttempt { .. }, Event::Keys(_)) => true,
            (State::FirstAttemptFailed { .. }, Event::Keys(_)) => true,
            (State::SecondAttempt { .. }, Event::Keys(_)) => true,
            (State::DiscoveryTriggered { .. }, Event::Refreshed) => true,
            _ => false,
        }
    }

    /// A verification of `token` on behalf of `expected_audiences`, for an
    /// instance that trusts the realm `realm`, with nothing done yet.
    pub fn new(token: &str, expected_audiences: &[String], realm: &str) -> (controller:
        RetryController)
        ensures
            controller.state is Initial,
            controller.token@ == token@,
            controller.expected_audiences@ == expected_audiences@,
            controller.realm@ == realm@,
    {
        RetryController {
            token: token.to_owned(),
            expected_audiences: owned_names(expected_audiences),
            realm: realm.to_owned(),
            state: State::Initial,
        }
    }

    /// Takes the decision [`Self::next`].
    pub fn advance(self, observation: Observation) -> (out: (RetryController, Action))
        ensures
            out == self.next(observation),
    {
        let RetryController { token, expected_audiences, realm, state } = self;
        let (state, action) = match (state, observation) {
            (State::Initial, Observation::Header(Ok(header))) => (
                State::FirstAttempt { header },
                Action::ReadKeys,
            ),
            (State::Initial, Observation::Header(Err(failure))) => (
                State::Done,
                Action::Finish(Err(failure)),
            ),
            (State::FirstAttempt { header }, Observation::Attempt(Ok(claims))) => (
                State::Done,
                Action::Finish(Ok(claims)),
            ),
            (State::FirstAttempt { header }, Observation::Attempt(Err(failure))) => match failure {
                AuthError::NoDecodingKeys => (State::DiscoveryTriggered { header }, Action::Refresh),
                AuthError::Decode { source } => (
                    State::FirstAttemptFailed { header, failure: AuthError::Decode { source } },
                    Action::ReadKeys,
                ),
                other => (State::Done, Action::Finish(Err(other))),
            },
            (State::FirstAttemptFailed { header, failure }, Observation::Realm(named)) => {
                if named {
                    (State::DiscoveryTriggered { header }, Action::Refresh)
                } else {
                    (State::Done, Action::Finish(Err(failure)))
                }
            },
            (State::DiscoveryTriggered { header }, Observation::Refreshed) => (
                State::SecondAttempt { header },
                Action::ReadKeys,
            ),
            (State::SecondAttempt { header }, Observation::Attempt(outcome)) => (
                State::Done,
                Action::Finish(outcome),
            ),
            (state, _) => (state, Action::Unexpected),
        };
        (RetryController { token, expected_audiences, realm, state }, action)
    }

    /// Does the controller's part of the work for `event` and takes the
    /// decision on what that came to. An event that the state does not wait
    /// for changes nothing.
    ///
    /// - `Start`: the header is decoded.
    /// - `Keys` for an attempt: the token is tried against the keys.
    /// - `Keys` after a failed first attempt: the first key, if there is one,
    ///   serves to read the issuer.
    pub fn step(self, event: Event) -> (out: (RetryController, Action))
        ensures
            self.awaits(event) ==> exists|observation: Observation|
                #[trigger] self.admits(event, observation) && out == self.next(observation),
            !self.awaits(event) ==> out == (self, Action::Unexpected),
    {
        let observation = match (&self.state, event) {
            (State::Initial, Event::Start) => Observation::Header(
                RawToken(self.token.as_str()).decode_header(),
            ),
            (State::FirstAttempt { header }, Event::Keys(keys)) => {
                let outcome = RawToken(self.token.as_str()).decode_and_validate(
                    header,
                    self.expected_audiences.as_slice(),
                    keys,
                );
                Observation::Attempt(outcome)
            },
            (State::SecondAttempt { header }, Event::Keys(keys)) => {
                let outcome = RawToken(self.token.as_str()).decode_and_validate(
                    header,
                    self.expected_audiences.as_slice(),
                    keys,
                );
                Observation::Attempt(outcome)
            },
            (State::FirstAttemptFailed { .. }, Event::Keys(keys)) => {
                let key = if keys.len() == 0 {
                    None
                } else {
                    Some(&keys[0])
                };
                Observation::Realm(contains_realm(key, self.token.as_str(), self.realm.clone()))
            },
            (State::DiscoveryTriggered { .. }, Event::Refreshed) => Observation::Refreshed,
            _ => {
                return (self, Action::Unexpected);
            },
        };
        assert(self.admits(event, observation));
        self.advance(observation)
    }
}

/// How many of `actions` ask for a refresh of the keys.
pub open spec fn refreshes(actions: Seq<Action>) -> nat
    decreases actions.len(),
{
    if actions.len() == 0 {
        0
    } else {
        refreshes(actions.drop_first()) + if actions.first() is Refresh {
            1nat
        } else {
            0nat
        }
    }
}

impl RetryController {
    /// The state that a controller ends in when it is handed `observations`
    /// one after the other, and the actions that it answers them with.
    pub open spec fn run(self, observations: Seq<Observation>) -> (RetryController, Seq<Action>)
        decreases observations.len(),
    {
        if observations.len() == 0 {
            (self, Seq::empty())
        } else {
            let (after, action) = self.next(observations.first());
            let (last, actions) = after.run(observations.drop_first());
            (last, seq![action] + actions)
        }
    }

    /// How many of `observations` are attempts against a key set that the
    /// controller, handed them one after the other, takes up.
    pub open spec fn attempts(self, observations: Seq<Observation>) -> nat
        decreases observations.len(),
    {
        if observations.len() == 0 {
            0
        } else {
            let (after, action) = self.next(observations.first());
            after.attempts(observations.drop_first()) + if observations.first() is Attempt
                && !(action is Unexpected) {
                1nat
            } else {
                0nat
            }
        }
    }
}

/// A verification that is done stays done: whatever is observed, nothing
/// changes and nothing more is asked for.
pub proof fn law_done_is_final(controller: RetryController, observation: Observation)
    requires
        controller.state is Done,
    ensures
        controller.next(observation) == (controller, Action::Unexpected),
{
}

/// Whatever is observed, and in whatever order, one verification asks for at
/// most one refresh of the keys, and for none once it has asked for one.
pub proof fn law_at_most_one_refresh(controller: RetryController, observations: Seq<Observation>)
    ensures
        refreshes(controller.run(observations).1) <= controller.state.refreshes_left() <= 1,
    decreases observations.len(),
{
    if observations.len() > 0 {
        let (after, action) = controller.next(observations.first());
        let (last, actions) = after.run(observations.drop_first());
        law_at_most_one_refresh(after, observations.drop_first());
        let all = seq![action] + actions;
        assert(all.first() == action);
        assert(all.drop_first() == actions);
    }
}

/// Whatever is observed, and in whatever order, one verification tries the
/// token against a key set at most twice, and at most once after a failure.
pub proof fn law_at_most_two_attempts(controller: RetryController, observations: Seq<Observation>)
    ensures
        controller.attempts(observations) <= controller.state.attempts_left() <= 2,
    decreases observations.len(),
{
    if observations.len() > 0 {
        let (after, action) = controller.next(observations.first());
        law_at_most_two_attempts(after, observations.drop_first());
    }
}

/// A header that cannot be decoded ends the verification at once: no keys
/// are read and no refresh is asked for.
pub proof fn law_bad_header_is_final(controller: RetryController, failure: AuthError)
    requires
        controller.state is Initial,
    ensures
        controller.next(Observation::Header(Err(failure))) == (
            controller.at(State::Done),
            Action::Finish(Err(failure)),
        ),
{
}

/// A first attempt that verifies the token ends the verification with the
/// claims that were decoded, and no refresh is asked for.
pub proof fn law_first_success_is_final(controller: RetryController, claims: RawClaims)
    requires
        controller.state is FirstAttempt,
    ensures
        controller.next(Observation::Attempt(Ok(claims))) == (
            controller.at(State::Done),
            Action::Finish(Ok(claims)),
        ),
{
}

/// A token that no cached key could decode, and whose issuer does not name
/// this realm, is turned down with the failure of the first attempt, and no
/// refresh is asked for: whatever keys are reported for the look at the
/// issuer, and whatever that look comes to.
pub proof fn law_foreign_issuer_is_not_retried(
    controller: RetryController,
    failure: AuthError,
    keys: &[DecodingKey],
    observation: Observation,
)
    requires
        controller.state is FirstAttempt,
        failure is Decode,
        !texts_name_realm(payload_texts(controller.token@), controller.realm@),
        controller.next(Observation::Attempt(Err(failure))).0.admits(
            Event::Keys(keys),
            observation,
        ),
    ensures
        ({
            let (failed, first) = controller.next(Observation::Attempt(Err(failure)));
            let (done, second) = failed.next(observation);
            &&& first is ReadKeys
            &&& failed.state is FirstAttemptFailed
            &&& second == Action::Finish(Err(failure))
            &&& done.state is Done
        }),
{
}

/// A token that no cached key could decode, but of which a look without a
/// check of the signature gave claims whose issuer names this realm, has the
/// keys refreshed exactly once and is then tried once more; what the second
/// attempt gives, claims or failure, is the result, and the first failure is
/// dropped.
pub proof fn law_own_realm_is_retried_once(
    controller: RetryController,
    failure: AuthError,
    peeked: RawClaims,
    second_outcome: Result<RawClaims, AuthError>,
)
    requires
        controller.state is FirstAttempt,
        failure is Decode,
        texts_name_realm(claim_texts(peeked), controller.realm@),
    ensures
        ({
            let named = texts_name_realm(claim_texts(peeked), controller.realm@);
            let (failed, first) = controller.next(Observation::Attempt(Err(failure)));
            let (triggered, second) = failed.next(Observation::Realm(named));
            let (retrying, third) = triggered.next(Observation::Refreshed);
            let (done, fourth) = retrying.next(Observation::Attempt(second_outcome));
            &&& first is ReadKeys
            &&& second is Refresh
            &&& triggered.state is DiscoveryTriggered
            &&& third is ReadKeys
            &&& retrying.state is SecondAttempt
            &&& fourth == Action::Finish(second_outcome)
            &&& done.state is Done
        }),
{
}

/// With no cached key at all the keys are refreshed, exactly once and
/// without a look at the issuer, and the token is then tried once more; what
/// the second attempt gives is the result.
pub proof fn law_no_keys_is_retried_once(
    controller: RetryController,
    named: bool,
    second_outcome: Result<RawClaims, AuthError>,
)
    requires
        controller.state is FirstAttempt,
    ensures
        ({
            let (triggered, first) = controller.next(
                Observation::Attempt(Err(AuthError::NoDecodingKeys)),
            );
            let (retrying, second) = triggered.next(Observation::Refreshed);
            let (done, third) = retrying.next(Observation::Attempt(second_outcome));
            &&& first is Refresh
            &&& triggered.state is DiscoveryTriggered
            &&& triggered.next(Observation::Realm(named)) == (triggered, Action::Unexpected)
            &&& second is ReadKeys
            &&& retrying.state is SecondAttempt
            &&& third == Action::Finish(second_outcome)
            &&& done.state is Done
        }),
{
}

/// An empty key set, reported for the first attempt, can come to one thing
/// only: the request to refresh the keys.
pub proof fn law_empty_cache_forces_refresh(
    controller: RetryController,
    keys: &[DecodingKey],
    observation: Observation,
)
    requires
        controller.state is FirstAttempt,
        keys@.len() == 0,
        controller.admits(Event::Keys(keys), observation),
    ensures
        controller.next(observation).1 is Refresh,
        controller.next(observation).0.state is DiscoveryTriggered,
{
}

/// With no key to read the issuer with, a failed first attempt is final.
pub proof fn law_no_key_to_peek_with_is_final(
    controller: RetryController,
    keys: &[DecodingKey],
    observation: Observation,
)
    requires
        controller.state is FirstAttemptFailed,
        keys@.len() == 0,
        controller.admits(Event::Keys(keys), observation),
    ensures
        controller.next(observation).1 == Action::Finish(
            Err(controller.state->FirstAttemptFailed_failure),
        ),
        controller.next(observation).0.state is Done,
{
}

/// Each action leaves the controller waiting for the event that the action
/// ends in: after `ReadKeys` for the keys, after `Refresh` for the end of the
/// refresh; `Finish` comes with the state `Done`; and `Unexpected` leaves the
/// controller as it was.
pub proof fn law_each_action_is_awaited(
    controller: RetryController,
    observation: Observation,
    keys: &[DecodingKey],
)
    ensures
        ({
            let (after, action) = controller.next(observation);
            &&& action is ReadKeys ==> after.awaits(Event::Keys(keys))
            &&& action is Refresh ==> after.awaits(Event::Refreshed)
            &&& action is Finish ==> after.state is Done
            &&& action is Unexpected ==> after == controller
        }),
{
}

/// An event that the controller waits for is taken up: whatever it comes to,
/// the answer is not `Unexpected`. A driver that begins with `Start` and
/// then reports what each action ended in is therefore never told so.
pub proof fn law_awaited_events_are_taken_up(
    controller: RetryController,
    event: Event,
    observation: Observation,
)
    requires
        controller.admits(event, observation),
    ensures
        controller.awaits(event),
        !(controller.next(observation).1 is Unexpected),
{
}

/// A controller that has done nothing waits for `Start`.
pub proof fn law_a_new_controller_awaits_the_start(controller: RetryController)
    requires
        controller.state is Initial,
    ensures
        controller.awaits(Event::Start),
{
}

} // verus!
