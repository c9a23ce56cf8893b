//! Two refreshes at once: whatever the order in which their questions reach the store, the
//! same refresh token is never rotated twice, and where both find what they need to rotate
//! it, it is rotated once.

use vstd::prelude::*;

use crate::claims::RefreshClaimsView;
use crate::database::{Role, SessionView};
use crate::errors::ErrorKind;
use crate::extractors::{spec_presented, AuthenticatedView};
use crate::refresh::{
    spec_begin_refresh,
    spec_conclude,
    spec_fetch,
    spec_perform,
    spec_refresh_step,
    RefreshActionView,
    RefreshEventView,
    RefreshStateView,
};
use crate::session::{spec_delete, spec_swap, StoreOutcome};
use crate::signin::{spec_mint_claims, spec_mint_tokens, TokenPairView};
use crate::token::{KeyView, VerificationError};

verus! {

/// One refresh among others that share a store: where its machine stands, what it has asked
/// for last, and the moment it runs at.
pub ghost struct RefreshRun {
    pub state: RefreshStateView,
    pub pending: RefreshActionView,
    pub now: int,
}

impl RefreshRun {
    /// The run has answered its caller.
    pub open spec fn answered(self) -> bool {
        self.pending is Respond
    }

    /// The run has answered its caller with new tokens.
    pub open spec fn succeeded(self) -> bool {
        self.pending matches RefreshActionView::Respond(Ok(_))
    }
}

/// The table and the two runs that work on it.
pub ghost struct Race {
    pub table: Map<Seq<char>, SessionView>,
    pub first: RefreshRun,
    pub second: RefreshRun,
}

/// A run has read its headers and taken its first step.
pub open spec fn spec_started(
    keys: KeyView,
    access: Option<Seq<char>>,
    refresh: Option<Seq<char>>,
    run: RefreshRun,
) -> bool {
    (run.state, run.pending) == spec_begin_refresh(keys, access, refresh)
}

/// A run takes its turn: the store performs what the run asked for, and the run's machine
/// takes its step on the answer.
pub open spec fn spec_turn(
    keys: KeyView,
    table: Map<Seq<char>, SessionView>,
    run: RefreshRun,
    table_after: Map<Seq<char>, SessionView>,
    run_after: RefreshRun,
) -> bool {
    &&& !run.answered()
    &&& run_after.now == run.now
    &&& table_after == spec_perform(table, run.pending).0
    &&& spec_refresh_step(
        keys,
        run.state,
        spec_perform(table, run.pending).1,
        run.now,
        run_after.state,
        run_after.pending,
    )
}

/// One of the two runs takes its turn, and the other stands still.
pub open spec fn spec_race_step(keys: KeyView, before: Race, after: Race) -> bool {
    ||| after.second == before.second && spec_turn(
        keys,
        before.table,
        before.first,
        after.table,
        after.first,
    )
    ||| after.first == before.first && spec_turn(
        keys,
        before.table,
        before.second,
        after.table,
        after.second,
    )
}

/// A course that a race takes: each moment follows from the one before by one run's turn.
pub open spec fn spec_race(keys: KeyView, course: Seq<Race>) -> bool {
    &&& course.len() > 0
    &&& forall|i: int|
        0 <= i < course.len() - 1 ==> spec_race_step(keys, #[trigger] course[i], course[i + 1])
}

/// A rotation at `now` gives the session other refresh claims than the ones presented. It
/// does not in one case: at the very second in which the presented token was minted.
pub open spec fn spec_rotation_changes(claims: RefreshClaimsView, now: int) -> bool {
    match spec_mint_claims(claims.uid, Role::Student, claims.sid, now) {
        Some((_, refresh)) => refresh != claims,
        None => true,
    }
}

/// The session of the presented token has no row, or a row whose refresh token is not the
/// presented one any more.
pub open spec fn spec_rotated_away(
    keys: KeyView,
    claims: RefreshClaimsView,
    table: Map<Seq<char>, SessionView>,
) -> bool {
    !(table.dom().contains(claims.sid) && keys.decode_refresh(table[claims.sid].refresh_token)
        == Ok::<RefreshClaimsView, VerificationError>(claims))
}

spec fn run_on_course(keys: KeyView, claims: RefreshClaimsView, run: RefreshRun) -> bool {
    match run.state {
        RefreshStateView::Start => false,
        RefreshStateView::AwaitingSession { claims: presented } => {
            &&& presented.refresh == claims
            &&& run.pending == (RefreshActionView::Fetch { session_id: claims.sid })
        },
        RefreshStateView::AwaitingSwap { .. } => {
            &&& run.pending matches RefreshActionView::Swap { session_id, expected, new_token }
            &&& session_id == claims.sid
            &&& keys.decode_refresh(expected) == Ok::<RefreshClaimsView, VerificationError>(claims)
            &&& keys.decode_refresh(new_token) != Ok::<RefreshClaimsView, VerificationError>(
                claims,
            )
        },
        RefreshStateView::Revoking => run.pending is Delete,
        RefreshStateView::Finished => run.pending is Respond,
    }
}

spec fn race_on_course(keys: KeyView, claims: RefreshClaimsView, race: Race) -> bool {
    &&& run_on_course(keys, claims, race.first)
    &&& run_on_course(keys, claims, race.second)
    &&& spec_rotation_changes(claims, race.first.now)
    &&& spec_rotation_changes(claims, race.second.now)
    &&& race.first.succeeded() || race.second.succeeded() ==> spec_rotated_away(
        keys,
        claims,
        race.table,
    )
    &&& !(race.first.succeeded() && race.second.succeeded())
}

proof fn lemma_start_is_on_course(
    keys: KeyView,
    access: Option<Seq<char>>,
    refresh: Option<Seq<char>>,
    run: RefreshRun,
)
    requires
        spec_started(keys, access, refresh, run),
    ensures
        run_on_course(keys, keys.decode_refresh(refresh->0)->Ok_0, run),
        !run.succeeded(),
{
}

proof fn lemma_turn_stays_on_course(
    keys: KeyView,
    claims: RefreshClaimsView,
    table: Map<Seq<char>, SessionView>,
    run: RefreshRun,
    table_after: Map<Seq<char>, SessionView>,
    run_after: RefreshRun,
)
    requires
        run_on_course(keys, claims, run),
        spec_rotation_changes(claims, run.now),
        spec_turn(keys, table, run, table_after, run_after),
    ensures
        run_on_course(keys, claims, run_after),
        spec_rotated_away(keys, claims, table) ==> table_after == table || (
        run.state is Revoking && table_after == spec_delete(table, run.pending->session_ids)),
        spec_rotated_away(keys, claims, table) ==> spec_rotated_away(keys, claims, table_after)
            && !run_after.succeeded(),
        run_after.succeeded() ==> spec_rotated_away(keys, claims, table_after),
{
    match run.state {
        RefreshStateView::AwaitingSession { claims: presented } => {
            let fetched = spec_fetch(table, claims.sid);
            assert(spec_perform(table, run.pending).1 == RefreshEventView::Fetched(fetched));
        },
        RefreshStateView::AwaitingSwap { tokens } => {},
        RefreshStateView::Revoking => {},
        _ => {},
    }
}

proof fn lemma_race_stays_on_course(
    keys: KeyView,
    claims: RefreshClaimsView,
    before: Race,
    after: Race,
)
    requires
        race_on_course(keys, claims, before),
        spec_race_step(keys, before, after),
    ensures
        race_on_course(keys, claims, after),
{
    if after.second == before.second && spec_turn(
        keys,
        before.table,
        before.first,
        after.table,
        after.first,
    ) {
        lemma_turn_stays_on_course(
            keys,
            claims,
            before.table,
            before.first,
            after.table,
            after.first,
        );
    } else {
        lemma_turn_stays_on_course(
            keys,
            claims,
            before.table,
            before.second,
            after.table,
            after.second,
        );
    }
}

proof fn lemma_course_stays_on_course(
    keys: KeyView,
    claims: RefreshClaimsView,
    course: Seq<Race>,
    upto: int,
)
    requires
        spec_race(keys, course),
        race_on_course(keys, claims, course[0]),
        0 <= upto < course.len(),
    ensures
        race_on_course(keys, claims, course[upto]),
    decreases upto,
{
    if upto > 0 {
        lemma_course_stays_on_course(keys, claims, course, upto - 1);
        assert(spec_race_step(keys, course[upto - 1], course[upto - 1 + 1]));
        lemma_race_stays_on_course(keys, claims, course[upto - 1], course[upto]);
    }
}

/// Two refreshes that present the same refresh token never both succeed, in whatever order
/// their questions reach the store, with whatever access tokens they come and at whatever
/// moments they run.
///
/// Left out are the moments at which a rotation rotates nothing: the very second in which
/// the presented token was minted.
pub proof fn lemma_two_refreshes_never_both_succeed(
    keys: KeyView,
    first_access: Option<Seq<char>>,
    second_access: Option<Seq<char>>,
    refresh: Option<Seq<char>>,
    course: Seq<Race>,
)
    requires
        spec_race(keys, course),
        spec_started(keys, first_access, refresh, course[0].first),
        spec_started(keys, second_access, refresh, course[0].second),
        keys.decode_refresh(refresh->0) matches Ok(claims) ==> spec_rotation_changes(
            claims,
            course[0].first.now,
        ) && spec_rotation_changes(claims, course[0].second.now),
    ensures
        !(course.last().first.succeeded() && course.last().second.succeeded()),
{
    let claims = keys.decode_refresh(refresh->0)->Ok_0;
    lemma_start_is_on_course(keys, first_access, refresh, course[0].first);
    lemma_start_is_on_course(keys, second_access, refresh, course[0].second);
    if keys.decode_refresh(refresh->0) is Ok {
        lemma_course_stays_on_course(keys, claims, course, course.len() - 1);
    } else {
        lemma_refused_runs_stay_refused(keys, course, course.len() - 1);
    }
}

proof fn lemma_refused_runs_stay_refused(keys: KeyView, course: Seq<Race>, upto: int)
    requires
        spec_race(keys, course),
        course[0].first.answered() && !course[0].first.succeeded(),
        course[0].second.answered() && !course[0].second.succeeded(),
        0 <= upto < course.len(),
    ensures
        course[upto] == course[0],
    decreases upto,
{
    if upto > 0 {
        lemma_refused_runs_stay_refused(keys, course, upto - 1);
        assert(spec_race_step(keys, course[upto - 1], course[upto - 1 + 1]));
    }
}

/// A refresh that presents these claims at `now` finds everything it needs to rotate: the
/// two tokens belong to one session, the session's row holds a token with the refresh
/// claims presented, the refresh token has not expired, the new pair is minted, and the
/// rotation changes the claims.
pub open spec fn spec_can_rotate(
    keys: KeyView,
    claims: AuthenticatedView,
    table: Map<Seq<char>, SessionView>,
    now: int,
) -> bool {
    &&& claims.access.sid == claims.refresh.sid
    &&& table.dom().contains(claims.refresh.sid)
    &&& keys.decode_refresh(table[claims.refresh.sid].refresh_token) == Ok::<
        RefreshClaimsView,
        VerificationError,
    >(claims.refresh)
    &&& claims.refresh.exp >= now
    &&& spec_mint_tokens(keys, claims.refresh.uid, claims.access.rle, claims.refresh.sid, now)
        is Some
    &&& spec_rotation_changes(claims.refresh, now)
}

spec fn run_in_contest(
    keys: KeyView,
    claims: RefreshClaimsView,
    current: Seq<char>,
    run: RefreshRun,
) -> bool {
    match run.state {
        RefreshStateView::Start => false,
        RefreshStateView::AwaitingSession { claims: presented } => {
            &&& presented.refresh == claims
            &&& presented.access.sid == claims.sid
            &&& run.pending == (RefreshActionView::Fetch { session_id: claims.sid })
            &&& claims.exp >= run.now
            &&& spec_mint_tokens(keys, claims.uid, presented.access.rle, claims.sid, run.now)
                is Some
            &&& spec_rotation_changes(claims, run.now)
        },
        RefreshStateView::AwaitingSwap { tokens } => {
            &&& run.pending == (RefreshActionView::Swap {
                session_id: claims.sid,
                expected: current,
                new_token: tokens.refresh_token,
            })
            &&& keys.decode_refresh(tokens.refresh_token) is Ok
            &&& keys.decode_refresh(tokens.refresh_token) != Ok::<
                RefreshClaimsView,
                VerificationError,
            >(claims)
        },
        RefreshStateView::Revoking => run.pending is Delete,
        RefreshStateView::Finished => {
            &&& run.pending is Respond
            &&& run.pending matches RefreshActionView::Respond(Ok(pair))
                ==> keys.decode_refresh(pair.refresh_token) is Ok && keys.decode_refresh(
                pair.refresh_token,
            ) != Ok::<RefreshClaimsView, VerificationError>(claims)
        },
    }
}

spec fn lost(run: RefreshRun) -> bool {
    run.state is Revoking || (run.answered() && !run.succeeded())
}

spec fn won_by(
    keys: KeyView,
    claims: RefreshClaimsView,
    table: Map<Seq<char>, SessionView>,
    winner: RefreshRun,
    loser: RefreshRun,
) -> bool {
    winner.succeeded() ==> {
        &&& !loser.succeeded()
        &&& spec_rotated_away(keys, claims, table)
        &&& table.dom().contains(claims.sid) ==> table[claims.sid].refresh_token
            == winner.pending->Respond_0->Ok_0.refresh_token
    }
}

spec fn contest(
    keys: KeyView,
    claims: RefreshClaimsView,
    current: Seq<char>,
    table: Map<Seq<char>, SessionView>,
    one: RefreshRun,
    other: RefreshRun,
) -> bool {
    &&& keys.decode_refresh(current) == Ok::<RefreshClaimsView, VerificationError>(claims)
    &&& run_in_contest(keys, claims, current, one)
    &&& run_in_contest(keys, claims, current, other)
    &&& !one.succeeded() && !other.succeeded() ==> {
        &&& table.dom().contains(claims.sid)
        &&& table[claims.sid].refresh_token == current
        &&& !lost(one)
        &&& !lost(other)
    }
    &&& won_by(keys, claims, table, one, other)
    &&& won_by(keys, claims, table, other, one)
}

proof fn lemma_turn_keeps_contest(
    keys: KeyView,
    claims: RefreshClaimsView,
    current: Seq<char>,
    table: Map<Seq<char>, SessionView>,
    run: RefreshRun,
    other: RefreshRun,
    table_after: Map<Seq<char>, SessionView>,
    run_after: RefreshRun,
)
    requires
        contest(keys, claims, current, table, run, other),
        spec_turn(keys, table, run, table_after, run_after),
    ensures
        contest(keys, claims, current, table_after, run_after, other),
{
    match run.state {
        RefreshStateView::AwaitingSession { claims: presented } => {
            let fetched = spec_fetch(table, claims.sid);
            assert(spec_perform(table, run.pending).1 == RefreshEventView::Fetched(fetched));
            assert(table_after == table);
        },
        RefreshStateView::AwaitingSwap { tokens } => {
            let swapped = spec_swap(table, claims.sid, current, tokens.refresh_token);
            assert(spec_perform(table, run.pending) == (
                swapped.0,
                RefreshEventView::Swapped(swapped.1),
            ));
        },
        RefreshStateView::Revoking => {
            assert(other.succeeded());
        },
        _ => {},
    }
}

proof fn lemma_course_keeps_contest(
    keys: KeyView,
    claims: RefreshClaimsView,
    current: Seq<char>,
    course: Seq<Race>,
    upto: int,
)
    requires
        spec_race(keys, course),
        contest(keys, claims, current, course[0].table, course[0].first, course[0].second),
        0 <= upto < course.len(),
    ensures
        contest(
            keys,
            claims,
            current,
            course[upto].table,
            course[upto].first,
            course[upto].second,
        ),
    decreases upto,
{
    if upto > 0 {
        lemma_course_keeps_contest(keys, claims, current, course, upto - 1);
        let before = course[upto - 1];
        let after = course[upto];
        assert(spec_race_step(keys, course[upto - 1], course[upto - 1 + 1]));
        if after.second == before.second && spec_turn(
            keys,
            before.table,
            before.first,
            after.table,
            after.first,
        ) {
            lemma_turn_keeps_contest(
                keys,
                claims,
                current,
                before.table,
                before.first,
                before.second,
                after.table,
                after.first,
            );
        } else {
            lemma_turn_keeps_contest(
                keys,
                claims,
                current,
                before.table,
                before.second,
                before.first,
                after.table,
                after.second,
            );
        }
    }
}

/// Of two refreshes that present the current refresh token of a session, and that each find
/// everything they need to rotate it, exactly one succeeds once both have answered, in
/// whatever order their questions reach the store. In the end the session's row holds the
/// refresh token that the winner was given, or the loser has revoked the session.
///
/// Left out, as before, are the moments at which a rotation rotates nothing.
pub proof fn lemma_one_of_two_refreshes_succeeds(
    keys: KeyView,
    first_access: Option<Seq<char>>,
    second_access: Option<Seq<char>>,
    refresh: Option<Seq<char>>,
    course: Seq<Race>,
)
    requires
        spec_race(keys, course),
        spec_started(keys, first_access, refresh, course[0].first),
        spec_started(keys, second_access, refresh, course[0].second),
        spec_presented(keys, first_access, refresh) matches Ok(claims) && spec_can_rotate(
            keys,
            claims,
            course[0].table,
            course[0].first.now,
        ),
        spec_presented(keys, second_access, refresh) matches Ok(claims) && spec_can_rotate(
            keys,
            claims,
            course[0].table,
            course[0].second.now,
        ),
        course.last().first.answered(),
        course.last().second.answered(),
    ensures
        course.last().first.succeeded() != course.last().second.succeeded(),
        ({
            let session_id = keys.decode_refresh(refresh->0)->Ok_0.sid;
            let winner = if course.last().first.succeeded() {
                course.last().first
            } else {
                course.last().second
            };
            !course.last().table.dom().contains(session_id)
                || course.last().table[session_id].refresh_token
                == winner.pending->Respond_0->Ok_0.refresh_token
        }),
{
    let claims = keys.decode_refresh(refresh->0)->Ok_0;
    let current = course[0].table[claims.sid].refresh_token;
    assert(contest(keys, claims, current, course[0].table, course[0].first, course[0].second));
    lemma_course_keeps_contest(keys, claims, current, course, course.len() - 1);
}

/// Of two refreshes that present the same refresh token and have both read the session's
/// row before either wrote to it, the one whose swap reaches the store first succeeds, and
/// the other is refused with a conflict: it is answered with an error, and the store keeps
/// what the first one wrote. Two refreshes never both succeed.
///
/// Left out, again, is a rotation in the very second in which the presented token was
/// minted, after which the row holds the token that it held before.
pub proof fn lemma_concurrent_refresh_has_one_winner(
    keys: KeyView,
    before: Map<Seq<char>, SessionView>,
    first: AuthenticatedView,
    second: AuthenticatedView,
    first_now: int,
    second_now: int,
    first_next: RefreshStateView,
    first_action: RefreshActionView,
    second_next: RefreshStateView,
    second_action: RefreshActionView,
)
    requires
        first.refresh == second.refresh,
        before.dom().contains(first.refresh.sid),
        spec_refresh_step(
            keys,
            RefreshStateView::AwaitingSession { claims: first },
            RefreshEventView::Fetched(Ok(before[first.refresh.sid])),
            first_now,
            first_next,
            first_action,
        ),
        spec_refresh_step(
            keys,
            RefreshStateView::AwaitingSession { claims: second },
            RefreshEventView::Fetched(Ok(before[first.refresh.sid])),
            second_now,
            second_next,
            second_action,
        ),
        first_action is Swap,
        second_action is Swap,
        first_action->new_token != before[first.refresh.sid].refresh_token,
    ensures
        ({
            let won = spec_swap(
                before,
                first_action->Swap_session_id,
                first_action->expected,
                first_action->new_token,
            );
            let lost = spec_swap(
                won.0,
                second_action->Swap_session_id,
                second_action->expected,
                second_action->new_token,
            );
            &&& won.1 == StoreOutcome::Done
            &&& lost.1 == StoreOutcome::Conflict
            &&& lost.0 == won.0
            &&& won.0[first.refresh.sid].refresh_token == first_action->new_token
            &&& spec_conclude(first_next->tokens, won.1) == Ok::<TokenPairView, ErrorKind>(
                first_next->tokens,
            )
            &&& spec_conclude(second_next->tokens, lost.1) == Err::<TokenPairView, ErrorKind>(
                ErrorKind::InternalServerError,
            )
        }),
{
}

} // verus!
