//! Properties of the relay engine as a whole, stated over the specifications
//! that the executable functions meet, and proved.
use vstd::prelude::*;

use crate::content::relay_line;
use crate::relay::{
    facts_stars, follow_up_of, plan_matches, relay_rule, relay_state_after, CreationFollowUp, RelayFacts,
    RelayPlan, RelayRule,
};
use crate::store::{expired_at, has_key, in_force, inserted, unique_keys, StarboardEntry};

verus! {

/// The star count after a reaction is added (`false`) or removed (`true`).
pub open spec fn count_after(count: nat, is_removal: bool) -> nat {
    if is_removal {
        (count - 1) as nat
    } else {
        count + 1
    }
}

/// A run of reaction events that real users can produce from `count` stars: no
/// removal while the count is 0.
pub open spec fn well_paired(count: nat, events: Seq<bool>) -> bool
    decreases events.len(),
{
    events.len() == 0 || ((!events[0] || count > 0) && well_paired(
        count_after(count, events[0]),
        events.drop_first(),
    ))
}

/// The star count at the end of a run of events.
pub open spec fn final_count(count: nat, events: Seq<bool>) -> nat
    decreases events.len(),
{
    if events.len() == 0 {
        count
    } else {
        final_count(count_after(count, events[0]), events.drop_first())
    }
}

/// The watch state after handling a run of events one at a time, each against
/// the count that holds once it has happened.
pub open spec fn replay(shown: Option<nat>, count: nat, threshold: nat, events: Seq<bool>) -> Option<nat>
    decreases events.len(),
{
    if events.len() == 0 {
        shown
    } else {
        let next = count_after(count, events[0]);
        replay(
            relay_state_after(shown, next, threshold, events[0]),
            next,
            threshold,
            events.drop_first(),
        )
    }
}

/// The watch state that a count settles on: a relay showing the count while
/// it is at or above the threshold, none below it.
pub open spec fn settled(count: nat, threshold: nat) -> Option<nat> {
    if count >= threshold {
        Some(count)
    } else {
        None
    }
}

proof fn lemma_replay_settles(shown: Option<nat>, count: nat, threshold: nat, events: Seq<bool>)
    requires
        threshold > 0,
        shown == settled(count, threshold),
        well_paired(count, events),
    ensures
        replay(shown, count, threshold, events) == settled(final_count(count, events), threshold),
    decreases events.len(),
{
    if events.len() > 0 {
        let next = count_after(count, events[0]);
        assert(relay_state_after(shown, next, threshold, events[0]) == settled(next, threshold));
        lemma_replay_settles(settled(next, threshold), next, threshold, events.drop_first());
    }
}

/// The watch state after carrying out a plan made at a count of `stars`.
pub open spec fn state_after_plan(shown: Option<nat>, r: RelayPlan, stars: nat) -> Option<nat> {
    match r {
        RelayPlan::Create { .. } => Some(stars),
        RelayPlan::Update { .. } => Some(stars),
        RelayPlan::Retract { .. } => None,
        _ => shown,
    }
}

/// The facts of a star event in a guild whose starboard is on and resolvable,
/// whose source message is there, and where the NSFW guard does not refuse,
/// with `shown` the watch state that the store reflects.
pub open spec fn ordinary_facts(f: RelayFacts, shown: Option<nat>) -> bool {
    &&& f.config matches Some(c) && c.wf()
    &&& f.relay_channel_found
    &&& !(f.source_nsfw && !f.relay_nsfw)
    &&& f.source is Some
    &&& (shown is Some) == (f.relayed is Some)
}

/// The plans of `quote_reaction` move the watch state exactly as the
/// transition table does, and a created or edited relay shows the count.
pub proof fn lemma_plans_follow_table(r: RelayPlan, f: RelayFacts, shown: Option<nat>)
    requires
        plan_matches(r, f),
        ordinary_facts(f, shown),
    ensures
        state_after_plan(shown, r, facts_stars(f)) == relay_state_after(
            shown,
            facts_stars(f),
            f.config->0.threshold as nat,
            f.event.is_removal,
        ),
        r matches RelayPlan::Create { content, .. } ==> content.text@ == relay_line(
            facts_stars(f) as u64,
            f.event.channel_id,
            f.event.message_id,
        ),
        r matches RelayPlan::Update { content, .. } ==> content.text@ == relay_line(
            facts_stars(f) as u64,
            f.event.channel_id,
            f.event.message_id,
        ),
{
}

/// A run of plans, each made by `quote_reaction` from the facts of one event,
/// handled right after it happened: the facts see the count that holds then
/// and the watch state that the earlier plans left.
pub open spec fn plans_of_run(
    shown: Option<nat>,
    count: nat,
    threshold: nat,
    events: Seq<bool>,
    facts: Seq<RelayFacts>,
    plans: Seq<RelayPlan>,
) -> bool
    decreases events.len(),
{
    &&& facts.len() == events.len()
    &&& plans.len() == events.len()
    &&& events.len() > 0 ==> {
        let next = count_after(count, events[0]);
        &&& plan_matches(plans[0], facts[0])
        &&& ordinary_facts(facts[0], shown)
        &&& facts[0].config->0.threshold == threshold
        &&& facts[0].event.is_removal == events[0]
        &&& facts_stars(facts[0]) == next
        &&& plans_of_run(
            state_after_plan(shown, plans[0], next),
            next,
            threshold,
            events.drop_first(),
            facts.drop_first(),
            plans.drop_first(),
        )
    }
}

/// The watch state after carrying out a run of plans.
pub open spec fn run_state(shown: Option<nat>, count: nat, events: Seq<bool>, plans: Seq<RelayPlan>) -> Option<nat>
    decreases events.len(),
{
    if events.len() == 0 || plans.len() == 0 {
        shown
    } else {
        let next = count_after(count, events[0]);
        run_state(state_after_plan(shown, plans[0], next), next, events.drop_first(), plans.drop_first())
    }
}

proof fn lemma_run_follows_replay(
    shown: Option<nat>,
    count: nat,
    threshold: nat,
    events: Seq<bool>,
    facts: Seq<RelayFacts>,
    plans: Seq<RelayPlan>,
)
    requires
        plans_of_run(shown, count, threshold, events, facts, plans),
    ensures
        run_state(shown, count, events, plans) == replay(shown, count, threshold, events),
    decreases events.len(),
{
    if events.len() > 0 {
        let next = count_after(count, events[0]);
        lemma_plans_follow_table(plans[0], facts[0], shown);
        lemma_run_follows_replay(
            state_after_plan(shown, plans[0], next),
            next,
            threshold,
            events.drop_first(),
            facts.drop_first(),
            plans.drop_first(),
        );
    }
}

/// Idempotence, of the plans: when `quote_reaction` handles the reactions on
/// one message one at a time, starting from no stars and no relay, the watch
/// state that its plans leave, and the count that the relay shows (its text
/// is the relay line of that count), depend on the final count alone; any
/// two orders of events that end on the same count end in the same state.
pub proof fn lemma_plans_depend_on_final_count(
    threshold: nat,
    a: Seq<bool>,
    fa: Seq<RelayFacts>,
    pa: Seq<RelayPlan>,
    b: Seq<bool>,
    fb: Seq<RelayFacts>,
    pb: Seq<RelayPlan>,
)
    requires
        threshold > 0,
        well_paired(0, a),
        well_paired(0, b),
        final_count(0, a) == final_count(0, b),
        plans_of_run(None, 0, threshold, a, fa, pa),
        plans_of_run(None, 0, threshold, b, fb, pb),
    ensures
        run_state(None, 0, a, pa) == settled(final_count(0, a), threshold),
        run_state(None, 0, a, pa) == run_state(None, 0, b, pb),
{
    lemma_run_follows_replay(None, 0, threshold, a, fa, pa);
    lemma_run_follows_replay(None, 0, threshold, b, fb, pb);
    lemma_outcome_depends_on_final_count(threshold, a, b);
}

/// Idempotence: when the reactions on one message are handled one at a time,
/// starting from no stars and no relay, whether a relay is watched, and the
/// count that it shows, depend on the final count alone; so any two orders of
/// events that end on the same count end in the same state.
pub proof fn lemma_outcome_depends_on_final_count(threshold: nat, a: Seq<bool>, b: Seq<bool>)
    requires
        threshold > 0,
        well_paired(0, a),
        well_paired(0, b),
        final_count(0, a) == final_count(0, b),
    ensures
        replay(None, 0, threshold, a) == settled(final_count(0, a), threshold),
        replay(None, 0, threshold, a) == replay(None, 0, threshold, b),
{
    lemma_replay_settles(None, 0, threshold, a);
    lemma_replay_settles(None, 0, threshold, b);
}

/// The rows after a run of inserts, each ignored where its key is present.
pub open spec fn inserted_all(rows: Seq<StarboardEntry>, es: Seq<StarboardEntry>) -> Seq<StarboardEntry>
    decreases es.len(),
{
    if es.len() == 0 {
        rows
    } else {
        inserted_all(inserted(rows, es[0]), es.drop_first())
    }
}

/// How many inserts of a run are not ignored.
pub open spec fn inserts_taken(rows: Seq<StarboardEntry>, es: Seq<StarboardEntry>) -> nat
    decreases es.len(),
{
    if es.len() == 0 {
        0
    } else {
        (if has_key(rows, es[0].guild_id, es[0].source_message_id) {
            0nat
        } else {
            1nat
        }) + inserts_taken(inserted(rows, es[0]), es.drop_first())
    }
}

proof fn lemma_insert_keeps_unique(rows: Seq<StarboardEntry>, e: StarboardEntry)
    requires
        unique_keys(rows),
    ensures
        unique_keys(inserted(rows, e)),
        has_key(inserted(rows, e), e.guild_id, e.source_message_id),
        forall|x: StarboardEntry| rows.contains(x) ==> inserted(rows, e).contains(x),
{
    if !has_key(rows, e.guild_id, e.source_message_id) {
        let out = rows.push(e);
        assert(out[rows.len() as int] == e);
        assert forall|i: int, j: int|
            0 <= i < out.len() && 0 <= j < out.len() && i != j implies (#[trigger] out[i]).key()
                != (#[trigger] out[j]).key() by {
            if i == rows.len() {
                assert(out[j] == rows[j]);
            } else if j == rows.len() {
                assert(out[i] == rows[i]);
            } else {
                assert(out[i] == rows[i] && out[j] == rows[j]);
            }
        }
        assert forall|x: StarboardEntry| rows.contains(x) implies out.contains(x) by {
            let k = choose|k: int| 0 <= k < rows.len() && rows[k] == x;
            assert(out[k] == x);
        }
    }
}

proof fn lemma_racing_inserts(
    rows: Seq<StarboardEntry>,
    first: StarboardEntry,
    es: Seq<StarboardEntry>,
)
    requires
        unique_keys(rows),
        rows.contains(first),
        forall|i: int| 0 <= i < es.len() ==> (#[trigger] es[i]).key() == first.key(),
    ensures
        inserted_all(rows, es) == rows,
        inserts_taken(rows, es) == 0,
    decreases es.len(),
{
    if es.len() > 0 {
        let k = choose|k: int| 0 <= k < rows.len() && rows[k] == first;
        assert(es[0].key() == first.key());
        assert(has_key(rows, es[0].guild_id, es[0].source_message_id));
        assert forall|i: int| 0 <= i < es.drop_first().len() implies (#[trigger] es.drop_first()[i]).key()
            == first.key() by {
            assert(es.drop_first()[i] == es[i + 1]);
        }
        lemma_racing_inserts(rows, first, es.drop_first());
    }
}

/// The relay messages still posted after a run of creations, each of which
/// posted the relay its entry names, tried to insert the entry, and settled
/// on the store's answer.
pub open spec fn posts_left(
    rows: Seq<StarboardEntry>,
    relay_channel_id: u64,
    es: Seq<StarboardEntry>,
) -> Seq<u64>
    decreases es.len(),
{
    if es.len() == 0 {
        Seq::empty()
    } else {
        let taken = !has_key(rows, es[0].guild_id, es[0].source_message_id);
        let rest = posts_left(inserted(rows, es[0]), relay_channel_id, es.drop_first());
        if follow_up_of(taken, relay_channel_id, es[0].relay_message_id) == CreationFollowUp::Keep {
            seq![es[0].relay_message_id] + rest
        } else {
            rest
        }
    }
}

proof fn lemma_late_posts_withdrawn(
    rows: Seq<StarboardEntry>,
    first: StarboardEntry,
    relay_channel_id: u64,
    es: Seq<StarboardEntry>,
)
    requires
        unique_keys(rows),
        rows.contains(first),
        forall|i: int| 0 <= i < es.len() ==> (#[trigger] es[i]).key() == first.key(),
    ensures
        posts_left(rows, relay_channel_id, es) == Seq::<u64>::empty(),
    decreases es.len(),
{
    if es.len() > 0 {
        let k = choose|k: int| 0 <= k < rows.len() && rows[k] == first;
        assert(es[0].key() == first.key());
        assert(has_key(rows, es[0].guild_id, es[0].source_message_id));
        assert forall|i: int| 0 <= i < es.drop_first().len() implies (#[trigger] es.drop_first()[i]).key()
            == first.key() by {
            assert(es.drop_first()[i] == es[i + 1]);
        }
        lemma_late_posts_withdrawn(rows, first, relay_channel_id, es.drop_first());
    }
}

/// Exactly one relay: of any number of creations racing on one source message
/// that is not watched yet, each posting a relay, inserting the entry that
/// names it if absent, and settling on the answer, exactly one insert is
/// taken, the first; exactly one relay message stays posted, the first one;
/// and the store then holds exactly one entry for the message, naming it.
pub proof fn lemma_racing_creations_keep_one(
    rows: Seq<StarboardEntry>,
    relay_channel_id: u64,
    es: Seq<StarboardEntry>,
)
    requires
        unique_keys(rows),
        es.len() > 0,
        !has_key(rows, es[0].guild_id, es[0].source_message_id),
        forall|i: int| 0 <= i < es.len() ==> (#[trigger] es[i]).key() == es[0].key(),
    ensures
        inserts_taken(rows, es) == 1,
        posts_left(rows, relay_channel_id, es) == seq![es[0].relay_message_id],
        unique_keys(inserted_all(rows, es)),
        inserted_all(rows, es).contains(es[0]),
        forall|i: int|
            0 <= i < inserted_all(rows, es).len() && (#[trigger] inserted_all(rows, es)[i]).key()
                == es[0].key() ==> inserted_all(rows, es)[i] == es[0],
{
    let after = inserted(rows, es[0]);
    assert(after == rows.push(es[0]));
    assert(after[rows.len() as int] == es[0]);
    lemma_insert_keeps_unique(rows, es[0]);
    assert forall|i: int| 0 <= i < es.drop_first().len() implies (#[trigger] es.drop_first()[i]).key()
        == es[0].key() by {
        assert(es.drop_first()[i] == es[i + 1]);
    }
    lemma_racing_inserts(after, es[0], es.drop_first());
    lemma_late_posts_withdrawn(after, es[0], relay_channel_id, es.drop_first());
    assert(seq![es[0].relay_message_id] + Seq::<u64>::empty() =~= seq![es[0].relay_message_id]);
    assert(inserted_all(rows, es) == after);
    assert forall|i: int|
        0 <= i < after.len() && (#[trigger] after[i]).key() == es[0].key() implies after[i]
            == es[0] by {
        if i != rows.len() {
            assert(after[i].key() != after[rows.len() as int].key());
        }
    }
}

/// Threshold boundary: one star short of the threshold never creates; exactly
/// at it, an added star on an unwatched message always creates; one above it,
/// a watched relay is always edited and never created again.
pub proof fn lemma_threshold_boundary(threshold: nat, is_removal: bool, watched: bool)
    requires
        threshold > 0,
    ensures
        relay_rule((threshold - 1) as nat, threshold, is_removal, watched) != RelayRule::Create,
        relay_rule(threshold, threshold, false, false) == RelayRule::Create,
        relay_rule(threshold + 1, threshold, is_removal, true) == RelayRule::Update,
{
}

/// Retraction: once a relay is watched, a removal that drops the count below
/// the threshold deletes the relay and its entry; one that leaves the count at
/// or above the threshold only edits it.
pub proof fn lemma_retraction(stars: nat, threshold: nat)
    ensures
        stars < threshold ==> relay_rule(stars, threshold, true, true) == RelayRule::Retract,
        stars >= threshold ==> relay_rule(stars, threshold, true, true) == RelayRule::Update,
        stars < threshold ==> relay_state_after(Some(stars + 1), stars, threshold, true) is None,
{
}

/// Expiry independence: a sweep keeps every row whose expiry is still ahead,
/// drops only expired rows, and drops them all; it yields store rows alone,
/// so it has no relay message edited or deleted.
pub proof fn lemma_sweep_spares_future_rows(rows: Seq<StarboardEntry>, now: i64)
    ensures
        forall|e: StarboardEntry|
            rows.contains(e) && e.expires_at > now ==> #[trigger] rows.filter(in_force(now)).contains(e),
        forall|e: StarboardEntry|
            #[trigger] rows.filter(expired_at(now)).contains(e) ==> rows.contains(e) && e.expires_at <= now,
        forall|e: StarboardEntry|
            #[trigger] rows.filter(in_force(now)).contains(e) ==> rows.contains(e) && e.expires_at > now,
{
    broadcast use vstd::seq_lib::group_seq_properties;

    assert forall|e: StarboardEntry|
        rows.contains(e) && e.expires_at > now implies #[trigger] rows.filter(in_force(now)).contains(e) by {
        let k = choose|k: int| 0 <= k < rows.len() && rows[k] == e;
        rows.lemma_filter_contains(in_force(now), k);
    }
    assert forall|e: StarboardEntry|
        #[trigger] rows.filter(expired_at(now)).contains(e) implies rows.contains(e) && e.expires_at <= now by {
        rows.lemma_filter_contains_rev(expired_at(now), e);
        let k = choose|k: int| 0 <= k < rows.filter(expired_at(now)).len() && rows.filter(expired_at(now))[k] == e;
        rows.lemma_filter_pred(expired_at(now), k);
    }
    assert forall|e: StarboardEntry|
        #[trigger] rows.filter(in_force(now)).contains(e) implies rows.contains(e) && e.expires_at > now by {
        rows.lemma_filter_contains_rev(in_force(now), e);
        let k = choose|k: int| 0 <= k < rows.filter(in_force(now)).len() && rows.filter(in_force(now))[k] == e;
        rows.lemma_filter_pred(in_force(now), k);
    }
}

} // verus!
