//! What holds of every policy on every snapshot.

use vstd::prelude::*;
use crate::command::{headings_valid, one_per_aircraft, CommandView};
use crate::heading::valid_heading;
use crate::model::{GameState, GameStateView};
use crate::policy::{
    choice_commands, criss_cross_commands, dont_crash_commands, dont_crash_last_choice,
    loop_around_commands, multiplane_choice, multiplane_commands, multiplane_prefix,
    policy_commands, policy_for, turning_commands, wrong_way_commands, Policy,
};

verus! {

/// Every command of the list addresses one of the first `n` aircraft.
pub open spec fn addressed_within(cmds: Seq<CommandView>, s: GameStateView, n: int) -> bool {
    forall|k: int|
        0 <= k < cmds.len() ==> exists|j: int|
            0 <= j < n && (#[trigger] s.aircrafts[j]).id == (#[trigger] cmds[k]).aircraft_id
}

/// A snapshot without aircraft or without airports gets no command from
/// any policy, nor from any single policy function.
pub proof fn lemma_vacant_snapshot(policy: Policy, s: GameStateView)
    requires
        s.is_vacant(),
    ensures
        policy_commands(policy, s) == Seq::<CommandView>::empty(),
        turning_commands(s) == Seq::<CommandView>::empty(),
        loop_around_commands(s) == Seq::<CommandView>::empty(),
        multiplane_commands(s) == Seq::<CommandView>::empty(),
        criss_cross_commands(s) == Seq::<CommandView>::empty(),
        wrong_way_commands(s) == Seq::<CommandView>::empty(),
        dont_crash_commands(s) == Seq::<CommandView>::empty(),
{
}

/// A level that the table does not know gets no command.
pub proof fn lemma_unrecognized_level(level_id: Seq<char>, s: GameStateView)
    requires
        policy_for(level_id) == Policy::Unrecognized,
    ensures
        policy_commands(policy_for(level_id), s) == Seq::<CommandView>::empty(),
{
}

/// Two snapshots that hold the same values get the same commands, for
/// every level: a policy reads nothing but the snapshot.
pub proof fn lemma_same_snapshot_same_commands(level_id: Seq<char>, a: GameState, b: GameState)
    requires
        a@ == b@,
    ensures
        policy_commands(policy_for(level_id), a@) == policy_commands(policy_for(level_id), b@),
{
}

/// With fewer than two aircraft, crossing paths steers nothing, whatever
/// the state of the one aircraft.
pub proof fn lemma_criss_cross_needs_two(s: GameStateView)
    requires
        s.aircrafts.len() < 2,
    ensures
        criss_cross_commands(s) == Seq::<CommandView>::empty(),
        policy_commands(Policy::CrissCross, s) == Seq::<CommandView>::empty(),
{
}

/// With fewer than three aircraft, collision avoidance steers the last
/// aircraft only.
pub proof fn lemma_dont_crash_lone(s: GameStateView)
    requires
        !s.is_vacant(),
        s.aircrafts.len() < 3,
    ensures
        dont_crash_commands(s) == choice_commands(
            s.aircrafts[s.aircrafts.len() - 1].id,
            dont_crash_last_choice(s.aircrafts[s.aircrafts.len() - 1], s.airports[0]),
        ),
        dont_crash_commands(s).len() <= 1,
{
}

/// The parallel turn gives the first `n` aircraft at most `n` commands,
/// each with a valid heading and each for one of those aircraft; where the
/// aircraft have distinct identifiers, so have the commands.
pub proof fn lemma_multiplane_prefix(s: GameStateView, n: nat)
    requires
        n <= s.aircrafts.len(),
        s.airports.len() > 0,
    ensures
        multiplane_prefix(s, n).len() <= n,
        headings_valid(multiplane_prefix(s, n)),
        addressed_within(multiplane_prefix(s, n), s, n as int),
        s.distinct_ids() ==> one_per_aircraft(multiplane_prefix(s, n)),
    decreases n,
{
    if n > 0 {
        let m = (n - 1) as nat;
        lemma_multiplane_prefix(s, m);
        let before = multiplane_prefix(s, m);
        let added = choice_commands(s.aircrafts[n - 1].id, multiplane_choice(s.aircrafts[n - 1], s.airports[0]));
        let now = multiplane_prefix(s, n);
        assert(now == before + added);
        assert forall|k: int| 0 <= k < now.len() implies exists|j: int|
            0 <= j < n && (#[trigger] s.aircrafts[j]).id == (#[trigger] now[k]).aircraft_id by {
            if k < before.len() {
                assert(now[k] == before[k]);
                let j = choose|j: int|
                    0 <= j < m && (#[trigger] s.aircrafts[j]).id == before[k].aircraft_id;
                assert(0 <= j < n && s.aircrafts[j].id == now[k].aircraft_id);
            } else {
                assert(now[k] == added[k - before.len()]);
                assert(s.aircrafts[n - 1].id == now[k].aircraft_id);
            }
        }
        if s.distinct_ids() {
            assert forall|i: int, j: int| 0 <= i < j < now.len() implies (#[trigger] now[i]).aircraft_id
                != (#[trigger] now[j]).aircraft_id by {
                if j < before.len() {
                    assert(now[i] == before[i]);
                    assert(now[j] == before[j]);
                } else {
                    assert(now[i] == before[i]);
                    assert(now[j].aircraft_id == s.aircrafts[n - 1].id);
                    let w = choose|w: int|
                        0 <= w < m && (#[trigger] s.aircrafts[w]).id == before[i].aircraft_id;
                    assert(s.aircrafts[w].id != s.aircrafts[n - 1].id);
                }
            }
        }
        assert forall|k: int| 0 <= k < now.len() implies valid_heading(
            (#[trigger] now[k]).heading,
        ) by {
            if k < before.len() {
                assert(now[k] == before[k]);
            } else {
                assert(now[k] == added[k - before.len()]);
            }
        }
    }
}

/// Every command of every policy asks for a heading in `[0, 359]`.
pub proof fn lemma_headings_valid(policy: Policy, s: GameStateView)
    ensures
        headings_valid(policy_commands(policy, s)),
{
    if !s.is_vacant() {
        match policy {
            Policy::Multiplane => {
                lemma_multiplane_prefix(s, s.aircrafts.len());
            },
            _ => {},
        }
    }
}

/// No policy gives more commands than there are aircraft, and where the
/// aircraft of the snapshot have distinct identifiers, no policy gives two
/// commands to one aircraft.
pub proof fn lemma_one_command_per_aircraft(policy: Policy, s: GameStateView)
    ensures
        policy_commands(policy, s).len() <= s.aircrafts.len(),
        s.distinct_ids() ==> one_per_aircraft(policy_commands(policy, s)),
{
    if !s.is_vacant() {
        match policy {
            Policy::Multiplane => {
                lemma_multiplane_prefix(s, s.aircrafts.len());
            },
            Policy::DontCrash => {
                if s.aircrafts.len() >= 3 {
                    let last = s.aircrafts[s.aircrafts.len() - 1];
                    if s.distinct_ids() {
                        assert(s.aircrafts[0].id != s.aircrafts[1].id);
                        assert(s.aircrafts[0].id != last.id);
                        assert(s.aircrafts[1].id != last.id);
                    }
                }
            },
            _ => {},
        }
    }
}

} // verus!
