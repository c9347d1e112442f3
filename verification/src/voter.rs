//! The majority voter: a two-out-of-three quorum check over a registry
//! snapshot.
//!
//! The vote is pass or fail. It never averages: readings of instances that are
//! not healthy are left out entirely, however plausible they look.

use crate::registry::{Instance, InstanceState, Reading, Registry, INSTANCE_COUNT};
use vstd::prelude::*;

verus! {

/// Number of healthy instances needed for the group to be trusted.
pub const QUORUM: usize = 2;

/// What the voter makes of a snapshot.
#[derive(Clone, Copy, Debug, PartialEq, Eq, Structural)]
pub enum VoteOutcome {
    /// A quorum of healthy instances stands behind this reading.
    Consensus(Reading),
    /// Fewer healthy instances than a quorum: the signal is not trusted.
    QuorumFailure,
}

/// The reading of an instance if it is healthy, nothing otherwise.
pub open spec fn trusted_reading(instance: Instance) -> Option<Reading> {
    if instance.state is Healthy {
        Some(instance.reading)
    } else {
        None
    }
}

/// The readings of the healthy instances, in identity order.
pub open spec fn healthy_readings(snapshot: Seq<Instance>) -> Seq<Reading> {
    snapshot.filter_map(|instance: Instance| trusted_reading(instance))
}

/// How many instances of the snapshot are healthy.
pub open spec fn healthy_count(snapshot: Seq<Instance>) -> nat {
    healthy_readings(snapshot).len()
}

/// How many instances of the snapshot are faulty or rebuilding.
pub open spec fn unhealthy_count(snapshot: Seq<Instance>) -> nat {
    snapshot.filter(|instance: Instance| !(instance.state is Healthy)).len()
}

/// Instance `id` is healthy and no instance before it is.
pub open spec fn is_first_healthy(snapshot: Seq<Instance>, id: int) -> bool {
    &&& 0 <= id < snapshot.len()
    &&& snapshot[id].state is Healthy
    &&& forall|j: int| 0 <= j < id ==> !((#[trigger] snapshot[j]).state is Healthy)
}

/// The outcome of the vote on a snapshot: with a quorum of healthy instances
/// the reading of the first of them, otherwise a quorum failure.
pub open spec fn vote_of(snapshot: Seq<Instance>) -> VoteOutcome {
    let trusted = healthy_readings(snapshot);
    if trusted.len() >= QUORUM {
        VoteOutcome::Consensus(trusted[0])
    } else {
        VoteOutcome::QuorumFailure
    }
}

/// Appending an instance appends its reading to the healthy readings exactly
/// when it is healthy.
pub proof fn lemma_healthy_readings_push(snapshot: Seq<Instance>, instance: Instance)
    ensures
        healthy_readings(snapshot.push(instance)) == if instance.state is Healthy {
            healthy_readings(snapshot).push(instance.reading)
        } else {
            healthy_readings(snapshot)
        },
{
    let longer = snapshot.push(instance);
    assert(longer.drop_last() =~= snapshot);
    assert(longer.last() == instance);
    assert(healthy_readings(snapshot) + seq![instance.reading] =~= healthy_readings(
        snapshot,
    ).push(instance.reading));
}

/// Appending an instance raises the unhealthy count by one exactly when it is
/// not healthy.
pub proof fn lemma_unhealthy_count_push(snapshot: Seq<Instance>, instance: Instance)
    ensures
        unhealthy_count(snapshot.push(instance)) == unhealthy_count(snapshot) + if instance.state is Healthy {
            0nat
        } else {
            1nat
        },
{
    let longer = snapshot.push(instance);
    assert(longer.drop_last() =~= snapshot);
    assert(longer.last() == instance);
    reveal(Seq::filter);
}

/// Every instance is counted once: as healthy or as unhealthy.
pub proof fn lemma_counts_partition(snapshot: Seq<Instance>)
    ensures
        healthy_count(snapshot) + unhealthy_count(snapshot) == snapshot.len(),
    decreases snapshot.len(),
{
    if snapshot.len() == 0 {
        reveal(Seq::filter);
    } else {
        let shorter = snapshot.drop_last();
        lemma_counts_partition(shorter);
        lemma_healthy_readings_push(shorter, snapshot.last());
        lemma_unhealthy_count_push(shorter, snapshot.last());
        assert(shorter.push(snapshot.last()) =~= snapshot);
    }
}

/// With at least one healthy instance, the first healthy reading is the reading
/// of the first healthy instance.
pub proof fn lemma_first_healthy_reading(snapshot: Seq<Instance>) -> (id: int)
    requires
        healthy_count(snapshot) > 0,
    ensures
        is_first_healthy(snapshot, id),
        healthy_readings(snapshot)[0] == snapshot[id].reading,
    decreases snapshot.len(),
{
    let shorter = snapshot.drop_last();
    let last = snapshot.last();
    assert(shorter.push(last) =~= snapshot);
    lemma_healthy_readings_push(shorter, last);
    if healthy_count(shorter) > 0 {
        lemma_first_healthy_reading(shorter)
    } else {
        assert forall|j: int| 0 <= j < shorter.len() implies !((
        #[trigger] snapshot[j]).state is Healthy) by {
            lemma_no_healthy_reading(shorter, j);
        }
        snapshot.len() - 1
    }
}

/// Where no reading is trusted, no instance is healthy.
pub proof fn lemma_no_healthy_reading(snapshot: Seq<Instance>, id: int)
    requires
        healthy_count(snapshot) == 0,
        0 <= id < snapshot.len(),
    ensures
        !(snapshot[id].state is Healthy),
    decreases snapshot.len(),
{
    let shorter = snapshot.drop_last();
    let last = snapshot.last();
    assert(shorter.push(last) =~= snapshot);
    lemma_healthy_readings_push(shorter, last);
    if id < shorter.len() {
        lemma_no_healthy_reading(shorter, id);
    }
}

/// The vote reaches consensus exactly when a quorum of instances is healthy,
/// and fails exactly when at most one is.
pub proof fn lemma_consensus_iff_quorum(snapshot: Seq<Instance>)
    ensures
        vote_of(snapshot) is Consensus <==> healthy_count(snapshot) >= QUORUM,
        vote_of(snapshot) is QuorumFailure <==> healthy_count(snapshot) <= 1,
{
}

/// A consensus carries the reading of the first healthy instance in identity
/// order.
pub proof fn lemma_consensus_is_first_healthy(snapshot: Seq<Instance>) -> (id: int)
    requires
        vote_of(snapshot) is Consensus,
    ensures
        is_first_healthy(snapshot, id),
        vote_of(snapshot) == VoteOutcome::Consensus(snapshot[id].reading),
{
    lemma_first_healthy_reading(snapshot)
}

/// The vote depends on nothing but the snapshot: registries that show the same
/// snapshot get the same outcome, so asking twice without a change in between
/// gives the same answer twice.
pub proof fn lemma_vote_is_function_of_snapshot(first: Registry, second: Registry)
    requires
        first@ == second@,
    ensures
        vote_of(first@) == vote_of(second@),
{
}

/// With two different instances of three out of service the vote fails,
/// whatever the readings are.
pub proof fn lemma_two_unhealthy_break_quorum(snapshot: Seq<Instance>, a: int, b: int)
    requires
        snapshot.len() == INSTANCE_COUNT,
        0 <= a < b < snapshot.len(),
        !(snapshot[a].state is Healthy),
        !(snapshot[b].state is Healthy),
    ensures
        vote_of(snapshot) == VoteOutcome::QuorumFailure,
{
    lemma_counts_three(snapshot);
}

/// In a group of three the counts are the sums over the three instances.
pub proof fn lemma_counts_three(snapshot: Seq<Instance>)
    requires
        snapshot.len() == INSTANCE_COUNT,
    ensures
        healthy_count(snapshot) == one_if(snapshot[0].state is Healthy) + one_if(
            snapshot[1].state is Healthy,
        ) + one_if(snapshot[2].state is Healthy),
        unhealthy_count(snapshot) == INSTANCE_COUNT - healthy_count(snapshot),
{
    let none = Seq::<Instance>::empty();
    let one = none.push(snapshot[0]);
    let two = one.push(snapshot[1]);
    let three = two.push(snapshot[2]);
    assert(three =~= snapshot);
    assert(healthy_readings(none) =~= Seq::<Reading>::empty());
    lemma_healthy_readings_push(none, snapshot[0]);
    lemma_healthy_readings_push(one, snapshot[1]);
    lemma_healthy_readings_push(two, snapshot[2]);
    lemma_counts_partition(snapshot);
}

/// One for a condition that holds, zero for one that does not.
pub open spec fn one_if(condition: bool) -> nat {
    if condition {
        1
    } else {
        0
    }
}

/// Votes on the registry as it stands: consensus on the reading of the first
/// healthy instance if at least two instances are healthy, quorum failure
/// otherwise. Reads the registry and changes nothing.
pub fn vote(registry: &Registry) -> (outcome: VoteOutcome)
    ensures
        outcome == vote_of(registry@),
        outcome is Consensus <==> healthy_count(registry@) >= QUORUM,
        outcome matches VoteOutcome::Consensus(reading) ==> exists|id: int|
            is_first_healthy(registry@, id) && #[trigger] registry@[id].reading == reading,
{
    let all = registry.snapshot();
    let mut healthy: usize = 0;
    let mut first: Option<Reading> = None;
    let mut i: usize = 0;
    proof {
        assert(all@.take(0) =~= Seq::<Instance>::empty());
    }
    while i < INSTANCE_COUNT
        invariant
            i <= INSTANCE_COUNT,
            all@.len() == INSTANCE_COUNT,
            healthy == healthy_count(all@.take(i as int)),
            healthy <= i,
            first == if healthy > 0 {
                Some(healthy_readings(all@.take(i as int))[0])
            } else {
                None::<Reading>
            },
        decreases INSTANCE_COUNT - i,
    {
        proof {
            assert(all@.take(i as int).push(all@[i as int]) =~= all@.take(i as int + 1));
            lemma_healthy_readings_push(all@.take(i as int), all@[i as int]);
        }
        let instance = all[i];
        if instance.state == InstanceState::Healthy {
            if healthy == 0 {
                first = Some(instance.reading);
            }
            healthy = healthy + 1;
        }
        i = i + 1;
    }
    proof {
        assert(all@.take(INSTANCE_COUNT as int) =~= registry@);
        if healthy >= QUORUM {
            let id = lemma_consensus_is_first_healthy(registry@);
            assert(registry@[id].reading == healthy_readings(registry@)[0]);
        }
    }
    match first {
        Some(reading) if healthy >= QUORUM => VoteOutcome::Consensus(reading),
        _ => VoteOutcome::QuorumFailure,
    }
}

/// Counts the healthy instances of the registry.
pub fn count_healthy(registry: &Registry) -> (count: usize)
    ensures
        count == healthy_count(registry@),
        count <= INSTANCE_COUNT,
        INSTANCE_COUNT - count == unhealthy_count(registry@),
{
    let all = registry.snapshot();
    let mut count: usize = 0;
    let mut i: usize = 0;
    proof {
        assert(all@.take(0) =~= Seq::<Instance>::empty());
    }
    while i < INSTANCE_COUNT
        invariant
            i <= INSTANCE_COUNT,
            all@.len() == INSTANCE_COUNT,
            count == healthy_count(all@.take(i as int)),
            count <= i,
        decreases INSTANCE_COUNT - i,
    {
        proof {
            assert(all@.take(i as int).push(all@[i as int]) =~= all@.take(i as int + 1));
            lemma_healthy_readings_push(all@.take(i as int), all@[i as int]);
        }
        if all[i].state == InstanceState::Healthy {
            count = count + 1;
        }
        i = i + 1;
    }
    proof {
        assert(all@.take(INSTANCE_COUNT as int) =~= registry@);
        lemma_counts_partition(registry@);
    }
    count
}

} // verus!
