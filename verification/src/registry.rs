//! The instance registry: state and last measurement of the three redundant
//! reading sources.
//!
//! The registry knows nothing of timers or recovery. It is a plain value that
//! is read as a snapshot and changed only through [`Registry::set_state`] and
//! [`Registry::set_reading`].

use vstd::prelude::*;

verus! {

/// Number of redundant instances in the voting group.
pub const INSTANCE_COUNT: usize = 3;

/// Condition of one redundant instance.
#[derive(Clone, Copy, Debug, PartialEq, Eq, Structural)]
pub enum InstanceState {
    /// Producing trustworthy readings.
    Healthy,
    /// Producing garbage; its reading carries no meaning.
    Faulty,
    /// Being rebuilt after a fault; not yet trusted again.
    Rebuilding,
}

/// A measurement in fixed point, counted in tenths of the unit.
///
/// A pressure of 2847.3 is `Reading { tenths: 28_473 }`.
#[derive(Clone, Copy, Debug, PartialEq, Eq, Structural)]
pub struct Reading {
    pub tenths: i64,
}

/// One instance as a reader sees it: identity, state and reading together.
#[derive(Clone, Copy, Debug, PartialEq, Eq, Structural)]
pub struct Instance {
    /// Stable identity, equal to the instance's position in the registry.
    pub id: usize,
    pub state: InstanceState,
    pub reading: Reading,
}

/// Why the registry refused an operation.
#[derive(Clone, Copy, Debug, PartialEq, Eq, Structural)]
pub enum RegistryError {
    /// The identity names none of the instances.
    InvalidInstance { id: usize },
}

/// State and reading of the three instances.
#[derive(Clone, Copy, Debug)]
pub struct Registry {
    states: [InstanceState; 3],
    readings: [Reading; 3],
}

/// The snapshot in which every instance is healthy and holds `baseline`.
pub open spec fn uniform_snapshot(baseline: Reading) -> Seq<Instance> {
    Seq::new(
        INSTANCE_COUNT as nat,
        |i: int| Instance { id: i as usize, state: InstanceState::Healthy, reading: baseline },
    )
}

/// A snapshot has one entry per instance, each at the position of its identity.
pub open spec fn snapshot_shape(snapshot: Seq<Instance>) -> bool {
    &&& snapshot.len() == INSTANCE_COUNT
    &&& forall|i: int| 0 <= i < snapshot.len() ==> (#[trigger] snapshot[i]).id == i
}

/// `snapshot` with the state of instance `id` replaced.
pub open spec fn with_state(snapshot: Seq<Instance>, id: int, state: InstanceState) -> Seq<
    Instance,
> {
    snapshot.update(id, Instance { state, ..snapshot[id] })
}

/// `snapshot` with the reading of instance `id` replaced.
pub open spec fn with_reading(snapshot: Seq<Instance>, id: int, reading: Reading) -> Seq<
    Instance,
> {
    snapshot.update(id, Instance { reading, ..snapshot[id] })
}

impl View for Registry {
    type V = Seq<Instance>;

    closed spec fn view(&self) -> Seq<Instance> {
        Seq::new(
            INSTANCE_COUNT as nat,
            |i: int| Instance { id: i as usize, state: self.states[i], reading: self.readings[i] },
        )
    }
}

impl Registry {
    /// Every registry has the shape of a snapshot.
    pub proof fn lemma_shape(&self)
        ensures
            snapshot_shape(self@),
    {
    }

    /// Two registries with the same snapshot are the same value.
    pub proof fn lemma_view_injective(&self, other: &Registry)
        requires
            self@ == other@,
        ensures
            *self == *other,
    {
        assert forall|i: int| 0 <= i < 3 implies self.states[i] == other.states[i] by {
            assert(self@[i].state == self.states[i]);
            assert(other@[i].state == other.states[i]);
        }
        assert forall|i: int| 0 <= i < 3 implies self.readings[i] == other.readings[i] by {
            assert(self@[i].reading == self.readings[i]);
            assert(other@[i].reading == other.readings[i]);
        }
        assert(self.states =~= other.states);
        assert(self.readings =~= other.readings);
    }

    /// A registry whose instances are all healthy and hold `baseline`.
    pub fn new(baseline: Reading) -> (registry: Registry)
        ensures
            registry@ == uniform_snapshot(baseline),
    {
        let registry = Registry {
            states: [InstanceState::Healthy, InstanceState::Healthy, InstanceState::Healthy],
            readings: [baseline, baseline, baseline],
        };
        assert(registry@ =~= uniform_snapshot(baseline));
        registry
    }

    /// The state of instance `id`.
    pub fn state(&self, id: usize) -> (res: Result<InstanceState, RegistryError>)
        ensures
            id < INSTANCE_COUNT ==> res == Ok::<InstanceState, RegistryError>(self@[id as int].state),
            id >= INSTANCE_COUNT ==> res == Err::<InstanceState, RegistryError>(
                RegistryError::InvalidInstance { id },
            ),
    {
        if id < INSTANCE_COUNT {
            Ok(self.states[id])
        } else {
            Err(RegistryError::InvalidInstance { id })
        }
    }

    /// The reading of instance `id`.
    pub fn reading(&self, id: usize) -> (res: Result<Reading, RegistryError>)
        ensures
            id < INSTANCE_COUNT ==> res == Ok::<Reading, RegistryError>(self@[id as int].reading),
            id >= INSTANCE_COUNT ==> res == Err::<Reading, RegistryError>(
                RegistryError::InvalidInstance { id },
            ),
    {
        if id < INSTANCE_COUNT {
            Ok(self.readings[id])
        } else {
            Err(RegistryError::InvalidInstance { id })
        }
    }

    /// Identity, state and reading of instance `id`, read together.
    pub fn instance(&self, id: usize) -> (res: Result<Instance, RegistryError>)
        ensures
            id < INSTANCE_COUNT ==> res == Ok::<Instance, RegistryError>(self@[id as int]),
            id >= INSTANCE_COUNT ==> res == Err::<Instance, RegistryError>(
                RegistryError::InvalidInstance { id },
            ),
    {
        if id < INSTANCE_COUNT {
            Ok(Instance { id, state: self.states[id], reading: self.readings[id] })
        } else {
            Err(RegistryError::InvalidInstance { id })
        }
    }

    /// All three instances as they stand at the moment of the call.
    pub fn snapshot(&self) -> (all: [Instance; 3])
        ensures
            all@ == self@,
    {
        let all = [
            Instance { id: 0, state: self.states[0], reading: self.readings[0] },
            Instance { id: 1, state: self.states[1], reading: self.readings[1] },
            Instance { id: 2, state: self.states[2], reading: self.readings[2] },
        ];
        assert(all@ =~= self@);
        all
    }

    /// Puts instance `id` into `state` and leaves everything else as it was.
    /// An identity that names no instance is refused and nothing changes.
    pub fn set_state(&mut self, id: usize, state: InstanceState) -> (res: Result<
        (),
        RegistryError,
    >)
        ensures
            id < INSTANCE_COUNT ==> res is Ok && final(self)@ == with_state(
                old(self)@,
                id as int,
                state,
            ),
            id >= INSTANCE_COUNT ==> res == Err::<(), RegistryError>(
                RegistryError::InvalidInstance { id },
            ) && *final(self) == *old(self),
    {
        if id < INSTANCE_COUNT {
            self.states[id] = state;
            assert(self@ =~= with_state(old(self)@, id as int, state));
            Ok(())
        } else {
            Err(RegistryError::InvalidInstance { id })
        }
    }

    /// Gives instance `id` the reading `reading` and leaves everything else as
    /// it was. An identity that names no instance is refused and nothing
    /// changes.
    pub fn set_reading(&mut self, id: usize, reading: Reading) -> (res: Result<
        (),
        RegistryError,
    >)
        ensures
            id < INSTANCE_COUNT ==> res is Ok && final(self)@ == with_reading(
                old(self)@,
                id as int,
                reading,
            ),
            id >= INSTANCE_COUNT ==> res == Err::<(), RegistryError>(
                RegistryError::InvalidInstance { id },
            ) && *final(self) == *old(self),
    {
        if id < INSTANCE_COUNT {
            self.readings[id] = reading;
            assert(self@ =~= with_reading(old(self)@, id as int, reading));
            Ok(())
        } else {
            Err(RegistryError::InvalidInstance { id })
        }
    }
}

} // verus!
