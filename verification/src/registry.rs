//! The process registry and the supervisor's start/stop planning. The
//! supervisor owns one slot per role; every operation here is a pure
//! check-or-mutate step, meant to run under the caller's lock, while the
//! blocking work (probing, spawning, killing) happens outside it. A start is
//! planned in two atomic steps: `plan_start` reserves the slot when a spawn
//! is needed, and `record_spawn` (or `record_spawn_failure`) resolves the
//! reservation once the spawn attempt has finished.

use vstd::prelude::*;
use crate::role::Role;
use crate::errors::{spec_joined, join_strings, SupError};

verus! {

/// What a role's registry slot holds: nothing, a reservation for a spawn in
/// flight, or the identifier of a recorded live process.
#[derive(Clone, Copy, PartialEq, Eq, Structural, Debug)]
pub enum Slot {
    Empty,
    Starting,
    Live { pid: u64 },
}

/// The registry: one slot per role, at most one recorded process each.
#[derive(Clone, Copy, PartialEq, Eq, Structural, Debug)]
pub struct Supervisor {
    pub local_server: Slot,
    pub bridge: Slot,
    pub tunnel: Slot,
}

/// Whether a start of `role` must spawn a new process: yes unless the slot is
/// reserved by a spawn in flight or holds a process the probe saw alive.
pub open spec fn spec_start_needs_spawn(s: Supervisor, role: Role, alive: bool) -> bool {
    match s.spec_slot(role) {
        Slot::Empty => true,
        Slot::Starting => false,
        Slot::Live { pid } => !alive,
    }
}

/// The registry after a start of `role` was planned: reserved when a spawn is
/// needed, untouched otherwise.
pub open spec fn spec_plan_start(s: Supervisor, role: Role, alive: bool) -> Supervisor {
    if spec_start_needs_spawn(s, role, alive) {
        s.spec_with_slot(role, Slot::Starting)
    } else {
        s
    }
}

impl Supervisor {
    /// The slot of `role`.
    pub open spec fn spec_slot(self, role: Role) -> Slot {
        match role {
            Role::LocalServer => self.local_server,
            Role::Bridge => self.bridge,
            Role::Tunnel => self.tunnel,
        }
    }

    /// This registry with the slot of `role` replaced.
    pub open spec fn spec_with_slot(self, role: Role, v: Slot) -> Supervisor {
        match role {
            Role::LocalServer => Supervisor { local_server: v, ..self },
            Role::Bridge => Supervisor { bridge: v, ..self },
            Role::Tunnel => Supervisor { tunnel: v, ..self },
        }
    }

    /// A fresh registry with every slot empty.
    pub fn new() -> (s: Supervisor)
        ensures
            forall|role: Role| s.spec_slot(role) is Empty,
    {
        Supervisor { local_server: Slot::Empty, bridge: Slot::Empty, tunnel: Slot::Empty }
    }

    /// Reads the slot of `role`.
    pub fn slot(&self, role: Role) -> (r: Slot)
        ensures
            r == self.spec_slot(role),
    {
        match role {
            Role::LocalServer => self.local_server,
            Role::Bridge => self.bridge,
            Role::Tunnel => self.tunnel,
        }
    }

    fn set_slot(&mut self, role: Role, v: Slot)
        ensures
            *final(self) == old(self).spec_with_slot(role, v),
    {
        match role {
            Role::LocalServer => self.local_server = v,
            Role::Bridge => self.bridge = v,
            Role::Tunnel => self.tunnel = v,
        }
    }

    /// Plans a start of `role`, given the liveness probe's verdict on the
    /// recorded process (`alive` is ignored unless the slot holds one).
    /// Returns whether the caller must spawn a new process; if so, the slot
    /// is reserved so no concurrent start is granted a second spawn. When no
    /// spawn is needed the start is already complete — starting a live role
    /// is a no-op that succeeds.
    pub fn plan_start(&mut self, role: Role, alive: bool) -> (spawn_needed: bool)
        ensures
            spawn_needed == spec_start_needs_spawn(*old(self), role, alive),
            *final(self) == spec_plan_start(*old(self), role, alive),
    {
        let cur = self.slot(role);
        let needed = match cur {
            Slot::Empty => true,
            Slot::Starting => false,
            Slot::Live { pid: _ } => !alive,
        };
        if needed {
            self.set_slot(role, Slot::Starting);
        }
        needed
    }

    /// Records the process a granted spawn created, filling the slot.
    pub fn record_spawn(&mut self, role: Role, pid: u64)
        ensures
            *final(self) == old(self).spec_with_slot(role, Slot::Live { pid }),
    {
        self.set_slot(role, Slot::Live { pid });
    }

    /// Records that a granted spawn failed: the reservation is released and
    /// the OS error is wrapped with the role and the attempted command line.
    pub fn record_spawn_failure(&mut self, role: Role, detail: String) -> (e: SupError)
        ensures
            *final(self) == old(self).spec_with_slot(role, Slot::Empty),
            e matches SupError::SpawnFailed { role: r, command, detail: d }
                && r == role
                && command@ == spec_joined(role.spec_command(), " "@)
                && d@ == detail@,
    {
        self.set_slot(role, Slot::Empty);
        let cmd = join_strings(&role.command(), " ");
        SupError::SpawnFailed { role, command: cmd, detail }
    }

    /// Takes the slot of `role` and clears it: the only way a handle leaves
    /// the registry, so a handle handed out for killing is never still
    /// observable as live.
    pub fn take_and_clear(&mut self, role: Role) -> (h: Slot)
        ensures
            h == old(self).spec_slot(role),
            *final(self) == old(self).spec_with_slot(role, Slot::Empty),
    {
        let cur = self.slot(role);
        self.set_slot(role, Slot::Empty);
        cur
    }

    /// Takes and clears every slot, in the order the processes are killed.
    /// Each role's outcome is its own previous slot: no role's failure to die
    /// can keep another role registered.
    pub fn stop_all(&mut self) -> (hs: Vec<(Role, Slot)>)
        ensures
            forall|role: Role| final(self).spec_slot(role) is Empty,
            hs@ == seq![
                (Role::LocalServer, old(self).spec_slot(Role::LocalServer)),
                (Role::Tunnel, old(self).spec_slot(Role::Tunnel)),
                (Role::Bridge, old(self).spec_slot(Role::Bridge)),
            ],
    {
        let mut hs: Vec<(Role, Slot)> = Vec::new();
        let a = self.take_and_clear(Role::LocalServer);
        hs.push((Role::LocalServer, a));
        let b = self.take_and_clear(Role::Tunnel);
        hs.push((Role::Tunnel, b));
        let c = self.take_and_clear(Role::Bridge);
        hs.push((Role::Bridge, c));
        proof {
            assert(hs@ =~= seq![
                (Role::LocalServer, old(self).spec_slot(Role::LocalServer)),
                (Role::Tunnel, old(self).spec_slot(Role::Tunnel)),
                (Role::Bridge, old(self).spec_slot(Role::Bridge)),
            ]);
        }
        hs
    }

    /// Plans a tunnel discovery session. Discovery is single-shot per
    /// session: where an ordinary start treats a live process as success,
    /// re-entry here is an error, since two scans must never race against
    /// the same stream. On success the tunnel slot is reserved.
    pub fn plan_discovery(&mut self, alive: bool) -> (r: Result<(), SupError>)
        ensures
            match r {
                Ok(_) => spec_start_needs_spawn(*old(self), Role::Tunnel, alive)
                    && *final(self) == old(self).spec_with_slot(Role::Tunnel, Slot::Starting),
                Err(e) => !spec_start_needs_spawn(*old(self), Role::Tunnel, alive)
                    && *final(self) == *old(self)
                    && e is AlreadyRunning,
            },
    {
        let needed = match self.slot(Role::Tunnel) {
            Slot::Empty => true,
            Slot::Starting => false,
            Slot::Live { pid: _ } => !alive,
        };
        if needed {
            self.set_slot(Role::Tunnel, Slot::Starting);
            Ok(())
        } else {
            Err(SupError::AlreadyRunning)
        }
    }
}

/// Idempotence of start: from an empty slot, one start is granted a spawn;
/// once its process is recorded, a second start that observes the process
/// alive is granted nothing and changes nothing, so exactly one live process
/// is registered for the role.
pub proof fn lemma_start_idempotent(s: Supervisor, role: Role, pid: u64)
    requires
        s.spec_slot(role) is Empty,
    ensures
        spec_start_needs_spawn(s, role, false),
        ({
            let after_first = spec_plan_start(s, role, false).spec_with_slot(
                role,
                Slot::Live { pid },
            );
            &&& !spec_start_needs_spawn(after_first, role, true)
            &&& spec_plan_start(after_first, role, true) == after_first
            &&& after_first.spec_slot(role) == (Slot::Live { pid })
        }),
{
}

/// Mutual exclusion of spawns: once one start has been granted a spawn for a
/// role, any start planned before that spawn is recorded is not granted one,
/// whatever its probe reported.
pub proof fn lemma_no_double_spawn(s: Supervisor, role: Role, alive1: bool, alive2: bool)
    requires
        spec_start_needs_spawn(s, role, alive1),
    ensures
        !spec_start_needs_spawn(spec_plan_start(s, role, alive1), role, alive2),
{
}

/// Mutual exclusion after the spawn is recorded: a start that observes the
/// recorded process alive is not granted a spawn either.
pub proof fn lemma_live_blocks_spawn(s: Supervisor, role: Role, pid: u64)
    ensures
        !spec_start_needs_spawn(s.spec_with_slot(role, Slot::Live { pid }), role, true),
{
}

/// Stop-all independence: the handle handed out for a role depends on that
/// role's slot alone — whatever the other roles held, and however their kill
/// attempts end, each role is handed out unchanged and left cleared.
pub proof fn lemma_stop_all_independent(s1: Supervisor, s2: Supervisor, role: Role)
    requires
        s1.spec_slot(role) == s2.spec_slot(role),
    ensures
        ({
            let hs1 = seq![
                (Role::LocalServer, s1.spec_slot(Role::LocalServer)),
                (Role::Tunnel, s1.spec_slot(Role::Tunnel)),
                (Role::Bridge, s1.spec_slot(Role::Bridge)),
            ];
            let hs2 = seq![
                (Role::LocalServer, s2.spec_slot(Role::LocalServer)),
                (Role::Tunnel, s2.spec_slot(Role::Tunnel)),
                (Role::Bridge, s2.spec_slot(Role::Bridge)),
            ];
            forall|i: int| 0 <= i < 3 && hs1[i].0 == role ==> hs1[i] == hs2[i]
        }),
{
}

} // verus!
