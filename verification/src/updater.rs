//! The updater registry and its per-group state machines.
//!
//! The registry maps each service group to one state machine. A single
//! `check_for_updated_package` call advances one group's machine by at
//! most one transition and reports whether the service must be restarted
//! with a freshly installed package.
//!
//! The machines are pure: everything they need from the world — the
//! census view, what the worker's channel held — comes in as a value, and
//! everything they want done — spawn a worker, start an election — goes
//! out as an [`Action`] for the caller to perform. The whole transition
//! relation is the spec function [`spec_step`], and the exec code is
//! proved to follow it exactly.

use crate::census::{CensusGroup, CensusMember, GroupView};
use crate::ident::{opt_ident_eq, opt_ident_view, IdentView, PackageIdent};
use crate::service::{Service, ServiceView, Topology, UpdateStrategy};
use crate::worker::{Mission, MissionView, Worker, WorkerView};
use vstd::prelude::*;

verus! {

/// What the update leader's side of a rolling upgrade is doing.
#[derive(Clone, Copy, Debug, PartialEq, Eq, Structural)]
pub enum LeaderPhase {
    /// Waiting for every member to advertise the leader's own identity.
    Waiting,
    /// A chase-latest worker is polling for the next version.
    Polling,
}

/// What a follower's side of a rolling upgrade is doing.
#[derive(Clone, Copy, Debug, PartialEq, Eq, Structural)]
pub enum FollowerPhase {
    /// Waiting to be told to update.
    Waiting,
    /// A fetch-exact worker is installing the leader's identity.
    Updating,
}

/// Where a rolling upgrade stands for one group.
#[derive(Clone, Copy, Debug, PartialEq, Eq, Structural)]
pub enum RollingState {
    /// No update election has been started yet.
    AwaitingElection,
    /// An update election is under way.
    InElection,
    /// The local member leads the upgrade.
    Leader(LeaderPhase),
    /// Another member leads the upgrade.
    Follower(FollowerPhase),
}

/// The state machine of one service group.
#[derive(Clone, Copy, Debug, PartialEq, Eq, Structural)]
pub enum UpdaterState {
    /// One chase-latest worker polls; anything newer is applied at once.
    AtOnce,
    /// A coordinated rolling upgrade.
    Rolling(RollingState),
}

/// What the state machine's end of the worker channel showed on this
/// tick. For states that own no worker the caller passes `Empty`.
#[derive(Debug)]
pub enum ChannelEvent {
    /// The worker delivered a freshly installed package.
    Package(PackageIdent),
    /// The channel was empty.
    Empty,
    /// The channel is closed: the worker died.
    Disconnected,
}

/// The mathematical value of a channel event.
pub ghost enum EventView {
    Package(IdentView),
    Empty,
    Disconnected,
}

impl View for ChannelEvent {
    type V = EventView;

    open spec fn view(&self) -> EventView {
        match self {
            ChannelEvent::Package(p) => EventView::Package(p@),
            ChannelEvent::Empty => EventView::Empty,
            ChannelEvent::Disconnected => EventView::Disconnected,
        }
    }
}

/// What the caller must do after a transition.
#[derive(Debug)]
pub enum Action {
    /// Start an update election on the gossip layer with this
    /// suitability; lower is more suitable.
    StartElection { suitability: u64 },
    /// Spawn a background worker on the given mission, and own the
    /// receiving end of its channel for this group.
    Spawn { worker: Worker, mission: Mission },
}

/// The mathematical value of an action.
pub ghost enum ActionView {
    StartElection { suitability: u64 },
    Spawn { worker: WorkerView, mission: MissionView },
}

impl View for Action {
    type V = ActionView;

    open spec fn view(&self) -> ActionView {
        match self {
            Action::StartElection { suitability } => ActionView::StartElection {
                suitability: *suitability,
            },
            Action::Spawn { worker, mission } => ActionView::Spawn {
                worker: worker@,
                mission: mission@,
            },
        }
    }
}

/// View of an optional action.
pub open spec fn opt_action_view(a: Option<Action>) -> Option<ActionView> {
    match a {
        Some(action) => Some(action@),
        None => None,
    }
}

/// What one tick decided.
#[derive(Debug)]
pub struct TickOutcome {
    /// Whether a new package was applied, so the service must restart.
    pub restart: bool,
    /// The side effect the caller must perform, if any.
    pub action: Option<Action>,
}

/// What one registration decided.
#[derive(Debug)]
pub struct AddOutcome {
    /// Whether the service has a strategy the updater watches.
    pub added: bool,
    /// The side effect the caller must perform, if any.
    pub action: Option<Action>,
}

/// The mathematical value of one transition: the next state, the
/// service's installed identity afterwards, whether to restart, and the
/// action handed to the caller.
#[verifier::ext_equal]
pub ghost struct StepView {
    pub state: UpdaterState,
    pub ident: IdentView,
    pub restart: bool,
    pub action: Option<ActionView>,
}

/// The mission a follower is given: the update leader's exact identity
/// when its rumor carried one, otherwise chase-latest.
pub open spec fn spec_mission_for(pkg: Option<IdentView>) -> MissionView {
    match pkg {
        Some(p) => MissionView::FetchExact(p),
        None => MissionView::ChaseLatest,
    }
}

/// The suitability a member offers in an update election under a Leader
/// topology: the unsigned minimum when it is the group's current work
/// leader (lower is more suitable, biasing the election toward it), the
/// unsigned maximum otherwise.
pub open spec fn spec_leader_suitability(me_id: Seq<char>, leader_id: Seq<char>) -> u64 {
    if me_id == leader_id {
        0
    } else {
        u64::MAX
    }
}

/// The preconditions of one transition: exactly the census views the
/// states past the election need. A missing census group, or a missing
/// slot the transition must read, can only mean the group was torn down
/// mid-upgrade, and is the caller's fatal error to raise.
pub open spec fn step_permitted(
    state: UpdaterState,
    census: Option<GroupView>,
    event: EventView,
) -> bool {
    match state {
        UpdaterState::Rolling(RollingState::Leader(LeaderPhase::Waiting)) => {
            &&& census is Some
            &&& (census->0.members.len() > 0 ==> census->0.me is Some)
        },
        UpdaterState::Rolling(RollingState::Follower(FollowerPhase::Waiting)) => census is Some,
        UpdaterState::Rolling(RollingState::Follower(FollowerPhase::Updating)) => {
            &&& census is Some
            &&& (event is Disconnected ==> census->0.update_leader is Some)
        },
        _ => true,
    }
}

/// The transition relation of one state machine: from the current state,
/// the service, the census view and the channel event to everything the
/// tick decides.
pub open spec fn spec_step(
    state: UpdaterState,
    service: ServiceView,
    census: Option<GroupView>,
    event: EventView,
) -> StepView
    recommends
        step_permitted(state, census, event),
{
    let stay = StepView { state, ident: service.pkg_ident, restart: false, action: None };
    let chase = ActionView::Spawn {
        worker: WorkerView::of_service(service),
        mission: MissionView::ChaseLatest,
    };
    match state {
        UpdaterState::AtOnce => match event {
            EventView::Package(p) => StepView {
                state,
                ident: p,
                restart: true,
                action: None,
            },
            EventView::Empty => stay,
            EventView::Disconnected => StepView { action: Some(chase), ..stay },
        },
        UpdaterState::Rolling(RollingState::AwaitingElection) => match census {
            None => stay,
            Some(group) => {
                if service.topology == Topology::Leader {
                    match (group.me, group.leader) {
                        (Some(me), Some(leader)) => StepView {
                            state: UpdaterState::Rolling(RollingState::InElection),
                            action: Some(
                                ActionView::StartElection {
                                    suitability: spec_leader_suitability(
                                        me.member_id,
                                        leader.member_id,
                                    ),
                                },
                            ),
                            ..stay
                        },
                        _ => stay,
                    }
                } else {
                    StepView {
                        state: UpdaterState::Rolling(RollingState::InElection),
                        action: Some(ActionView::StartElection { suitability: 0 }),
                        ..stay
                    }
                }
            },
        },
        UpdaterState::Rolling(RollingState::InElection) => match census {
            None => stay,
            Some(group) => match (group.me, group.update_leader) {
                (Some(me), Some(update_leader)) => StepView {
                    state: if me.member_id == update_leader.member_id {
                        UpdaterState::Rolling(RollingState::Leader(LeaderPhase::Waiting))
                    } else {
                        UpdaterState::Rolling(RollingState::Follower(FollowerPhase::Waiting))
                    },
                    ..stay
                },
                _ => stay,
            },
        },
        UpdaterState::Rolling(RollingState::Leader(LeaderPhase::Polling)) => match event {
            EventView::Package(p) => StepView {
                state: UpdaterState::Rolling(RollingState::Leader(LeaderPhase::Waiting)),
                ident: p,
                restart: true,
                action: None,
            },
            EventView::Empty => stay,
            EventView::Disconnected => StepView { action: Some(chase), ..stay },
        },
        UpdaterState::Rolling(RollingState::Leader(LeaderPhase::Waiting)) => {
            let group = census->0;
            if exists|i: int|
                0 <= i < group.members.len() && (#[trigger] group.members[i]).pkg
                    != group.me->0.pkg {
                stay
            } else {
                StepView {
                    state: UpdaterState::Rolling(RollingState::Leader(LeaderPhase::Polling)),
                    action: Some(chase),
                    ..stay
                }
            }
        },
        UpdaterState::Rolling(RollingState::Follower(FollowerPhase::Waiting)) => {
            let group = census->0;
            match (group.update_leader, group.previous_peer, group.me) {
                (Some(update_leader), Some(peer), Some(me)) => {
                    if update_leader.pkg == me.pkg {
                        // No upgrade in progress.
                        stay
                    } else if update_leader.pkg != peer.pkg {
                        // An upgrade is in progress but the predecessor
                        // has not finished.
                        stay
                    } else {
                        StepView {
                            state: UpdaterState::Rolling(
                                RollingState::Follower(FollowerPhase::Updating),
                            ),
                            action: Some(
                                ActionView::Spawn {
                                    worker: WorkerView::of_service(service),
                                    mission: spec_mission_for(update_leader.pkg),
                                },
                            ),
                            ..stay
                        }
                    }
                },
                _ => stay,
            }
        },
        UpdaterState::Rolling(RollingState::Follower(FollowerPhase::Updating)) => {
            let group = census->0;
            match event {
                EventView::Package(p) => StepView {
                    state: UpdaterState::Rolling(RollingState::Follower(FollowerPhase::Waiting)),
                    ident: p,
                    restart: true,
                    action: None,
                },
                EventView::Empty => stay,
                EventView::Disconnected => StepView {
                    action: Some(
                        ActionView::Spawn {
                            worker: WorkerView::of_service(service),
                            mission: spec_mission_for(group.update_leader->0.pkg),
                        },
                    ),
                    ..stay
                },
            }
        },
    }
}

/// Whether any member advertises a package other than `me`'s.
fn any_member_differs(members: &Vec<CensusMember>, me: &CensusMember) -> (r: bool)
    ensures
        r == exists|i: int|
            0 <= i < members@.len() && (#[trigger] members@[i])@.pkg != me@.pkg,
{
    let mut idx: usize = 0;
    while idx < members.len()
        invariant
            0 <= idx <= members@.len(),
            forall|i: int| 0 <= i < idx ==> (#[trigger] members@[i])@.pkg == me@.pkg,
        decreases members@.len() - idx,
    {
        if !opt_ident_eq(&members[idx].pkg, &me.pkg) {
            assert(members@[idx as int]@.pkg != me@.pkg);
            return true;
        }
        assert(members@[idx as int]@.pkg == me@.pkg);
        idx = idx + 1;
    }
    false
}

/// The exact mission a respawned or fresh follower worker is given.
fn mission_for(pkg: &Option<PackageIdent>) -> (m: Mission)
    ensures
        m@ == spec_mission_for(opt_ident_view(*pkg)),
{
    match pkg {
        Some(p) => Mission::FetchExact(p.duplicate()),
        None => Mission::ChaseLatest,
    }
}

/// The mathematical value of one registration.
#[verifier::ext_equal]
pub ghost struct AddView {
    pub states: Map<Seq<char>, UpdaterState>,
    pub added: bool,
    pub action: Option<ActionView>,
}

/// What registering a service does to the registry: nothing for a
/// disabled strategy; otherwise a fresh entry — with a chase-latest
/// worker for at-once — unless the group already has one.
pub open spec fn spec_add(states: Map<Seq<char>, UpdaterState>, service: ServiceView) -> AddView {
    match service.update_strategy {
        UpdateStrategy::Disabled => AddView { states, added: false, action: None },
        UpdateStrategy::AtOnce => {
            if states.contains_key(service.service_group) {
                AddView { states, added: true, action: None }
            } else {
                AddView {
                    states: states.insert(service.service_group, UpdaterState::AtOnce),
                    added: true,
                    action: Some(
                        ActionView::Spawn {
                            worker: WorkerView::of_service(service),
                            mission: MissionView::ChaseLatest,
                        },
                    ),
                }
            }
        },
        UpdateStrategy::Rolling => {
            if states.contains_key(service.service_group) {
                AddView { states, added: true, action: None }
            } else {
                AddView {
                    states: states.insert(
                        service.service_group,
                        UpdaterState::Rolling(RollingState::AwaitingElection),
                    ),
                    added: true,
                    action: None,
                }
            }
        },
    }
}

/// Registering a service twice is the same as registering it once: the
/// second registration reports the same answer but changes no state and
/// spawns no worker.
pub proof fn lemma_add_idempotent(states: Map<Seq<char>, UpdaterState>, service: ServiceView)
    ensures
        ({
            let once = spec_add(states, service);
            let twice = spec_add(once.states, service);
            &&& twice.states == once.states
            &&& twice.added == once.added
            &&& twice.action is None
        }),
{
}

/// A tick for one service group neither observes nor mutates another
/// group's entry: afterwards every other group is registered exactly as
/// before, with exactly the state it had.
pub proof fn lemma_tick_isolated(
    states: Map<Seq<char>, UpdaterState>,
    service: ServiceView,
    census: Option<GroupView>,
    event: EventView,
    other: Seq<char>,
)
    requires
        other != service.service_group,
        states.contains_key(service.service_group),
    ensures
        ({
            let after = states.insert(
                service.service_group,
                spec_step(states[service.service_group], service, census, event).state,
            );
            &&& after.contains_key(other) == states.contains_key(other)
            &&& after.contains_key(other) ==> after[other] == states[other]
        }),
{
}

/// The updater registry: one state machine per registered service group.
pub struct ServiceUpdater {
    states: vstd::hash_map::StringHashMap<UpdaterState>,
}

impl View for ServiceUpdater {
    type V = Map<Seq<char>, UpdaterState>;

    closed spec fn view(&self) -> Map<Seq<char>, UpdaterState> {
        self.states@
    }
}

impl ServiceUpdater {
    /// An empty registry.
    pub fn new() -> (r: ServiceUpdater)
        ensures
            r@ == Map::<Seq<char>, UpdaterState>::empty(),
    {
        ServiceUpdater { states: vstd::hash_map::StringHashMap::new() }
    }

    /// Registers a service for updates. Returns whether the service has
    /// an update strategy at all, and the worker the caller must spawn
    /// when a fresh at-once entry was made. Registering an
    /// already-registered group changes nothing.
    pub fn add(&mut self, service: &Service) -> (r: AddOutcome)
        ensures
            ({
                let res = spec_add(old(self)@, service@);
                &&& final(self)@ == res.states
                &&& r.added == res.added
                &&& opt_action_view(r.action) == res.action
            }),
    {
        match service.update_strategy {
            UpdateStrategy::Disabled => AddOutcome { added: false, action: None },
            UpdateStrategy::AtOnce => {
                if self.states.contains_key(service.service_group.as_str()) {
                    AddOutcome { added: true, action: None }
                } else {
                    let worker = Worker::new(service);
                    self.states.insert(service.service_group.clone(), UpdaterState::AtOnce);
                    AddOutcome {
                        added: true,
                        action: Some(Action::Spawn { worker, mission: Mission::ChaseLatest }),
                    }
                }
            },
            UpdateStrategy::Rolling => {
                if self.states.contains_key(service.service_group.as_str()) {
                    AddOutcome { added: true, action: None }
                } else {
                    self.states.insert(
                        service.service_group.clone(),
                        UpdaterState::Rolling(RollingState::AwaitingElection),
                    );
                    AddOutcome { added: true, action: None }
                }
            },
        }
    }

    /// The registered state of one group, so a caller can see which
    /// census slots the next transition is going to read.
    pub fn state_of(&self, service_group: &str) -> (r: Option<UpdaterState>)
        ensures
            r == if self@.contains_key(service_group@) {
                Some(self@[service_group@])
            } else {
                None::<UpdaterState>
            },
    {
        match self.states.get(service_group) {
            Some(s) => Some(*s),
            None => None,
        }
    }

    /// Drops a group's entry. The caller drops the group's receiver with
    /// it, which ends any worker at its next send.
    pub fn remove(&mut self, service_group: &str)
        ensures
            final(self)@ == old(self)@.remove(service_group@),
    {
        self.states.remove(service_group);
    }

    /// Advances the given service's state machine by at most one
    /// transition, exactly as [`spec_step`] says, and reports whether a
    /// freshly installed package was applied — the signal to restart the
    /// service. A service whose group was never registered is left
    /// alone.
    pub fn check_for_updated_package(
        &mut self,
        service: &mut Service,
        census_group: Option<&CensusGroup>,
        event: ChannelEvent,
    ) -> (outcome: TickOutcome)
        requires
            old(self)@.contains_key(old(service)@.service_group) ==> step_permitted(
                old(self)@[old(service)@.service_group],
                crate::census::opt_group_view(census_group),
                event@,
            ),
        ensures
            ({
                let key = old(service)@.service_group;
                let census = crate::census::opt_group_view(census_group);
                if old(self)@.contains_key(key) {
                    let step = spec_step(old(self)@[key], old(service)@, census, event@);
                    &&& final(self)@ == old(self)@.insert(key, step.state)
                    &&& final(service)@ == old(service)@.with_ident(step.ident)
                    &&& outcome.restart == step.restart
                    &&& opt_action_view(outcome.action) == step.action
                } else {
                    &&& final(self)@ == old(self)@
                    &&& final(service)@ == old(service)@
                    &&& outcome.restart == false
                    &&& outcome.action is None
                }
            }),
    {
        let state = match self.states.get(service.service_group.as_str()) {
            Some(s) => *s,
            None => {
                return TickOutcome { restart: false, action: None };
            },
        };
        let mut new_state = state;
        let mut restart = false;
        let mut action: Option<Action> = None;
        match state {
            UpdaterState::AtOnce => match event {
                ChannelEvent::Package(p) => {
                    service.update_package(p);
                    restart = true;
                },
                ChannelEvent::Empty => {},
                ChannelEvent::Disconnected => {
                    action = Some(
                        Action::Spawn { worker: Worker::new(service), mission: Mission::ChaseLatest },
                    );
                },
            },
            UpdaterState::Rolling(RollingState::AwaitingElection) => match census_group {
                None => {},
                Some(group) => {
                    if service.topology == Topology::Leader {
                        match (&group.me, &group.leader) {
                            (Some(me), Some(leader)) => {
                                let suitability: u64 = if me.member_id.eq(&leader.member_id) {
                                    0
                                } else {
                                    u64::MAX
                                };
                                action = Some(Action::StartElection { suitability });
                                new_state = UpdaterState::Rolling(RollingState::InElection);
                            },
                            _ => {},
                        }
                    } else {
                        action = Some(Action::StartElection { suitability: 0 });
                        new_state = UpdaterState::Rolling(RollingState::InElection);
                    }
                },
            },
            UpdaterState::Rolling(RollingState::InElection) => match census_group {
                None => {},
                Some(group) => match (&group.me, &group.update_leader) {
                    (Some(me), Some(update_leader)) => {
                        if me.member_id.eq(&update_leader.member_id) {
                            new_state = UpdaterState::Rolling(
                                RollingState::Leader(LeaderPhase::Waiting),
                            );
                        } else {
                            new_state = UpdaterState::Rolling(
                                RollingState::Follower(FollowerPhase::Waiting),
                            );
                        }
                    },
                    _ => {},
                },
            },
            UpdaterState::Rolling(RollingState::Leader(LeaderPhase::Polling)) => match event {
                ChannelEvent::Package(p) => {
                    service.update_package(p);
                    restart = true;
                    new_state = UpdaterState::Rolling(RollingState::Leader(LeaderPhase::Waiting));
                },
                ChannelEvent::Empty => {},
                ChannelEvent::Disconnected => {
                    action = Some(
                        Action::Spawn { worker: Worker::new(service), mission: Mission::ChaseLatest },
                    );
                },
            },
            UpdaterState::Rolling(RollingState::Leader(LeaderPhase::Waiting)) => {
                let group = census_group.unwrap();
                let differs = match &group.me {
                    Some(me) => {
                        let d = any_member_differs(&group.members, me);
                        proof {
                            let gv = group@;
                            let ms = group.members@;
                            if d {
                                let i = choose|i: int|
                                    0 <= i < ms.len() && (#[trigger] ms[i])@.pkg != me@.pkg;
                                assert(gv.members[i] == ms[i]@);
                            } else {
                                assert forall|i: int|
                                    0 <= i < gv.members.len() implies (#[trigger] gv.members[i]).pkg
                                    == gv.me->0.pkg by {
                                    assert(gv.members[i] == ms[i]@);
                                    assert(ms[i]@.pkg == me@.pkg);
                                }
                            }
                        }
                        d
                    },
                    None => {
                        proof {
                            assert(group@.members.len() == 0);
                        }
                        false
                    },
                };
                if !differs {
                    action = Some(
                        Action::Spawn { worker: Worker::new(service), mission: Mission::ChaseLatest },
                    );
                    new_state = UpdaterState::Rolling(RollingState::Leader(LeaderPhase::Polling));
                }
            },
            UpdaterState::Rolling(RollingState::Follower(FollowerPhase::Waiting)) => {
                let group = census_group.unwrap();
                match (&group.update_leader, &group.previous_peer, &group.me) {
                    (Some(update_leader), Some(peer), Some(me)) => {
                        if opt_ident_eq(&update_leader.pkg, &me.pkg) {
                            // Not in an update.
                        } else if !opt_ident_eq(&update_leader.pkg, &peer.pkg) {
                            // In an update, but not our turn yet.
                        } else {
                            action = Some(
                                Action::Spawn {
                                    worker: Worker::new(service),
                                    mission: mission_for(&update_leader.pkg),
                                },
                            );
                            new_state = UpdaterState::Rolling(
                                RollingState::Follower(FollowerPhase::Updating),
                            );
                        }
                    },
                    _ => {},
                }
            },
            UpdaterState::Rolling(RollingState::Follower(FollowerPhase::Updating)) => {
                let group = census_group.unwrap();
                match event {
                    ChannelEvent::Package(p) => {
                        service.update_package(p);
                        restart = true;
                        new_state = UpdaterState::Rolling(
                            RollingState::Follower(FollowerPhase::Waiting),
                        );
                    },
                    ChannelEvent::Empty => {},
                    ChannelEvent::Disconnected => {
                        let target = group.update_leader.as_ref().unwrap();
                        action = Some(
                            Action::Spawn {
                                worker: Worker::new(service),
                                mission: mission_for(&target.pkg),
                            },
                        );
                    },
                }
            },
        }
        self.states.insert(service.service_group.clone(), new_state);
        TickOutcome { restart, action }
    }
}

} // verus!
