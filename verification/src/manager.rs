use vstd::prelude::*;

use crate::clock::LocalStamp;
use crate::config::Config;
use crate::schedule::ScheduleWindow;
use crate::schedule::parse_time_of_day;
use crate::schedule::spec_clock_event;
use crate::schedule::spec_parse_time;
use crate::server::MinecraftServer;
use crate::server::ServerError;

verus! {

/// A logical instruction flowing through the supervisor's single mailbox.
#[derive(Clone, Copy, PartialEq, Eq, Structural, Debug)]
pub enum ServerManagerEvent {
    /// The schedule clock matched the configured start time.
    ServerOn,
    /// The schedule clock matched the configured stop time.
    ServerOff,
    /// An operator interrupt: stop supervising after any in-flight stop.
    StopWatching,
    /// Nothing to do.
    Nil,
}

/// The supervisor's view of the run in flight.
#[derive(Clone, Copy, PartialEq, Eq, Structural, Debug)]
pub enum SupervisorState {
    /// No run in flight.
    Idle,
    /// A start was handed out but the worker is not yet confirmed.
    Launching,
    /// The start worker is active.
    Running,
    /// A stop was handed out; the worker's exit is awaited.
    Stopping,
}

/// What the shell owes after one consumed event: nothing, spawning the
/// worker that runs the server, or writing the shutdown instruction and
/// awaiting the worker.
#[derive(Clone, Copy, PartialEq, Eq, Structural, Debug)]
pub enum SupervisorAction {
    /// No work owed.
    DoNothing,
    /// Spawn the worker that starts the server and confirm it.
    SpawnStart,
    /// Deliver the shutdown instruction, then await the worker.
    StopServer,
}

/// One step of the supervisor state machine: the next state, the action
/// owed, and whether watching must end. A `ServerOn` is accepted only
/// when idle and a `ServerOff` only while a run is in flight, so
/// repeated events inside one matched minute collapse to one action.
pub open spec fn spec_transition(state: SupervisorState, event: ServerManagerEvent) -> (
    SupervisorState,
    SupervisorAction,
    bool,
) {
    match event {
        ServerManagerEvent::Nil => (state, SupervisorAction::DoNothing, false),
        ServerManagerEvent::ServerOn => match state {
            SupervisorState::Idle => (
                SupervisorState::Launching,
                SupervisorAction::SpawnStart,
                false,
            ),
            _ => (state, SupervisorAction::DoNothing, false),
        },
        ServerManagerEvent::ServerOff => match state {
            SupervisorState::Launching | SupervisorState::Running => (
                SupervisorState::Stopping,
                SupervisorAction::StopServer,
                false,
            ),
            _ => (state, SupervisorAction::DoNothing, false),
        },
        ServerManagerEvent::StopWatching => match state {
            SupervisorState::Launching | SupervisorState::Running => (
                SupervisorState::Stopping,
                SupervisorAction::StopServer,
                true,
            ),
            _ => (state, SupervisorAction::DoNothing, true),
        },
    }
}

/// The state the supervisor rests in after one event under the shell's
/// protocol: a handed-out spawn is confirmed at once, so a `SpawnStart`
/// leaves the supervisor `Running`.
pub open spec fn state_after(state: SupervisorState, event: ServerManagerEvent) -> SupervisorState {
    if spec_transition(state, event).1 == SupervisorAction::SpawnStart {
        SupervisorState::Running
    } else {
        spec_transition(state, event).0
    }
}

/// How many start workers a sequence of consumed events causes, from
/// `state`, under the shell's protocol.
pub open spec fn spawn_count(state: SupervisorState, events: Seq<ServerManagerEvent>) -> nat
    decreases events.len(),
{
    if events.len() == 0 {
        0
    } else {
        (if spec_transition(state, events[0]).1 == SupervisorAction::SpawnStart {
            1nat
        } else {
            0nat
        }) + spawn_count(state_after(state, events[0]), events.drop_first())
    }
}

proof fn lemma_spawn_count_server_on(state: SupervisorState, events: Seq<ServerManagerEvent>)
    requires
        forall|i: int| 0 <= i < events.len() ==> events[i] == ServerManagerEvent::ServerOn,
    ensures
        state == SupervisorState::Idle && events.len() >= 1 ==> spawn_count(state, events) == 1,
        state == SupervisorState::Running ==> spawn_count(state, events) == 0,
    decreases events.len(),
{
    if events.len() > 0 {
        assert forall|i: int|
            0 <= i < events.drop_first().len() implies events.drop_first()[i]
            == ServerManagerEvent::ServerOn by {
            assert(events.drop_first()[i] == events[i + 1]);
        }
        lemma_spawn_count_server_on(state_after(state, events[0]), events.drop_first());
    }
}

/// Law: with a well-formed window, every clock sample inside the start
/// mark's minute yields `ServerOn`, and a supervisor that begins `Idle`
/// spawns exactly one start worker, however many samples land in that
/// minute.
pub proof fn lemma_one_start_per_minute(w: ScheduleWindow, samples: Seq<LocalStamp>)
    requires
        w.wf(),
        samples.len() >= 1,
        forall|i: int|
            0 <= i < samples.len() ==> (#[trigger] samples[i]).hour == w.on.hour
                && samples[i].minute == w.on.minute,
    ensures
        forall|i: int|
            0 <= i < samples.len() ==> #[trigger] spec_clock_event(
                w,
                samples[i].hour,
                samples[i].minute,
            ) == ServerManagerEvent::ServerOn,
        spawn_count(
            SupervisorState::Idle,
            samples.map_values(|st: LocalStamp| spec_clock_event(w, st.hour, st.minute)),
        ) == 1,
{
    let events = samples.map_values(|st: LocalStamp| spec_clock_event(w, st.hour, st.minute));
    assert forall|i: int|
        0 <= i < events.len() implies events[i] == ServerManagerEvent::ServerOn by {
        assert(samples[i].hour == w.on.hour);
    }
    lemma_spawn_count_server_on(SupervisorState::Idle, events);
}

/// The supervisor: the single consumer of the event mailbox. It owns
/// the parsed schedule window and the state machine that serializes all
/// start and stop decisions; the shell performs the actions it hands
/// out.
///
/// The supervisor only reacts to clock samples that land inside a
/// mark's minute: starting it in the middle of the daily window does
/// not start the server early, and equal marks are rejected at
/// construction, so no sample can match both.
pub struct MinecraftServerManager {
    window: ScheduleWindow,
    state: SupervisorState,
    watching: bool,
}

impl MinecraftServerManager {
    /// The parsed daily window.
    pub closed spec fn spec_window(&self) -> ScheduleWindow {
        self.window
    }

    /// The run in flight, if any.
    pub closed spec fn spec_state(&self) -> SupervisorState {
        self.state
    }

    /// False once a `StopWatching` event was consumed.
    pub closed spec fn spec_watching(&self) -> bool {
        self.watching
    }

    /// The window the supervisor was built with is well formed.
    pub open spec fn wf(&self) -> bool {
        self.spec_window().wf()
    }

    /// Validates the configuration and builds the supervisor together
    /// with the server core it will drive. Fails, in this order of
    /// precedence, with `NotFound` when the executable or the artifact
    /// is missing, with `ScheduleParse` when a mark is not a valid
    /// `HH:MM` time, and with `ScheduleConflict` when the two marks are
    /// equal, so that no window exists.
    pub fn new(config: Config, java_exists: bool, jar_exists: bool) -> (r: Result<
        (MinecraftServerManager, MinecraftServer),
        ServerError,
    >)
        ensures
            !java_exists ==> (r matches Err(ServerError::NotFound { path }) && path@
                == config.java@),
            java_exists && !jar_exists ==> (r matches Err(ServerError::NotFound { path }) && path@
                == config.server.jar@),
            java_exists && jar_exists && spec_parse_time(config.server.on@) is None ==> (
            r matches Err(ServerError::ScheduleParse { input }) && input@ == config.server.on@),
            java_exists && jar_exists && spec_parse_time(config.server.on@) is Some
                && spec_parse_time(config.server.off@) is None ==> (r matches Err(
                ServerError::ScheduleParse { input },
            ) && input@ == config.server.off@),
            java_exists && jar_exists && spec_parse_time(config.server.on@) is Some
                && spec_parse_time(config.server.off@) is Some && spec_parse_time(
                config.server.on@,
            ) == spec_parse_time(config.server.off@) ==> r matches Err(
                ServerError::ScheduleConflict,
            ),
            java_exists && jar_exists && spec_parse_time(config.server.on@) is Some
                && spec_parse_time(config.server.off@) is Some && spec_parse_time(
                config.server.on@,
            ) != spec_parse_time(config.server.off@) ==> (r matches Ok(p) && spec_parse_time(
                config.server.on@,
            ) == Some(p.0.spec_window().on) && spec_parse_time(config.server.off@) == Some(
                p.0.spec_window().off,
            ) && p.0.wf() && p.0.spec_state() == SupervisorState::Idle && p.0.spec_watching()
                && p.1.spec_config() == config && !p.1.spec_started() && p.1.log()
                == Seq::<char>::empty() && p.1.stdin_writes() == Seq::<Seq<u8>>::empty()),
    {
        let on_parsed = parse_time_of_day(config.server.on.as_str());
        let off_parsed = parse_time_of_day(config.server.off.as_str());
        let on_input = config.server.on.clone();
        let off_input = config.server.off.clone();
        let server = match MinecraftServer::new(config, java_exists, jar_exists) {
            Ok(s) => s,
            Err(e) => {
                return Err(e);
            },
        };
        let on = match on_parsed {
            Some(t) => t,
            None => {
                return Err(ServerError::ScheduleParse { input: on_input });
            },
        };
        let off = match off_parsed {
            Some(t) => t,
            None => {
                return Err(ServerError::ScheduleParse { input: off_input });
            },
        };
        if on == off {
            return Err(ServerError::ScheduleConflict);
        }
        let manager = MinecraftServerManager {
            window: ScheduleWindow { on, off },
            state: SupervisorState::Idle,
            watching: true,
        };
        Ok((manager, server))
    }

    /// Consumes one logical event and hands back the action the shell
    /// owes, following [`spec_transition`]. A `ServerOn` while a run is
    /// in flight and a `ServerOff` while idle change nothing and owe
    /// nothing.
    pub fn handle_event(&mut self, event: &ServerManagerEvent) -> (action: SupervisorAction)
        ensures
            final(self).spec_state() == spec_transition(old(self).spec_state(), *event).0,
            action == spec_transition(old(self).spec_state(), *event).1,
            final(self).spec_watching() == (old(self).spec_watching() && !spec_transition(
                old(self).spec_state(),
                *event,
            ).2),
            final(self).spec_window() == old(self).spec_window(),
            old(self).spec_state() == SupervisorState::Running && *event
                == ServerManagerEvent::ServerOn ==> action == SupervisorAction::DoNothing
                && final(self).spec_state() == old(self).spec_state(),
            old(self).spec_state() == SupervisorState::Idle && *event
                == ServerManagerEvent::ServerOff ==> action == SupervisorAction::DoNothing
                && final(self).spec_state() == old(self).spec_state(),
    {
        match *event {
            ServerManagerEvent::Nil => SupervisorAction::DoNothing,
            ServerManagerEvent::ServerOn => {
                match self.state {
                    SupervisorState::Idle => {
                        self.state = SupervisorState::Launching;
                        SupervisorAction::SpawnStart
                    },
                    _ => SupervisorAction::DoNothing,
                }
            },
            ServerManagerEvent::ServerOff => {
                match self.state {
                    SupervisorState::Launching | SupervisorState::Running => {
                        self.state = SupervisorState::Stopping;
                        SupervisorAction::StopServer
                    },
                    _ => SupervisorAction::DoNothing,
                }
            },
            ServerManagerEvent::StopWatching => {
                self.watching = false;
                match self.state {
                    SupervisorState::Launching | SupervisorState::Running => {
                        self.state = SupervisorState::Stopping;
                        SupervisorAction::StopServer
                    },
                    _ => SupervisorAction::DoNothing,
                }
            },
        }
    }

    /// Confirms that the start worker handed out by a `SpawnStart` is
    /// now active.
    pub fn worker_spawned(&mut self)
        requires
            old(self).spec_state() == SupervisorState::Launching,
        ensures
            final(self).spec_state() == SupervisorState::Running,
            final(self).spec_window() == old(self).spec_window(),
            final(self).spec_watching() == old(self).spec_watching(),
    {
        self.state = SupervisorState::Running;
    }

    /// Records that the start worker ended, by natural exit, by a start
    /// failure, or as the completed join after a stop. The lifecycle is
    /// forced back to `Idle`, so the next `ServerOn` can try again.
    pub fn worker_finished(&mut self)
        requires
            old(self).spec_state() != SupervisorState::Idle,
        ensures
            final(self).spec_state() == SupervisorState::Idle,
            final(self).spec_window() == old(self).spec_window(),
            final(self).spec_watching() == old(self).spec_watching(),
    {
        self.state = SupervisorState::Idle;
    }

    /// Whether the event loop should keep consuming events.
    pub fn watching(&self) -> (r: bool)
        ensures
            r == self.spec_watching(),
    {
        self.watching
    }

    /// The run in flight, if any.
    pub fn state(&self) -> (s: SupervisorState)
        ensures
            s == self.spec_state(),
    {
        self.state
    }

    /// The parsed daily window, for the clock that samples against it.
    pub fn window(&self) -> (w: ScheduleWindow)
        ensures
            w == self.spec_window(),
    {
        self.window
    }
}

} // verus!
