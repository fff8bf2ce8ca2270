use vstd::prelude::*;

use crate::db::Language;
use crate::protocol::{Command, DbResult, StorageError};

verus! {

/// One storage operation, as the worker asks the storage to run it.
#[derive(Debug)]
pub enum GatewayCall {
    CreateLanguage { name: String },
    ListLanguages,
}

/// What the storage answered to a `GatewayCall`.
#[derive(Debug)]
pub enum GatewayReply {
    Created,
    Listed { languages: Vec<Language> },
    Failed { error: StorageError },
}

/// The kind of command whose storage call is in flight.
#[derive(Clone, Copy, Debug, PartialEq, Eq, Structural)]
pub enum Pending {
    AddLanguage,
    GetAllLanguages,
}

/// The worker's states: waiting for a command, running one storage call, or
/// stopped because the command queue closed.
#[derive(Clone, Copy, Debug, PartialEq, Eq, Structural)]
pub enum DispatcherState {
    Idle,
    Executing { pending: Pending },
    Shutdown,
}

/// What happened to the worker: a command came off the queue, the storage
/// answered, or the command queue closed.
#[derive(Debug)]
pub enum DispatcherEvent {
    Received { command: Command },
    Replied { reply: GatewayReply },
    QueueClosed,
}

/// What the worker does next: run a storage call, put a result on the result
/// queue, stop, or nothing (for an event that does not fit its state).
#[derive(Debug)]
pub enum DispatcherAction {
    Call { call: GatewayCall },
    Respond { result: DbResult },
    Exit,
    Ignore,
}

pub open spec fn pending_of(command: Command) -> Pending {
    match command {
        Command::AddLanguage { .. } => Pending::AddLanguage,
        Command::GetAllLanguages => Pending::GetAllLanguages,
    }
}

/// The storage call that carries out `command`.
pub open spec fn call_for(command: Command) -> GatewayCall {
    match command {
        Command::AddLanguage { name } => GatewayCall::CreateLanguage { name },
        Command::GetAllLanguages => GatewayCall::ListLanguages,
    }
}

/// Whether `reply` is an answer to a call for a command of kind `pending`:
/// a failure answers any call.
pub open spec fn fits(pending: Pending, reply: GatewayReply) -> bool {
    match reply {
        GatewayReply::Created => pending == Pending::AddLanguage,
        GatewayReply::Listed { .. } => pending == Pending::GetAllLanguages,
        GatewayReply::Failed { .. } => true,
    }
}

/// The result published for a command of kind `pending` whose call was
/// answered by `reply` (where `fits(pending, reply)`).
pub open spec fn response(pending: Pending, reply: GatewayReply) -> DbResult {
    match reply {
        GatewayReply::Created => DbResult::AddLanguageResult,
        GatewayReply::Listed { languages } => DbResult::GetAllLanguagesResult { lang_vec: languages },
        GatewayReply::Failed { error } => DbResult::Error { msg: error.spec_message() },
    }
}

/// One transition of the worker: the next state and the action to perform.
pub open spec fn step_spec(state: DispatcherState, event: DispatcherEvent) -> (DispatcherState, DispatcherAction) {
    match state {
        DispatcherState::Idle => match event {
            DispatcherEvent::Received { command } => (
                DispatcherState::Executing { pending: pending_of(command) },
                DispatcherAction::Call { call: call_for(command) },
            ),
            DispatcherEvent::QueueClosed => (DispatcherState::Shutdown, DispatcherAction::Exit),
            DispatcherEvent::Replied { .. } => (state, DispatcherAction::Ignore),
        },
        DispatcherState::Executing { pending } => match event {
            DispatcherEvent::Replied { reply } => if fits(pending, reply) {
                (DispatcherState::Idle, DispatcherAction::Respond { result: response(pending, reply) })
            } else {
                (state, DispatcherAction::Ignore)
            },
            _ => (state, DispatcherAction::Ignore),
        },
        DispatcherState::Shutdown => (state, DispatcherAction::Ignore),
    }
}

/// The events that the worker sees when each command in turn is taken off the
/// queue and its storage call answered by the reply at the same position.
pub open spec fn exchange(commands: Seq<Command>, replies: Seq<GatewayReply>) -> Seq<DispatcherEvent>
    decreases commands.len(),
{
    if commands.len() == 0 || replies.len() == 0 {
        Seq::empty()
    } else {
        seq![
            DispatcherEvent::Received { command: commands[0] },
            DispatcherEvent::Replied { reply: replies[0] },
        ] + exchange(commands.drop_first(), replies.drop_first())
    }
}

/// The state reached and the actions taken when the worker takes `events` in order.
pub open spec fn run(state: DispatcherState, events: Seq<DispatcherEvent>) -> (DispatcherState, Seq<DispatcherAction>)
    decreases events.len(),
{
    if events.len() == 0 {
        (state, Seq::empty())
    } else {
        let (next, action) = step_spec(state, events[0]);
        let (last, actions) = run(next, events.drop_first());
        (last, seq![action] + actions)
    }
}

/// Commands are served one at a time and in order: when `n` commands are
/// queued and each storage call is answered, the worker makes the `n` calls
/// and publishes exactly `n` results, the `i`-th for the `i`-th command, none
/// lost, none repeated, and ends idle again.
pub proof fn lemma_results_in_order(commands: Seq<Command>, replies: Seq<GatewayReply>)
    requires
        commands.len() == replies.len(),
        forall|i: int| 0 <= i < commands.len() ==> fits(pending_of(#[trigger] commands[i]), replies[i]),
    ensures
        run(DispatcherState::Idle, exchange(commands, replies)).0 == DispatcherState::Idle,
        run(DispatcherState::Idle, exchange(commands, replies)).1.len() == 2 * commands.len(),
        forall|i: int| 0 <= i < commands.len() ==> {
            &&& #[trigger] run(DispatcherState::Idle, exchange(commands, replies)).1[2 * i]
                == DispatcherAction::Call { call: call_for(commands[i]) }
            &&& run(DispatcherState::Idle, exchange(commands, replies)).1[2 * i + 1]
                == DispatcherAction::Respond { result: response(pending_of(commands[i]), replies[i]) }
        },
    decreases commands.len(),
{
    if commands.len() > 0 {
        let rest_c = commands.drop_first();
        let rest_r = replies.drop_first();
        let tail = exchange(rest_c, rest_r);
        let events = exchange(commands, replies);
        let first = DispatcherEvent::Received { command: commands[0] };
        let second = DispatcherEvent::Replied { reply: replies[0] };
        assert(fits(pending_of(commands[0]), replies[0]));
        let mid = events.drop_first();
        assert(events[0] == first);
        assert(mid =~= seq![second] + tail);
        assert(mid[0] == second);
        assert(mid.drop_first() =~= tail);
        let executing = DispatcherState::Executing { pending: pending_of(commands[0]) };
        assert forall|i: int| 0 <= i < rest_c.len() implies fits(pending_of(#[trigger] rest_c[i]), rest_r[i]) by {
            assert(rest_c[i] == commands[i + 1]);
        }
        lemma_results_in_order(rest_c, rest_r);
        let acts = run(DispatcherState::Idle, events).1;
        let tail_acts = run(DispatcherState::Idle, tail).1;
        let call0 = DispatcherAction::Call { call: call_for(commands[0]) };
        let resp0 = DispatcherAction::Respond { result: response(pending_of(commands[0]), replies[0]) };
        assert(step_spec(DispatcherState::Idle, first) == (executing, call0));
        assert(step_spec(executing, second) == (DispatcherState::Idle, resp0));
        assert(run(executing, mid) == (run(DispatcherState::Idle, tail).0, seq![resp0] + tail_acts));
        assert(acts =~= seq![call0] + (seq![resp0] + tail_acts));
        assert forall|i: int| 0 <= i < commands.len() implies {
            &&& #[trigger] acts[2 * i] == DispatcherAction::Call { call: call_for(commands[i]) }
            &&& acts[2 * i + 1] == DispatcherAction::Respond { result: response(pending_of(commands[i]), replies[i]) }
        } by {
            if i > 0 {
                assert(rest_c[i - 1] == commands[i]);
                assert(rest_r[i - 1] == replies[i]);
                assert(acts[2 * i] == tail_acts[2 * (i - 1)]);
                assert(acts[2 * i + 1] == tail_acts[2 * (i - 1) + 1]);
            }
        }
    } else {
        assert(exchange(commands, replies) =~= Seq::empty());
    }
}

/// A failed storage call does not stall the worker: from idle, a command
/// whose call fails gets an `Error` result with a non-empty message, and the
/// next command is taken and its call made as usual.
pub proof fn lemma_failure_then_next(command: Command, error: StorageError, next: Command)
    requires
        error.wf(),
    ensures
        ({
            let (s1, a1) = step_spec(DispatcherState::Idle, DispatcherEvent::Received { command });
            let (s2, a2) = step_spec(s1, DispatcherEvent::Replied { reply: GatewayReply::Failed { error } });
            let (s3, a3) = step_spec(s2, DispatcherEvent::Received { command: next });
            &&& a1 == DispatcherAction::Call { call: call_for(command) }
            &&& a2 matches DispatcherAction::Respond { result: DbResult::Error { msg } }
            &&& msg@.len() > 0
            &&& s2 == DispatcherState::Idle
            &&& a3 == DispatcherAction::Call { call: call_for(next) }
            &&& s3 == DispatcherState::Executing { pending: pending_of(next) }
        }),
{
}

/// The storage worker's decisions. It owns no queue and no storage: the
/// caller hands it each event and performs the action it returns.
pub struct Dispatcher {
    state: DispatcherState,
}

impl View for Dispatcher {
    type V = DispatcherState;

    closed spec fn view(&self) -> DispatcherState {
        self.state
    }
}

impl Dispatcher {
    pub fn new() -> (r: Dispatcher)
        ensures
            r@ == DispatcherState::Idle,
    {
        Dispatcher { state: DispatcherState::Idle }
    }

    pub fn state(&self) -> (r: DispatcherState)
        ensures
            r == self@,
    {
        self.state
    }

    /// Whether the worker has stopped for good.
    pub fn is_shut_down(&self) -> (r: bool)
        ensures
            r == (self@ == DispatcherState::Shutdown),
    {
        match self.state {
            DispatcherState::Shutdown => true,
            _ => false,
        }
    }

    /// Takes one event, moves to the next state and returns the action to perform.
    pub fn step(&mut self, event: DispatcherEvent) -> (r: DispatcherAction)
        ensures
            (final(self)@, r) == step_spec(old(self)@, event),
    {
        match self.state {
            DispatcherState::Idle => match event {
                DispatcherEvent::Received { command } => {
                    match command {
                        Command::AddLanguage { name } => {
                            self.state = DispatcherState::Executing { pending: Pending::AddLanguage };
                            DispatcherAction::Call { call: GatewayCall::CreateLanguage { name } }
                        },
                        Command::GetAllLanguages => {
                            self.state = DispatcherState::Executing { pending: Pending::GetAllLanguages };
                            DispatcherAction::Call { call: GatewayCall::ListLanguages }
                        },
                    }
                },
                DispatcherEvent::QueueClosed => {
                    self.state = DispatcherState::Shutdown;
                    DispatcherAction::Exit
                },
                DispatcherEvent::Replied { .. } => DispatcherAction::Ignore,
            },
            DispatcherState::Executing { pending } => match event {
                DispatcherEvent::Replied { reply } => match reply {
                    GatewayReply::Created => {
                        if pending == Pending::AddLanguage {
                            self.state = DispatcherState::Idle;
                            DispatcherAction::Respond { result: DbResult::AddLanguageResult }
                        } else {
                            DispatcherAction::Ignore
                        }
                    },
                    GatewayReply::Listed { languages } => {
                        if pending == Pending::GetAllLanguages {
                            self.state = DispatcherState::Idle;
                            DispatcherAction::Respond {
                                result: DbResult::GetAllLanguagesResult { lang_vec: languages },
                            }
                        } else {
                            DispatcherAction::Ignore
                        }
                    },
                    GatewayReply::Failed { error } => {
                        self.state = DispatcherState::Idle;
                        DispatcherAction::Respond { result: DbResult::Error { msg: error.into_message() } }
                    },
                },
                _ => DispatcherAction::Ignore,
            },
            DispatcherState::Shutdown => DispatcherAction::Ignore,
        }
    }
}

} // verus!
