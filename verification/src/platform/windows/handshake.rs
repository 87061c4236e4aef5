//! The handshake between the caller who asks for a window and the thread
//! that makes it.
//!
//! The caller starts the making of the window, on its own thread if the
//! window has a parent and on a new thread if it has none, and then waits
//! for one answer. The thread that makes the window sends that answer as soon
//! as it knows it, once, whether the window was made or not. A thread that
//! was started for a window that was made does not end there: it pumps the
//! messages of the window until the window manager says that there are no
//! more.

use vstd::prelude::*;

use crate::platform::windows::init::CreationPath;

verus! {

/// What the thread that makes a window is doing.
#[derive(Clone, Copy, Debug, PartialEq, Eq, Structural)]
pub enum WorkerPhase {
    /// Making the window.
    Init,
    /// Sending the answer to the caller.
    Send,
    /// Waiting for the next message.
    GetMessage,
    /// Handling a message.
    Dispatch,
    /// Nothing more.
    Finished,
}

/// What the thread that makes a window is to do next.
#[derive(Clone, Copy, Debug, PartialEq, Eq, Structural)]
pub enum WorkerAction {
    /// Make the window.
    Init,
    /// Send the caller the window, or why there is none.
    SendResult,
    /// Wait until the window manager has a message.
    GetMessage,
    /// Translate the message and hand it to the handler of its window.
    DispatchMessage,
    /// Return: on the thread of the caller, to the caller; on a thread of its
    /// own, for good.
    Return,
}

/// What the thread that makes a window has done.
#[derive(Clone, Copy, Debug, PartialEq, Eq, Structural)]
pub enum WorkerEvent {
    /// The making of the window has ended; `created` says whether there is a
    /// window.
    InitDone { created: bool },
    /// The answer went to the caller.
    ResultSent,
    /// The window manager returned from the wait for a message with
    /// `result`. Zero says that there will be no more messages.
    Message { result: i32 },
    /// The message was handled.
    Dispatched,
}

/// The thread that makes a window, as far as it has come.
#[derive(Clone, Copy, Debug, PartialEq, Eq, Structural)]
pub struct Handshake {
    /// On which thread the window is made.
    pub path: CreationPath,
    /// What the thread is doing.
    pub phase: WorkerPhase,
    /// Whether the window was made. `false` until that is known.
    pub created: bool,
}

impl Handshake {
    /// The thread before it has done anything.
    pub open spec fn start(path: CreationPath) -> Handshake {
        Handshake { path, phase: WorkerPhase::Init, created: false }
    }

    /// Whether the caller has to start a thread for the window, or makes it
    /// where it stands.
    pub open spec fn spawns_thread(self) -> bool {
        self.path is Standalone
    }

    /// Whether the answer has gone to the caller.
    pub open spec fn has_answered(self) -> bool {
        self.phase == WorkerPhase::GetMessage || self.phase == WorkerPhase::Dispatch || self.phase
            == WorkerPhase::Finished
    }

    /// The thread after the given event.
    ///
    /// Once the making of the window has ended, the answer is sent. After
    /// that a thread of its own whose window was made pumps messages, one
    /// after the other, until the wait for a message returns zero; any other
    /// thread is done. An event that the action that is due does not bring
    /// changes nothing.
    pub open spec fn step(self, event: WorkerEvent) -> Handshake {
        match (self.phase, event) {
            (WorkerPhase::Init, WorkerEvent::InitDone { created }) => Handshake {
                phase: WorkerPhase::Send,
                created,
                ..self
            },
            (WorkerPhase::Send, WorkerEvent::ResultSent) => Handshake {
                phase: if self.path is Standalone && self.created {
                    WorkerPhase::GetMessage
                } else {
                    WorkerPhase::Finished
                },
                ..self
            },
            (WorkerPhase::GetMessage, WorkerEvent::Message { result }) => Handshake {
                phase: if result == 0 {
                    WorkerPhase::Finished
                } else {
                    WorkerPhase::Dispatch
                },
                ..self
            },
            (WorkerPhase::Dispatch, WorkerEvent::Dispatched) => Handshake {
                phase: WorkerPhase::GetMessage,
                ..self
            },
            _ => self,
        }
    }

    /// What the thread is to do next.
    pub open spec fn spec_action(self) -> WorkerAction {
        match self.phase {
            WorkerPhase::Init => WorkerAction::Init,
            WorkerPhase::Send => WorkerAction::SendResult,
            WorkerPhase::GetMessage => WorkerAction::GetMessage,
            WorkerPhase::Dispatch => WorkerAction::DispatchMessage,
            WorkerPhase::Finished => WorkerAction::Return,
        }
    }

    /// The thread before it has done anything.
    pub fn new(path: CreationPath) -> (handshake: Handshake)
        ensures
            handshake == Handshake::start(path),
    {
        Handshake { path, phase: WorkerPhase::Init, created: false }
    }

    /// Whether the caller has to start a thread for the window.
    pub fn needs_thread(&self) -> (spawn: bool)
        ensures
            spawn == self.spawns_thread(),
    {
        match self.path {
            CreationPath::Standalone => true,
            CreationPath::Embedded { .. } => false,
        }
    }

    /// What the thread is to do next.
    pub fn action(&self) -> (action: WorkerAction)
        ensures
            action == self.spec_action(),
    {
        match self.phase {
            WorkerPhase::Init => WorkerAction::Init,
            WorkerPhase::Send => WorkerAction::SendResult,
            WorkerPhase::GetMessage => WorkerAction::GetMessage,
            WorkerPhase::Dispatch => WorkerAction::DispatchMessage,
            WorkerPhase::Finished => WorkerAction::Return,
        }
    }

    /// Takes what the thread has done.
    pub fn on_event(&mut self, event: WorkerEvent)
        ensures
            *final(self) == old(self).step(event),
    {
        match (self.phase, event) {
            (WorkerPhase::Init, WorkerEvent::InitDone { created }) => {
                self.created = created;
                self.phase = WorkerPhase::Send;
            },
            (WorkerPhase::Send, WorkerEvent::ResultSent) => {
                let pumps = match self.path {
                    CreationPath::Standalone => self.created,
                    CreationPath::Embedded { .. } => false,
                };
                if pumps {
                    self.phase = WorkerPhase::GetMessage;
                } else {
                    self.phase = WorkerPhase::Finished;
                }
            },
            (WorkerPhase::GetMessage, WorkerEvent::Message { result }) => {
                if result == 0 {
                    self.phase = WorkerPhase::Finished;
                } else {
                    self.phase = WorkerPhase::Dispatch;
                }
            },
            (WorkerPhase::Dispatch, WorkerEvent::Dispatched) => {
                self.phase = WorkerPhase::GetMessage;
            },
            _ => {},
        }
    }
}

/// A thread after a list of events, taken one after the other.
pub open spec fn run(from: Handshake, events: Seq<WorkerEvent>) -> Handshake
    decreases events.len(),
{
    if events.len() == 0 {
        from
    } else {
        run(from.step(events[0]), events.drop_first())
    }
}

/// How often the answer goes to the caller in a list of events: once for
/// each event that says so while the answer is due.
pub open spec fn answers_sent(from: Handshake, events: Seq<WorkerEvent>) -> nat
    decreases events.len(),
{
    if events.len() == 0 {
        0
    } else {
        let now: nat = if from.phase == WorkerPhase::Send && events[0] == WorkerEvent::ResultSent {
            1
        } else {
            0
        };
        now + answers_sent(from.step(events[0]), events.drop_first())
    }
}

/// From wherever a thread stands, the answer goes out once if it has gone by
/// the end and had not gone at the start, and not at all otherwise. A thread
/// that has answered never comes back to where it has not.
pub proof fn lemma_answers_from(from: Handshake, events: Seq<WorkerEvent>)
    ensures
        from.has_answered() ==> run(from, events).has_answered(),
        answers_sent(from, events) == (if run(from, events).has_answered()
            && !from.has_answered() {
            1nat
        } else {
            0nat
        }),
    decreases events.len(),
{
    if events.len() > 0 {
        lemma_answers_from(from.step(events[0]), events.drop_first());
    }
}

/// The caller gets one answer, and no more than one, on either path and
/// whatever the thread goes through: none while the window is being made or
/// the answer is due, and exactly one from then on.
pub proof fn lemma_one_answer(path: CreationPath, events: Seq<WorkerEvent>)
    ensures
        answers_sent(Handshake::start(path), events) <= 1,
        answers_sent(Handshake::start(path), events) == 1 <==> run(
            Handshake::start(path),
            events,
        ).has_answered(),
{
    lemma_answers_from(Handshake::start(path), events);
}

/// What a thread does once the answer has gone: a thread of its own whose
/// window was made waits for messages, and is not done; any other thread is
/// done.
pub proof fn lemma_after_the_answer(at: Handshake)
    requires
        at.phase == WorkerPhase::Send,
    ensures
        at.step(WorkerEvent::ResultSent).spec_action() == (if at.spawns_thread() && at.created {
            WorkerAction::GetMessage
        } else {
            WorkerAction::Return
        }),
{
}

/// A thread that pumps messages goes on for as long as the wait for a
/// message returns anything but zero, and is done when it returns zero.
pub proof fn lemma_pump(at: Handshake, result: i32)
    requires
        at.phase == WorkerPhase::GetMessage,
    ensures
        at.step(WorkerEvent::Message { result }).spec_action() == (if result == 0 {
            WorkerAction::Return
        } else {
            WorkerAction::DispatchMessage
        }),
        at.step(WorkerEvent::Message { result }).step(WorkerEvent::Dispatched).spec_action() == (
        if result == 0 {
            WorkerAction::Return
        } else {
            WorkerAction::GetMessage
        }),
{
}

} // verus!
