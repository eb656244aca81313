//! The daemon's decisions on client requests and on events: what the creature does, what
//! the client is answered, and what is written to the command log.
use vstd::prelude::*;

use crate::clock::{now, Timestamp};
use crate::creature::{step, veto_verdict, CreatureEngine, EngineView};
use crate::model::{ClientMessage, CreatureEvent, DaemonResponse};

verus! {

/// A command to write to the command log.
#[derive(Clone, Debug)]
pub struct CommandRecord {
    pub command: Option<String>,
    pub exit_code: Option<i32>,
    pub cwd: Option<String>,
    pub shell: Option<String>,
}

/// How the daemon answers a request.
#[derive(Clone, Debug)]
pub enum Reply {
    /// This response.
    Respond(DaemonResponse),
    /// The weekly roast, which needs the command log.
    Roast,
}

/// Everything that follows from one request.
#[derive(Clone, Debug)]
pub struct Outcome {
    pub reply: Reply,
    /// The command to append to the command log, if any.
    pub record: Option<CommandRecord>,
    /// Whether the creature is to be saved and its new state announced.
    pub save: bool,
}

/// What a notification does to the engine: first the pending command, then the finished
/// one (which carries the pending command's text).
pub open spec fn after_notify(
    e: EngineView,
    exit_code: Option<i32>,
    cwd: Option<String>,
    pending_cmd: Option<String>,
    now: Timestamp,
) -> EngineView {
    let e = match pending_cmd {
        Some(cmd) => step(e, CreatureEvent::CommandPending { command: cmd }, now),
        None => e,
    };
    match exit_code {
        Some(code) => step(
            e,
            CreatureEvent::CommandFinished { exit_code: code, command: pending_cmd, cwd: cwd },
            now,
        ),
        None => e,
    }
}

/// What the engine becomes on request `msg` at time `now`.
pub open spec fn engine_after(e: EngineView, msg: ClientMessage, now: Timestamp) -> EngineView {
    match msg {
        ClientMessage::Notify { exit_code, cwd, pending_cmd, .. } => after_notify(
            e,
            exit_code,
            cwd,
            pending_cmd,
            now,
        ),
        _ => e,
    }
}

/// `o` is the outcome of request `msg` for the creature `e` (as it stands after the request).
pub open spec fn outcome_of(o: Outcome, msg: ClientMessage, e: EngineView) -> bool {
    match msg {
        ClientMessage::Notify { exit_code, cwd, pending_cmd, shell } => {
            &&& o.reply == Reply::Respond(DaemonResponse::Ack)
            &&& o.save
            &&& o.record == match exit_code {
                Some(code) => Some(
                    CommandRecord {
                        command: pending_cmd,
                        exit_code: Some(code),
                        cwd: cwd,
                        shell: shell,
                    },
                ),
                None => None,
            }
        },
        ClientMessage::Veto { command, args } => {
            &&& o.reply matches Reply::Respond(DaemonResponse::VetoResult { allowed, reason })
            &&& allowed == veto_verdict(command@, args@).0
            &&& reason@ == veto_verdict(command@, args@).1
            &&& !o.save
            &&& o.record is None
        },
        ClientMessage::Status | ClientMessage::Ping => {
            &&& o.reply == Reply::Respond(DaemonResponse::State { creature: e.state })
            &&& !o.save
            &&& o.record is None
        },
        ClientMessage::Roast => {
            &&& o.reply == Reply::Roast
            &&& !o.save
            &&& o.record is None
        },
    }
}

/// Handles a client request at time `now`.
pub fn handle_message_at(engine: &mut CreatureEngine, msg: &ClientMessage, now: Timestamp) -> (o:
    Outcome)
    ensures
        final(engine)@ == engine_after(old(engine)@, *msg, now),
        outcome_of(o, *msg, final(engine)@),
{
    match msg {
        ClientMessage::Notify { exit_code, cwd, pending_cmd, shell } => {
            if let Some(cmd) = pending_cmd {
                let event = CreatureEvent::CommandPending { command: cmd.clone() };
                engine.process_event_at(&event, now);
            }
            let mut record = None;
            if let Some(code) = exit_code {
                let event = CreatureEvent::CommandFinished {
                    exit_code: *code,
                    command: pending_cmd.clone(),
                    cwd: cwd.clone(),
                };
                engine.process_event_at(&event, now);
                record = Some(
                    CommandRecord {
                        command: pending_cmd.clone(),
                        exit_code: Some(*code),
                        cwd: cwd.clone(),
                        shell: shell.clone(),
                    },
                );
            }
            Outcome { reply: Reply::Respond(DaemonResponse::Ack), record, save: true }
        },
        ClientMessage::Veto { command, args } => {
            let (allowed, reason) = engine.evaluate_veto(command.as_str(), args.as_slice());
            Outcome {
                reply: Reply::Respond(DaemonResponse::VetoResult { allowed, reason }),
                record: None,
                save: false,
            }
        },
        ClientMessage::Status | ClientMessage::Ping => Outcome {
            reply: Reply::Respond(DaemonResponse::State { creature: *engine.state() }),
            record: None,
            save: false,
        },
        ClientMessage::Roast => Outcome { reply: Reply::Roast, record: None, save: false },
    }
}

/// Handles a client request as it arrives now.
pub fn handle_message(engine: &mut CreatureEngine, msg: &ClientMessage) -> (o: Outcome)
    ensures
        exists|t: Timestamp|
            final(engine)@ == engine_after(old(engine)@, *msg, t) && outcome_of(
                o,
                *msg,
                final(engine)@,
            ),
{
    let t = now();
    handle_message_at(engine, msg, t)
}

/// The command-log entry for an event from the daemon's own queue: a finished command is
/// logged with its text, exit code and directory (the shell is not known there).
pub fn record_for_event(event: &CreatureEvent) -> (r: Option<CommandRecord>)
    ensures
        r == match *event {
            CreatureEvent::CommandFinished { exit_code, command, cwd } => Some(
                CommandRecord { command: command, exit_code: Some(exit_code), cwd: cwd, shell: None },
            ),
            _ => None,
        },
{
    match event {
        CreatureEvent::CommandFinished { exit_code, command, cwd } => Some(
            CommandRecord {
                command: command.clone(),
                exit_code: Some(*exit_code),
                cwd: cwd.clone(),
                shell: None,
            },
        ),
        _ => None,
    }
}

/// Only notifications change the creature; vetoes, status requests, pings and roasts leave
/// it as it was.
pub proof fn lemma_queries_change_nothing(e: EngineView, msg: ClientMessage, now: Timestamp)
    requires
        !(msg is Notify),
    ensures
        engine_after(e, msg, now) == e,
{
}

/// A notification that carries neither a pending command nor an exit code changes nothing
/// and logs nothing.
pub proof fn lemma_empty_notify(
    e: EngineView,
    cwd: Option<String>,
    shell: Option<String>,
    now: Timestamp,
    o: Outcome,
)
    requires
        outcome_of(
            o,
            ClientMessage::Notify { exit_code: None, cwd: cwd, pending_cmd: None, shell: shell },
            e,
        ),
    ensures
        engine_after(
            e,
            ClientMessage::Notify { exit_code: None, cwd: cwd, pending_cmd: None, shell: shell },
            now,
        ) == e,
        o.record is None,
{
}

} // verus!
