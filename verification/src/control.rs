//! The runtime control protocol of a simulator: the commands that its
//! control socket accepts, its answers, and the flag that admits one
//! recalibration pause at a time.
use vstd::prelude::*;
use std::sync::atomic::{AtomicBool, Ordering};
use std::sync::mpsc::{Receiver, SendError, Sender, TryRecvError};
use std::sync::Arc;
use std::time::Duration;
use crate::simulation::GenerationProgress;

verus! {

#[verifier::external_type_specification]
#[verifier::external_body]
#[verifier::reject_recursive_types(T)]
pub struct ExSender<T>(Sender<T>);

#[verifier::external_type_specification]
#[verifier::external_body]
#[verifier::reject_recursive_types(T)]
pub struct ExReceiver<T>(Receiver<T>);

#[verifier::external_type_specification]
#[verifier::external_body]
pub struct ExTryRecvError(TryRecvError);

#[verifier::external_type_specification]
#[verifier::external_body]
#[verifier::reject_recursive_types(T)]
pub struct ExSendError<T>(SendError<T>);

/// A command that the control server hands to the hardware session.
#[derive(Debug, Clone, Copy, PartialEq, Eq)]
pub enum RuntimeCommand {
    /// Pause for a recalibration of the given duration.
    Pause { duration: Duration },
}

/// A request on the control socket.
#[derive(Debug, Clone, Copy, PartialEq, Eq, Structural)]
pub enum CommandRequest {
    /// Force the QBER to 50%.
    StartAttack,
    /// Return to the configured QBER.
    StopAttack,
    /// Pause at the next batch boundary for a recalibration.
    Pause { duration_ms: u64 },
    /// Generate and drop the given number of batches to catch up.
    Synchronize { batches_to_discard: u64 },
    /// Finish the recalibration.
    Resume,
}

/// An answer on the control socket: `status` is `ok` or `error`.
#[derive(Debug, Clone, PartialEq, Eq)]
pub struct CommandResponse {
    pub status: String,
    pub message: Option<String>,
    pub progress: Option<GenerationProgress>,
}

/// The text of a response, as sequences.
pub struct ResponseView {
    pub status: Seq<char>,
    pub message: Option<Seq<char>>,
    pub progress: Option<GenerationProgress>,
}

/// The text of a response.
pub open spec fn response_view(r: CommandResponse) -> ResponseView {
    ResponseView {
        status: r.status@,
        message: match r.message {
            Some(m) => Some(m@),
            None => None,
        },
        progress: r.progress,
    }
}

/// The successful response.
pub open spec fn ok_view() -> ResponseView {
    ResponseView { status: "ok"@, message: None, progress: None }
}

/// The error response with the given message.
pub open spec fn error_view(message: Seq<char>) -> ResponseView {
    ResponseView { status: "error"@, message: Some(message), progress: None }
}

/// The message of a pause that another pause blocks.
pub open spec fn pause_pending_message() -> Seq<char> {
    "pause already pending or running"@
}

/// The message of a pause that the session could not be told of.
pub open spec fn pause_send_failed_message(reason: Seq<char>) -> Seq<char> {
    "pause queue send failed: "@ + reason
}

impl CommandResponse {
    /// `{"status":"ok"}`.
    pub fn ok() -> (r: Self)
        ensures
            response_view(r) == ok_view(),
    {
        CommandResponse { status: "ok".to_owned(), message: None, progress: None }
    }

    /// `{"status":"ok","progress":..}`: success with the generation progress.
    pub fn ok_with_progress(progress: GenerationProgress) -> (r: Self)
        ensures
            response_view(r) == (ResponseView { progress: Some(progress), ..ok_view() }),
    {
        CommandResponse { status: "ok".to_owned(), message: None, progress: Some(progress) }
    }

    /// `{"status":"error","message":..}`.
    pub fn error(message: String) -> (r: Self)
        ensures
            response_view(r) == error_view(message@),
    {
        CommandResponse { status: "error".to_owned(), message: Some(message), progress: None }
    }
}

/// The answer to an attack command: `ok` when the simulator took it, the
/// simulator's error otherwise.
pub open spec fn attack_answer(start: bool, outcome: Result<(), Seq<char>>) -> ResponseView {
    match outcome {
        Ok(()) => ok_view(),
        Err(reason) => error_view(
            (if start { "start_attack failed: "@ } else { "stop_attack failed: "@ }) + reason,
        ),
    }
}

/// Builds the answer to a start (`start`) or stop attack command from the
/// simulator's outcome.
pub fn attack_response(start: bool, outcome: Result<(), String>) -> (r: CommandResponse)
    ensures
        response_view(r) == attack_answer(start, send_outcome(outcome)),
{
    match outcome {
        Ok(()) => CommandResponse::ok(),
        Err(reason) => {
            let mut message = if start { "start_attack failed: ".to_owned() } else { "stop_attack failed: ".to_owned() };
            message.append(reason.as_str());
            CommandResponse::error(message)
        },
    }
}

/// The answer to a line that is not a request.
pub fn invalid_request_response(reason: String) -> (r: CommandResponse)
    ensures
        response_view(r) == error_view("invalid json: "@ + reason@),
{
    let mut message = "invalid json: ".to_owned();
    message.append(reason.as_str());
    CommandResponse::error(message)
}

/// The answer to a line that could not be read.
pub fn read_failure_response(reason: String) -> (r: CommandResponse)
    ensures
        response_view(r) == error_view("read failed: "@ + reason@),
{
    let mut message = "read failed: ".to_owned();
    message.append(reason.as_str());
    CommandResponse::error(message)
}

/// The answer to a pause request: refused when another pause held the flag,
/// accepted when the session was told, and refused with the reason when it
/// could not be told.
pub open spec fn pause_answer(acquired: bool, sent: Result<(), Seq<char>>) -> ResponseView {
    if !acquired {
        error_view(pause_pending_message())
    } else {
        match sent {
            Ok(()) => ok_view(),
            Err(reason) => error_view(pause_send_failed_message(reason)),
        }
    }
}

/// The outcome of telling the session of a pause, with the error's text.
pub open spec fn send_outcome(sent: Result<(), String>) -> Result<(), Seq<char>> {
    match sent {
        Ok(()) => Ok(()),
        Err(reason) => Err(reason@),
    }
}

/// Builds the answer to a pause request from whether the pause flag was
/// acquired and whether the session was told of the pause.
pub fn pause_response(acquired: bool, sent: Result<(), String>) -> (r: CommandResponse)
    ensures
        response_view(r) == pause_answer(acquired, send_outcome(sent)),
{
    if !acquired {
        return CommandResponse::error("pause already pending or running".to_owned());
    }
    match sent {
        Ok(()) => CommandResponse::ok(),
        Err(reason) => {
            let mut message = "pause queue send failed: ".to_owned();
            message.append(reason.as_str());
            CommandResponse::error(message)
        },
    }
}

/// `Sender::send`: hands a command to the session; the error, if the
/// session's receiver is gone, is given as its message.
#[verifier::external_body]
fn send_runtime_command(sender: &Sender<RuntimeCommand>, command: RuntimeCommand) -> (sent: Result<(), String>)
{
    sender.send(command).map_err(|e| format!("{}", e))
}

/// `Receiver::try_recv`: the next pending command, if one is queued.
#[verifier::external_body]
fn try_receive_runtime_command(receiver: &Receiver<RuntimeCommand>) -> (received: Result<RuntimeCommand, TryRecvError>)
{
    receiver.try_recv()
}

/// The pause command for a recalibration of the given duration.
pub fn pause_command(duration: Duration) -> (command: RuntimeCommand)
    ensures
        command == (RuntimeCommand::Pause { duration }),
{
    RuntimeCommand::Pause { duration }
}

/// The control server's end of the command queue, with the record of the
/// commands that it handed over.
pub struct CommandQueue {
    sender: Sender<RuntimeCommand>,
    queued: Ghost<Seq<RuntimeCommand>>,
}

impl CommandQueue {
    /// The commands handed to the session through this queue, in order.
    pub closed spec fn queued(&self) -> Seq<RuntimeCommand> {
        self.queued@
    }

    /// Wraps the sending end of the command queue; nothing was handed over
    /// through it yet.
    pub fn new(sender: Sender<RuntimeCommand>) -> (queue: Self)
        ensures
            queue.queued() == Seq::<RuntimeCommand>::empty(),
    {
        CommandQueue { sender, queued: Ghost(Seq::empty()) }
    }

    /// Hands a command to the session. On success the command is recorded
    /// as handed over; when the session's end is gone nothing is, and the
    /// error's text is returned.
    pub fn send(&mut self, command: RuntimeCommand) -> (sent: Result<(), String>)
        ensures
            sent is Ok ==> final(self).queued() == old(self).queued().push(command),
            sent is Err ==> final(self).queued() == old(self).queued(),
    {
        let sent = send_runtime_command(&self.sender, command);
        if sent.is_ok() {
            self.queued = Ghost(self.queued@.push(command));
        }
        sent
    }
}

/// Admits a pause unless one is pending or running: takes the pause flag,
/// queues the pause for the session and answers `ok`. When the flag is
/// taken the answer is an error and nothing is queued; when the session
/// cannot be told, the flag is released and the answer is an error. The
/// pause with the given duration is queued exactly when the answer is the
/// one of an admitted and queued pause.
pub fn enqueue_pause(queue: &mut CommandQueue, pause_in_progress: &AtomicBool, duration: Duration) -> (r: CommandResponse)
    ensures
        exists|acquired: bool, sent: Result<(), Seq<char>>| {
            &&& response_view(r) == #[trigger] pause_answer(acquired, sent)
            &&& acquired && sent is Ok ==> final(queue).queued() == old(queue).queued().push(
                RuntimeCommand::Pause { duration },
            )
            &&& !(acquired && sent is Ok) ==> final(queue).queued() == old(queue).queued()
        },
{
    let acquired = pause_in_progress.compare_exchange(false, true, Ordering::SeqCst, Ordering::SeqCst).is_ok();
    if !acquired {
        let r = pause_response(false, Ok(()));
        assert(response_view(r) == pause_answer(false, Ok(())));
        return r;
    }
    let sent = queue.send(pause_command(duration));
    if sent.is_err() {
        pause_in_progress.store(false, Ordering::SeqCst);
    }
    let ghost sent_view = send_outcome(sent);
    let r = pause_response(true, sent);
    assert(response_view(r) == pause_answer(true, sent_view));
    r
}

/// The session's end of the control channel: the pending commands and the
/// pause flag.
pub struct RuntimeControl {
    receiver: Receiver<RuntimeCommand>,
    pause_in_progress: Arc<AtomicBool>,
}

/// The command that a receipt from the command queue gives: the command
/// received, or none when the queue was empty or closed.
pub open spec fn receipt_command(received: Result<RuntimeCommand, TryRecvError>) -> Option<RuntimeCommand> {
    match received {
        Ok(command) => Some(command),
        Err(_) => None,
    }
}

/// Turns a receipt from the command queue into the pending command, if any:
/// an empty queue and a closed one both give none.
pub fn command_of_receipt(received: Result<RuntimeCommand, TryRecvError>) -> (command: Option<RuntimeCommand>)
    ensures
        command == receipt_command(received),
{
    match received {
        Ok(command) => Some(command),
        Err(_) => None,
    }
}

impl RuntimeControl {
    /// The receiving end of the command queue.
    pub closed spec fn command_queue(&self) -> Receiver<RuntimeCommand> {
        self.receiver
    }

    /// The pause flag shared with the control server.
    pub closed spec fn pause_flag(&self) -> Arc<AtomicBool> {
        self.pause_in_progress
    }

    /// Wraps the receiving end of the command queue and the pause flag that
    /// the control server shares.
    pub fn new(receiver: Receiver<RuntimeCommand>, pause_in_progress: Arc<AtomicBool>) -> (control: Self)
        ensures
            control.command_queue() == receiver,
            control.pause_flag() == pause_in_progress,
    {
        RuntimeControl { receiver, pause_in_progress }
    }

    /// The next pending command, if any; a closed queue has none. Which
    /// receipt the queue gives depends on the control server's thread; the
    /// receipt is turned into the result by `command_of_receipt`.
    pub fn try_recv(&self) -> (command: Option<RuntimeCommand>) {
        command_of_receipt(try_receive_runtime_command(&self.receiver))
    }

    /// Releases the pause flag once a recalibration has completed.
    pub fn complete_pause(&self) {
        self.pause_in_progress.store(false, Ordering::SeqCst);
    }
}

/// What the control server does for a request.
#[derive(Debug, Clone, Copy, PartialEq, Eq, Structural)]
pub enum ControlStep {
    /// Start (`true`) or stop the simulated attack; answered by
    /// `attack_response`.
    Attack { start: bool },
    /// Admit the pause with `enqueue_pause`; an admitted pause is answered,
    /// once the session stopped, with the progress at which it stopped
    /// (`paused_response`), a refused one with `enqueue_pause`'s answer.
    AdmitPause { duration_ms: u64 },
    /// Discard the batches that the simulator misses; answered by
    /// `synchronize_response`.
    Synchronize { batches_to_discard: u64 },
    /// Wait until the recalibration released the pause flag, then answer
    /// `ok`.
    AwaitPauseRelease,
}

/// The step that a request calls for.
pub open spec fn control_step_of(request: CommandRequest) -> ControlStep {
    match request {
        CommandRequest::StartAttack => ControlStep::Attack { start: true },
        CommandRequest::StopAttack => ControlStep::Attack { start: false },
        CommandRequest::Pause { duration_ms } => ControlStep::AdmitPause { duration_ms },
        CommandRequest::Synchronize { batches_to_discard } => ControlStep::Synchronize { batches_to_discard },
        CommandRequest::Resume => ControlStep::AwaitPauseRelease,
    }
}

/// Decides what the control server does for a request.
pub fn control_step(request: CommandRequest) -> (step: ControlStep)
    ensures
        step == control_step_of(request),
{
    match request {
        CommandRequest::StartAttack => ControlStep::Attack { start: true },
        CommandRequest::StopAttack => ControlStep::Attack { start: false },
        CommandRequest::Pause { duration_ms } => ControlStep::AdmitPause { duration_ms },
        CommandRequest::Synchronize { batches_to_discard } => ControlStep::Synchronize { batches_to_discard },
        CommandRequest::Resume => ControlStep::AwaitPauseRelease,
    }
}

/// Whether a text is the given literal.
fn same_text(s: &str, literal: &str) -> (same: bool)
    ensures
        same == (s@ == literal@),
{
    s.to_owned() == literal.to_owned()
}

/// Whether an answer has the status `ok`.
pub fn is_ok_response(answer: &CommandResponse) -> (ok: bool)
    ensures
        ok == (answer.status@ == "ok"@),
{
    same_text(answer.status.as_str(), "ok")
}

/// The answer to an admitted pause: the progress at which the session
/// stopped, or the reason it could not be had.
pub open spec fn paused_answer(stopped: Result<GenerationProgress, Seq<char>>) -> ResponseView {
    match stopped {
        Ok(progress) => ResponseView { progress: Some(progress), ..ok_view() },
        Err(reason) => error_view("pause failed: "@ + reason),
    }
}

/// Builds the answer to an admitted pause from the progress at which the
/// session stopped, or the reason it could not be had.
pub fn paused_response(stopped: Result<GenerationProgress, String>) -> (r: CommandResponse)
    ensures
        response_view(r) == paused_answer(match stopped {
            Ok(p) => Ok(p),
            Err(m) => Err(m@),
        }),
{
    match stopped {
        Ok(progress) => CommandResponse::ok_with_progress(progress),
        Err(reason) => {
            let mut message = "pause failed: ".to_owned();
            message.append(reason.as_str());
            CommandResponse::error(message)
        },
    }
}

/// Builds the answer to a synchronization from the simulator's outcome.
pub fn synchronize_response(outcome: Result<(), String>) -> (r: CommandResponse)
    ensures
        response_view(r) == match send_outcome(outcome) {
            Ok(()) => ok_view(),
            Err(reason) => error_view("synchronize failed: "@ + reason),
        },
{
    match outcome {
        Ok(()) => CommandResponse::ok(),
        Err(reason) => {
            let mut message = "synchronize failed: ".to_owned();
            message.append(reason.as_str());
            CommandResponse::error(message)
        },
    }
}

/// The message of an answer that rejected a request sent on `socket`: the
/// simulator's message, or the status when it gave none.
pub open spec fn rejection_message(socket: Seq<char>, answer: CommandResponse) -> Seq<char> {
    socket + " rejected the command: "@ + match answer.message {
        Some(m) => m@,
        None => "status "@ + answer.status@,
    }
}

/// Accepts an answer with the status `ok`; any other answer is a rejection
/// of the request sent on `socket`.
pub fn accept_response(socket: &str, answer: CommandResponse) -> (r: Result<CommandResponse, String>)
    ensures
        answer.status@ == "ok"@ ==> r == Ok::<CommandResponse, String>(answer),
        answer.status@ != "ok"@ ==> (r matches Err(m) && m@ == rejection_message(socket@, answer)),
{
    if is_ok_response(&answer) {
        return Ok(answer);
    }
    let mut message = socket.to_owned();
    message.append(" rejected the command: ");
    match &answer.message {
        Some(m) => message.append(m.as_str()),
        None => {
            message.append("status ");
            message.append(answer.status.as_str());
        },
    }
    Err(message)
}

/// The answer to a pause request: an admitted pause is answered `ok` only
/// when the session was told of it; a pause that meets the flag taken is
/// refused, whatever the queue would have done.
pub proof fn law_one_pause_at_a_time(sent: Result<(), Seq<char>>)
    ensures
        pause_answer(false, sent) == error_view(pause_pending_message()),
        pause_answer(true, sent).status == "ok"@ <==> sent is Ok,
{
    reveal_strlit("ok");
    reveal_strlit("error");
    assert("ok"@.len() == 2);
    assert("error"@.len() == 5);
}

} // verus!
