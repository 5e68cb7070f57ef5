//! The dispatcher: a state machine that takes one invocation from the
//! parsed command line to its exit. Each step says what to print and what
//! to do next; the caller does it and comes back with what happened.

use vstd::prelude::*;
use crate::cli::{CliArgs, CliArgsView, Commands, CommandsView};
use crate::client::{
    answer, client_for, health, is_success, success, ApiClient, ApiClientView, Delivery,
    DeliveryView, HttpRequest, HttpRequestView, Payload, PayloadView, Reply, ReplyView,
};
use crate::console::{err, out, prefixed, shown, Badge, Line, LineView, Tone};
use crate::error::{ended, exit_status, Error, ErrorView, Shape};
use crate::executor::{command_line, debug_text, local_plan, plan};
use crate::models::{CompressOptions, CompressOptionsView, ProcessRequest, ProcessRequestView};
use crate::presenter::{
    comparison_lines, info_lines, print_comparison_result, print_media_info,
};
use crate::text::{ends_with, ends_with_char, opt_text, texts};

verus! {

/// What the backend is being asked.
#[derive(Debug, PartialEq, Eq)]
pub enum Task {
    /// To process a file; the request is kept for the local run that
    /// follows where the backend fails.
    Process(ProcessRequest),
    /// To compare two files.
    Compare,
    /// To tell about a file.
    Info,
}

/// View of a [`Task`].
pub enum TaskView {
    Process(ProcessRequestView),
    Compare,
    Info,
}

impl View for Task {
    type V = TaskView;

    open spec fn view(&self) -> TaskView {
        match self {
            Task::Process(request) => TaskView::Process(request@),
            Task::Compare => TaskView::Compare,
            Task::Info => TaskView::Info,
        }
    }
}

impl TaskView {
    /// The shape of the answer that the task waits for.
    pub open spec fn shape(self) -> Shape {
        match self {
            TaskView::Process(_) => Shape::Process,
            TaskView::Compare => Shape::Compare,
            TaskView::Info => Shape::Info,
        }
    }
}

/// How far an exchange with the backend has come.
#[derive(Debug, Clone, Copy, PartialEq, Eq)]
pub enum Phase {
    /// The request is on its way.
    Sent,
    /// An answer came with this status, outside the success range; its body
    /// is being read as text.
    Refused(u16),
    /// An answer came with a status in the success range; its body is being
    /// read in the expected shape.
    Accepted,
}

/// Where an invocation stands between two steps.
#[derive(Debug, PartialEq, Eq)]
pub enum State {
    /// The health probe is on its way; the command waits for its end.
    Probing { client: ApiClient, command: Commands },
    /// An exchange with the backend is under way.
    Asking { client: ApiClient, task: Task, phase: Phase },
    /// `ffmpeg` is running and will write to `output`.
    Running { output: String },
    /// The invocation is over.
    Finished,
}

/// View of a [`State`].
pub enum StateView {
    Probing { client: ApiClientView, command: CommandsView },
    Asking { client: ApiClientView, task: TaskView, phase: Phase },
    Running { output: Seq<char> },
    Finished,
}

impl View for State {
    type V = StateView;

    open spec fn view(&self) -> StateView {
        match self {
            State::Probing { client, command } => StateView::Probing {
                client: client@,
                command: command@,
            },
            State::Asking { client, task, phase } => StateView::Asking {
                client: client@,
                task: task@,
                phase: *phase,
            },
            State::Running { output } => StateView::Running { output: output@ },
            State::Finished => StateView::Finished,
        }
    }
}

/// What happened when the caller did what a step asked for.
#[derive(Debug, PartialEq, Eq)]
pub enum Event {
    /// The request was sent and no answer came; the transport's account of
    /// it, outermost cause first.
    Unsent(Vec<String>),
    /// The request was sent and an answer came with this status code.
    Status(u16),
    /// The body of the answer was read as text; `None` where that failed.
    Text(Option<String>),
    /// The body of the answer could not be read in the expected shape; the
    /// reader's account of it, outermost cause first.
    Unparsed(Vec<String>),
    /// The body of the answer, read in the expected shape.
    Parsed(Payload),
    /// `ffmpeg` could not be started; the system's account of it.
    Unspawned(Vec<String>),
    /// `ffmpeg` ran to its end; whether it reported success.
    Exited(bool),
}

/// View of an [`Event`].
pub enum EventView {
    Unsent(Seq<Seq<char>>),
    Status(u16),
    Text(Option<Seq<char>>),
    Unparsed(Seq<Seq<char>>),
    Parsed(PayloadView),
    Unspawned(Seq<Seq<char>>),
    Exited(bool),
}

impl View for Event {
    type V = EventView;

    open spec fn view(&self) -> EventView {
        match self {
            Event::Unsent(causes) => EventView::Unsent(texts(causes@)),
            Event::Status(code) => EventView::Status(*code),
            Event::Text(text) => EventView::Text(opt_text(*text)),
            Event::Unparsed(causes) => EventView::Unparsed(texts(causes@)),
            Event::Parsed(payload) => EventView::Parsed(payload@),
            Event::Unspawned(causes) => EventView::Unspawned(texts(causes@)),
            Event::Exited(ok) => EventView::Exited(*ok),
        }
    }
}

/// Why an invocation cannot go on.
#[derive(Debug, Clone, Copy, PartialEq, Eq)]
pub enum Fault {
    /// A local run is due for a request that names no output, and the input
    /// has no file name to derive one from.
    NoOutputPath,
    /// The event is not one that the state waits for.
    UnexpectedEvent,
}

/// What the caller is to do after printing the lines of a step.
#[derive(Debug, PartialEq, Eq)]
pub enum Action {
    /// Send the request, and come back with [`Event::Unsent`] or
    /// [`Event::Status`].
    Send(HttpRequest),
    /// Read the body of the answer as text, and come back with
    /// [`Event::Text`].
    ReadText,
    /// Read the body of the answer in this shape, and come back with
    /// [`Event::Parsed`] or [`Event::Unparsed`].
    ReadJson(Shape),
    /// Run `ffmpeg` with these arguments and wait for it, and come back with
    /// [`Event::Exited`] or [`Event::Unspawned`].
    Spawn(Vec<String>),
    /// End the invocation with this result.
    Exit(Result<(), Error>),
    /// Give up: there is no way on.
    Abort(Fault),
}

/// View of an [`Action`].
pub enum ActionView {
    Send(HttpRequestView),
    ReadText,
    ReadJson(Shape),
    Spawn(Seq<Seq<char>>),
    Exit(Result<(), ErrorView>),
    Abort(Fault),
}

impl View for Action {
    type V = ActionView;

    open spec fn view(&self) -> ActionView {
        match self {
            Action::Send(request) => ActionView::Send(request@),
            Action::ReadText => ActionView::ReadText,
            Action::ReadJson(shape) => ActionView::ReadJson(*shape),
            Action::Spawn(args) => ActionView::Spawn(texts(args@)),
            Action::Exit(result) => ActionView::Exit(ended(*result)),
            Action::Abort(fault) => ActionView::Abort(*fault),
        }
    }
}

/// One step of an invocation: what to print, what to do then, and the state
/// to come back with.
#[derive(Debug, PartialEq, Eq)]
pub struct Step {
    pub lines: Vec<Line>,
    pub action: Action,
    pub state: State,
}

/// View of a [`Step`].
pub struct StepView {
    pub lines: Seq<LineView>,
    pub action: ActionView,
    pub state: StateView,
}

impl View for Step {
    type V = StepView;

    open spec fn view(&self) -> StepView {
        StepView { lines: shown(self.lines@), action: self.action@, state: self.state@ }
    }
}

/// The view of a client that may be absent.
pub open spec fn opt_client(client: Option<ApiClient>) -> Option<ApiClientView> {
    match client {
        Some(c) => Some(c@),
        None => None,
    }
}

/// The last step of an invocation that ends with `result`.
pub open spec fn finish(lines: Seq<LineView>, result: Result<(), ErrorView>) -> StepView {
    StepView { lines, action: ActionView::Exit(result), state: StateView::Finished }
}

/// The step of an invocation that cannot go on.
pub open spec fn abort(fault: Fault) -> StepView {
    StepView { lines: Seq::empty(), action: ActionView::Abort(fault), state: StateView::Finished }
}

/// The step `step` with `lines` printed before its own.
pub open spec fn after(lines: Seq<LineView>, step: StepView) -> StepView {
    StepView { lines: lines + step.lines, action: step.action, state: step.state }
}

/// The local run of `request`: in a dry run the command line is shown and
/// the invocation ends; else `ffmpeg` is started.
pub open spec fn local_step(request: ProcessRequestView) -> StepView {
    match local_plan(request) {
        None => abort(Fault::NoOutputPath),
        Some(plan) => if request.dry_run {
            finish(
                seq![out(Badge::Bang, Tone::Yellow, "[Dry Run] "@ + command_line(plan.args))],
                Ok(()),
            )
        } else {
            StepView {
                lines: seq![
                    out(
                        Badge::Tool,
                        Tone::Yellow,
                        "Running ffmpeg locally with args: "@ + debug_text(plan.args),
                    ),
                ],
                action: ActionView::Spawn(plan.args),
                state: StateView::Running { output: plan.output },
            }
        },
    }
}

/// The line that opens a processing run.
pub open spec fn process_banner(dry_run: bool) -> LineView {
    if dry_run {
        out(Badge::Bang, Tone::Yellow, "Dry run mode - displaying command without executing..."@)
    } else {
        out(Badge::Check, Tone::BrightGreen, "Starting media processing..."@)
    }
}

/// The first step of a processing run: with a backend the request goes to
/// it, without one the local run starts.
pub open spec fn process_step(
    client: Option<ApiClientView>,
    request: ProcessRequestView,
) -> StepView {
    match client {
        Some(c) => StepView {
            lines: seq![
                process_banner(request.dry_run),
                out(Badge::Globe, Tone::Cyan, "Sending request to backend server..."@),
            ],
            action: ActionView::Send(c.process_request(request)),
            state: StateView::Asking {
                client: c,
                task: TaskView::Process(request),
                phase: Phase::Sent,
            },
        },
        None => after(seq![process_banner(request.dry_run)], local_step(request)),
    }
}

/// The first step of a comparison: with a backend the request goes to it,
/// without one the invocation fails.
pub open spec fn compare_step(
    client: Option<ApiClientView>,
    original: Seq<char>,
    processed: Seq<char>,
) -> StepView {
    let banner = out(Badge::Bang, Tone::BrightBlue, "Comparing media files..."@);
    match client {
        Some(c) => StepView {
            lines: seq![
                banner,
                out(
                    Badge::Bang,
                    Tone::Yellow,
                    "Sending comparison request to backend server..."@,
                ),
            ],
            action: ActionView::Send(c.compare_request(original, processed)),
            state: StateView::Asking { client: c, task: TaskView::Compare, phase: Phase::Sent },
        },
        None => finish(
            seq![
                banner,
                err(Badge::Cross, Tone::BrightRed, "Local comparison requires backend server"@),
            ],
            Err(ErrorView::ComparisonNeedsBackend),
        ),
    }
}

/// The first step of a request for information: with a backend the request
/// goes to it, without one the invocation fails.
pub open spec fn info_step(client: Option<ApiClientView>, file_path: Seq<char>) -> StepView {
    let banner = out(
        Badge::Bang,
        Tone::BrightBlue,
        "Getting info for "@ + file_path + "..."@,
    );
    match client {
        Some(c) => StepView {
            lines: seq![
                banner,
                out(Badge::Bang, Tone::Yellow, "Sending info request to backend server..."@),
            ],
            action: ActionView::Send(c.info_request(file_path)),
            state: StateView::Asking { client: c, task: TaskView::Info, phase: Phase::Sent },
        },
        None => finish(
            seq![
                banner,
                err(Badge::Cross, Tone::BrightRed, "Local media info requires backend server"@),
            ],
            Err(ErrorView::InfoNeedsBackend),
        ),
    }
}

/// Whether a bitrate is written as compression takes it: ending in `k` or
/// in `M`.
pub open spec fn valid_bitrate(bitrate: Seq<char>) -> bool {
    ends_with(bitrate, 'k') || ends_with(bitrate, 'M')
}

/// What is said of a compression that is taken on.
pub open spec fn compress_text(options: CompressOptionsView) -> Seq<char> {
    match options.output {
        Some(output) => "Compressing "@ + options.input + " to "@ + output + " with bitrate "@
            + options.bitrate + "..."@,
        None => "Compressing "@ + options.input + " with bitrate "@ + options.bitrate + "..."@,
    }
}

/// The only step of a compression: the bitrate is checked, and the
/// invocation ends.
pub open spec fn compress_step(options: CompressOptionsView) -> StepView {
    if valid_bitrate(options.bitrate) {
        finish(seq![out(Badge::Check, Tone::BrightGreen, compress_text(options))], Ok(()))
    } else {
        finish(
            seq![
                err(
                    Badge::Cross,
                    Tone::BrightRed,
                    "Invalid bitrate format. Must end with 'k' or 'M'."@,
                ),
            ],
            Err(ErrorView::InvalidBitrate),
        )
    }
}

/// The first step of `command`, with the backend behind `client` or with
/// none.
pub open spec fn route(client: Option<ApiClientView>, command: CommandsView) -> StepView {
    match command {
        CommandsView::Process {
            input,
            output,
            resolution,
            bitrate,
            format,
            dry_run,
        } => process_step(
            client,
            ProcessRequestView { input, output, resolution, bitrate, format, dry_run },
        ),
        CommandsView::Compare { original, processed } => compare_step(client, original, processed),
        CommandsView::Info { file } => info_step(client, file),
        CommandsView::Convert { .. } => finish(Seq::empty(), Ok(())),
        CommandsView::Compress { input, output, bitrate } => compress_step(
            CompressOptionsView { input, output, bitrate },
        ),
    }
}

/// The first step of an invocation: in local mode the command is taken up
/// at once, else the backend is probed first.
pub open spec fn start(args: CliArgsView) -> StepView {
    if args.local {
        route(None, args.command)
    } else {
        let client = client_for(args.backend_url);
        StepView {
            lines: Seq::empty(),
            action: ActionView::Send(client.health_request()),
            state: StateView::Probing { client, command: args.command },
        }
    }
}

/// What is said when the backend is given up for the whole invocation.
pub open spec fn local_mode_lines(e: ErrorView) -> Seq<LineView> {
    seq![
        err(Badge::Warning, Tone::Yellow, "Backend connection failed: "@ + e.message()),
        err(Badge::Note, Tone::Blue, "Falling back to local mode."@),
    ]
}

/// What is said when the backend fails a processing request.
pub open spec fn fallback_lines(e: ErrorView) -> Seq<LineView> {
    seq![
        err(Badge::Warning, Tone::Yellow, "Backend processing failed: "@ + e.message()),
        err(Badge::Note, Tone::Blue, "Falling back to local processing..."@),
    ]
}

/// The step after the health probe: with the backend where it answered in
/// the success range, else without it.
pub open spec fn probed(
    client: ApiClientView,
    command: CommandsView,
    delivery: DeliveryView,
) -> StepView {
    match health(delivery) {
        Ok(_) => route(Some(client), command),
        Err(e) => after(local_mode_lines(e), route(None, command)),
    }
}

/// What is shown of a backend's answer.
pub open spec fn success_lines(payload: PayloadView) -> Seq<LineView> {
    match payload {
        PayloadView::Process(response) => seq![
            out(Badge::Done, Tone::Green, "Processing complete. Output: "@ + response.output),
        ],
        PayloadView::Compare(result) => comparison_lines(result),
        PayloadView::Info(info) => info_lines(info),
    }
}

/// The step after an exchange for `task` that ended in `reply`: the answer
/// is shown where there is one; else processing falls back to a local run,
/// and the other tasks fail.
pub open spec fn settle(task: TaskView, reply: ReplyView) -> StepView {
    match answer(task.shape(), reply) {
        Ok(payload) => finish(success_lines(payload), Ok(())),
        Err(e) => match task {
            TaskView::Process(request) => after(fallback_lines(e), local_step(request)),
            _ => finish(Seq::empty(), Err(e)),
        },
    }
}

/// The text of a body that was read as text, empty where reading failed.
pub open spec fn body_text(text: Option<Seq<char>>) -> Seq<char> {
    match text {
        Some(t) => t,
        None => Seq::empty(),
    }
}

/// The step of an exchange for `task` in phase `phase` on `event`.
pub open spec fn asked(
    client: ApiClientView,
    task: TaskView,
    phase: Phase,
    event: EventView,
) -> StepView {
    match phase {
        Phase::Sent => match event {
            EventView::Unsent(causes) => settle(task, ReplyView::Unsent(causes)),
            EventView::Status(code) => if success(code) {
                StepView {
                    lines: Seq::empty(),
                    action: ActionView::ReadJson(task.shape()),
                    state: StateView::Asking { client, task, phase: Phase::Accepted },
                }
            } else {
                StepView {
                    lines: Seq::empty(),
                    action: ActionView::ReadText,
                    state: StateView::Asking { client, task, phase: Phase::Refused(code) },
                }
            },
            _ => abort(Fault::UnexpectedEvent),
        },
        Phase::Refused(status) => match event {
            EventView::Text(text) => settle(
                task,
                ReplyView::Refused { status, text: body_text(text) },
            ),
            _ => abort(Fault::UnexpectedEvent),
        },
        Phase::Accepted => match event {
            EventView::Unparsed(causes) => settle(task, ReplyView::Unreadable(causes)),
            EventView::Parsed(payload) => settle(task, ReplyView::Body(payload)),
            _ => abort(Fault::UnexpectedEvent),
        },
    }
}

/// The last step of a local run that writes to `output`.
pub open spec fn ran(output: Seq<char>, event: EventView) -> StepView {
    match event {
        EventView::Unspawned(causes) => finish(
            Seq::empty(),
            Err(ErrorView::SpawnFailed { causes }),
        ),
        EventView::Exited(ok) => if ok {
            finish(
                seq![
                    out(
                        Badge::Check,
                        Tone::BrightGreen,
                        "Processing complete. Output: "@ + output,
                    ),
                ],
                Ok(()),
            )
        } else {
            finish(
                seq![err(Badge::Cross, Tone::BrightRed, "Processing failed"@)],
                Err(ErrorView::CommandFailed),
            )
        },
        _ => abort(Fault::UnexpectedEvent),
    }
}

/// The step that follows when `event` comes in in state `state`.
pub open spec fn next(state: StateView, event: EventView) -> StepView {
    match state {
        StateView::Probing { client, command } => match event {
            EventView::Unsent(causes) => probed(client, command, DeliveryView::Unsent(causes)),
            EventView::Status(code) => probed(client, command, DeliveryView::Status(code)),
            _ => abort(Fault::UnexpectedEvent),
        },
        StateView::Asking { client, task, phase } => asked(client, task, phase, event),
        StateView::Running { output } => ran(output, event),
        StateView::Finished => abort(Fault::UnexpectedEvent),
    }
}

/// A list of one line.
fn one(line: Line) -> (r: Vec<Line>)
    ensures
        shown(r@) == seq![line@],
{
    let mut r: Vec<Line> = Vec::new();
    r.push(line);
    assert(shown(r@) =~= seq![line@]);
    r
}

/// A list of two lines.
fn two(first: Line, second: Line) -> (r: Vec<Line>)
    ensures
        shown(r@) == seq![first@, second@],
{
    let mut r: Vec<Line> = Vec::new();
    r.push(first);
    r.push(second);
    assert(shown(r@) =~= seq![first@, second@]);
    r
}

/// A list of no lines.
fn none() -> (r: Vec<Line>)
    ensures
        shown(r@) == Seq::<LineView>::empty(),
{
    let r: Vec<Line> = Vec::new();
    assert(shown(r@) =~= Seq::<LineView>::empty());
    r
}

/// Makes the last step of an invocation that ends with `result`.
fn finished(lines: Vec<Line>, result: Result<(), Error>) -> (r: Step)
    ensures
        r@ == finish(shown(lines@), ended(result)),
{
    Step { lines, action: Action::Exit(result), state: State::Finished }
}

/// Makes the step of an invocation that cannot go on.
fn aborted(fault: Fault) -> (r: Step)
    ensures
        r@ == abort(fault),
{
    Step { lines: none(), action: Action::Abort(fault), state: State::Finished }
}

/// Puts `lines` before the lines of `step`.
fn preceded(lines: Vec<Line>, step: Step) -> (r: Step)
    ensures
        r@ == after(shown(lines@), step@),
{
    let mut all = lines;
    let mut rest = step.lines;
    all.append(&mut rest);
    assert(shown(all@) =~= shown(lines@) + shown(step.lines@));
    Step { lines: all, action: step.action, state: step.state }
}

/// Takes up the local run of `request`.
fn run_locally(request: &ProcessRequest) -> (r: Step)
    ensures
        r@ == local_step(request@),
{
    match plan(request) {
        None => aborted(Fault::NoOutputPath),
        Some(p) => {
            if request.dry_run {
                let command = p.command();
                finished(
                    one(
                        Line::out(
                            Badge::Bang,
                            Tone::Yellow,
                            prefixed("[Dry Run] ", command.as_str()),
                        ),
                    ),
                    Ok(()),
                )
            } else {
                let shown_args = p.args_debug();
                Step {
                    lines: one(
                        Line::out(
                            Badge::Tool,
                            Tone::Yellow,
                            prefixed("Running ffmpeg locally with args: ", shown_args.as_str()),
                        ),
                    ),
                    action: Action::Spawn(p.args),
                    state: State::Running { output: p.output },
                }
            }
        },
    }
}

/// Writes the line that opens a processing run.
fn banner(dry_run: bool) -> (r: Line)
    ensures
        r@ == process_banner(dry_run),
{
    if dry_run {
        Line::out(
            Badge::Bang,
            Tone::Yellow,
            String::from_str("Dry run mode - displaying command without executing..."),
        )
    } else {
        Line::out(
            Badge::Check,
            Tone::BrightGreen,
            String::from_str("Starting media processing..."),
        )
    }
}

/// Takes up a processing run: with a backend the request goes to it,
/// without one the local run starts.
pub fn process_command(
    client: Option<ApiClient>,
    input: String,
    output: Option<String>,
    resolution: Option<String>,
    bitrate: Option<String>,
    format: Option<String>,
    dry_run: bool,
) -> (r: Step)
    ensures
        r@ == process_step(
            opt_client(client),
            ProcessRequestView {
                input: input@,
                output: opt_text(output),
                resolution: opt_text(resolution),
                bitrate: opt_text(bitrate),
                format: opt_text(format),
                dry_run,
            },
        ),
{
    let request = ProcessRequest { input, output, resolution, bitrate, format, dry_run };
    match client {
        Some(c) => {
            let sent = c.process_request(request.clone());
            Step {
                lines: two(
                    banner(dry_run),
                    Line::out(
                        Badge::Globe,
                        Tone::Cyan,
                        String::from_str("Sending request to backend server..."),
                    ),
                ),
                action: Action::Send(sent),
                state: State::Asking {
                    client: c,
                    task: Task::Process(request),
                    phase: Phase::Sent,
                },
            }
        },
        None => preceded(one(banner(dry_run)), run_locally(&request)),
    }
}

/// Takes up a comparison: with a backend the request goes to it, without
/// one the invocation fails.
pub fn compare_command(client: Option<ApiClient>, original: &str, processed: &str) -> (r: Step)
    ensures
        r@ == compare_step(opt_client(client), original@, processed@),
{
    let opening = Line::out(
        Badge::Bang,
        Tone::BrightBlue,
        String::from_str("Comparing media files..."),
    );
    match client {
        Some(c) => {
            let sent = c.compare_request(original, processed);
            Step {
                lines: two(
                    opening,
                    Line::out(
                        Badge::Bang,
                        Tone::Yellow,
                        String::from_str("Sending comparison request to backend server..."),
                    ),
                ),
                action: Action::Send(sent),
                state: State::Asking { client: c, task: Task::Compare, phase: Phase::Sent },
            }
        },
        None => finished(
            two(
                opening,
                Line::err(
                    Badge::Cross,
                    Tone::BrightRed,
                    String::from_str("Local comparison requires backend server"),
                ),
            ),
            Err(Error::ComparisonNeedsBackend),
        ),
    }
}

/// Takes up a request for information: with a backend the request goes to
/// it, without one the invocation fails.
pub fn info_command(client: Option<ApiClient>, file_path: &str) -> (r: Step)
    ensures
        r@ == info_step(opt_client(client), file_path@),
{
    let mut text = String::from_str("Getting info for ");
    text.append(file_path);
    text.append("...");
    let opening = Line::out(Badge::Bang, Tone::BrightBlue, text);
    match client {
        Some(c) => {
            let sent = c.info_request(file_path);
            Step {
                lines: two(
                    opening,
                    Line::out(
                        Badge::Bang,
                        Tone::Yellow,
                        String::from_str("Sending info request to backend server..."),
                    ),
                ),
                action: Action::Send(sent),
                state: State::Asking { client: c, task: Task::Info, phase: Phase::Sent },
            }
        },
        None => finished(
            two(
                opening,
                Line::err(
                    Badge::Cross,
                    Tone::BrightRed,
                    String::from_str("Local media info requires backend server"),
                ),
            ),
            Err(Error::InfoNeedsBackend),
        ),
    }
}

/// Tells whether a bitrate ends in `k` or in `M`.
pub fn is_valid_bitrate(bitrate: &str) -> (r: bool)
    ensures
        r == valid_bitrate(bitrate@),
{
    ends_with_char(bitrate, 'k') || ends_with_char(bitrate, 'M')
}

/// Takes up a compression: a bitrate that ends in neither `k` nor `M` is
/// turned down, any other is taken on. Either way the invocation ends with
/// this step, and nothing is sent or run for it.
pub fn compress_command(opts: CompressOptions) -> (r: Step)
    ensures
        r@ == compress_step(opts@),
        r@.action == ActionView::Exit(
            if valid_bitrate(opts@.bitrate) {
                Ok(())
            } else {
                Err(ErrorView::InvalidBitrate)
            },
        ),
{
    if !is_valid_bitrate(opts.bitrate.as_str()) {
        return finished(
            one(
                Line::err(
                    Badge::Cross,
                    Tone::BrightRed,
                    String::from_str("Invalid bitrate format. Must end with 'k' or 'M'."),
                ),
            ),
            Err(Error::InvalidBitrate),
        );
    }
    let mut text = String::from_str("Compressing ");
    text.append(opts.input.as_str());
    match &opts.output {
        Some(output) => {
            text.append(" to ");
            text.append(output.as_str());
        },
        None => {},
    }
    text.append(" with bitrate ");
    text.append(opts.bitrate.as_str());
    text.append("...");
    assert(text@ =~= compress_text(opts@));
    finished(one(Line::out(Badge::Check, Tone::BrightGreen, text)), Ok(()))
}

/// Takes up `command`, with the backend behind `client` or with none.
fn dispatch(client: Option<ApiClient>, command: Commands) -> (r: Step)
    ensures
        r@ == route(opt_client(client), command@),
{
    match command {
        Commands::Process {
            input,
            output,
            resolution,
            bitrate,
            format,
            dry_run,
        } => process_command(client, input, output, resolution, bitrate, format, dry_run),
        Commands::Compare { original, processed } => compare_command(
            client,
            original.as_str(),
            processed.as_str(),
        ),
        Commands::Info { file } => info_command(client, file.as_str()),
        Commands::Convert { .. } => finished(none(), Ok(())),
        Commands::Compress { input, output, bitrate } => compress_command(
            CompressOptions { input, output, bitrate },
        ),
    }
}

/// Starts an invocation: in local mode the command is taken up at once,
/// else the backend is probed first.
pub fn process_media(args: CliArgs) -> (r: Step)
    ensures
        r@ == start(args@),
{
    if args.local {
        dispatch(None, args.command)
    } else {
        let client = ApiClient::new(args.backend_url);
        let probe = client.health_request();
        Step {
            lines: none(),
            action: Action::Send(probe),
            state: State::Probing { client, command: args.command },
        }
    }
}

/// Takes up the command once the health probe has ended.
fn after_probe(client: ApiClient, command: Commands, delivery: Delivery) -> (r: Step)
    ensures
        r@ == probed(client@, command@, delivery@),
{
    match client.check_health(delivery) {
        Ok(_) => dispatch(Some(client), command),
        Err(e) => {
            let message = e.message();
            let lines = two(
                Line::err(
                    Badge::Warning,
                    Tone::Yellow,
                    prefixed("Backend connection failed: ", message.as_str()),
                ),
                Line::err(Badge::Note, Tone::Blue, String::from_str("Falling back to local mode.")),
            );
            preceded(lines, dispatch(None, command))
        },
    }
}

/// Writes what is shown of a backend's answer.
fn show(payload: &Payload) -> (r: Vec<Line>)
    ensures
        shown(r@) == success_lines(payload@),
{
    match payload {
        Payload::Process(response) => one(
            Line::out(
                Badge::Done,
                Tone::Green,
                prefixed("Processing complete. Output: ", response.output.as_str()),
            ),
        ),
        Payload::Compare(result) => print_comparison_result(result),
        Payload::Info(info) => print_media_info(info),
    }
}

/// Reports that the backend failed a processing request, and takes up the
/// local run in its place.
fn fall_back(e: &Error, request: &ProcessRequest) -> (r: Step)
    ensures
        r@ == after(fallback_lines(e@), local_step(request@)),
{
    let message = e.message();
    let lines = two(
        Line::err(
            Badge::Warning,
            Tone::Yellow,
            prefixed("Backend processing failed: ", message.as_str()),
        ),
        Line::err(
            Badge::Note,
            Tone::Blue,
            String::from_str("Falling back to local processing..."),
        ),
    );
    preceded(lines, run_locally(request))
}

/// Ends an exchange for `task` on `reply`.
fn settled(client: &ApiClient, task: Task, reply: Reply) -> (r: Step)
    ensures
        r@ == settle(task@, reply@),
{
    match task {
        Task::Process(request) => match client.process_media(reply) {
            Ok(response) => {
                let payload = Payload::Process(response);
                finished(show(&payload), Ok(()))
            },
            Err(e) => fall_back(&e, &request),
        },
        Task::Compare => match client.compare_media(reply) {
            Ok(result) => {
                let payload = Payload::Compare(result);
                finished(show(&payload), Ok(()))
            },
            Err(e) => finished(none(), Err(e)),
        },
        Task::Info => match client.get_media_info(reply) {
            Ok(info) => {
                let payload = Payload::Info(info);
                finished(show(&payload), Ok(()))
            },
            Err(e) => finished(none(), Err(e)),
        },
    }
}

impl Task {
    /// The shape of the answer that the task waits for.
    pub fn shape(&self) -> (r: Shape)
        ensures
            r == self@.shape(),
    {
        match self {
            Task::Process(_) => Shape::Process,
            Task::Compare => Shape::Compare,
            Task::Info => Shape::Info,
        }
    }
}

/// Takes an exchange with the backend one step on.
fn after_event(client: ApiClient, task: Task, phase: Phase, event: Event) -> (r: Step)
    ensures
        r@ == asked(client@, task@, phase, event@),
{
    match phase {
        Phase::Sent => match event {
            Event::Unsent(causes) => settled(&client, task, Reply::Unsent(causes)),
            Event::Status(code) => {
                if is_success(code) {
                    let shape = task.shape();
                    Step {
                        lines: none(),
                        action: Action::ReadJson(shape),
                        state: State::Asking { client, task, phase: Phase::Accepted },
                    }
                } else {
                    Step {
                        lines: none(),
                        action: Action::ReadText,
                        state: State::Asking { client, task, phase: Phase::Refused(code) },
                    }
                }
            },
            _ => aborted(Fault::UnexpectedEvent),
        },
        Phase::Refused(status) => match event {
            Event::Text(text) => {
                let text = match text {
                    Some(t) => t,
                    None => String::new(),
                };
                settled(&client, task, Reply::Refused { status, text })
            },
            _ => aborted(Fault::UnexpectedEvent),
        },
        Phase::Accepted => match event {
            Event::Unparsed(causes) => settled(&client, task, Reply::Unreadable(causes)),
            Event::Parsed(payload) => settled(&client, task, Reply::Body(payload)),
            _ => aborted(Fault::UnexpectedEvent),
        },
    }
}

/// Ends a local run.
fn after_run(output: String, event: Event) -> (r: Step)
    ensures
        r@ == ran(output@, event@),
{
    match event {
        Event::Unspawned(causes) => finished(none(), Err(Error::SpawnFailed { causes })),
        Event::Exited(ok) => {
            if ok {
                finished(
                    one(
                        Line::out(
                            Badge::Check,
                            Tone::BrightGreen,
                            prefixed("Processing complete. Output: ", output.as_str()),
                        ),
                    ),
                    Ok(()),
                )
            } else {
                finished(
                    one(
                        Line::err(
                            Badge::Cross,
                            Tone::BrightRed,
                            String::from_str("Processing failed"),
                        ),
                    ),
                    Err(Error::CommandFailed),
                )
            }
        },
        _ => aborted(Fault::UnexpectedEvent),
    }
}

/// Takes an invocation one step on: `event` is what happened when the
/// caller did what the step before asked for, `state` the state that step
/// left.
pub fn resume(state: State, event: Event) -> (r: Step)
    ensures
        r@ == next(state@, event@),
{
    match state {
        State::Probing { client, command } => match event {
            Event::Unsent(causes) => after_probe(client, command, Delivery::Unsent(causes)),
            Event::Status(code) => after_probe(client, command, Delivery::Status(code)),
            _ => aborted(Fault::UnexpectedEvent),
        },
        State::Asking { client, task, phase } => after_event(client, task, phase, event),
        State::Running { output } => after_run(output, event),
        State::Finished => aborted(Fault::UnexpectedEvent),
    }
}

/// The steps of the invocation that starts with `first` when `events` come
/// in in this order: `first`, then one step for each event.
pub open spec fn steps(first: StepView, events: Seq<EventView>) -> Seq<StepView>
    decreases events.len(),
{
    if events.len() == 0 {
        seq![first]
    } else {
        let before = steps(first, events.drop_last());
        before.push(next(before.last().state, events.last()))
    }
}

/// Whether a command is a processing run that is no dry run: the only kind
/// of command that ever runs `ffmpeg`.
pub open spec fn runs_ffmpeg(command: CommandsView) -> bool {
    command matches CommandsView::Process { dry_run, .. } && !dry_run
}

/// Whether nothing that follows from `state` runs `ffmpeg`.
pub open spec fn idle(state: StateView) -> bool {
    match state {
        StateView::Probing { command, .. } => !runs_ffmpeg(command),
        StateView::Asking { task, .. } => task matches TaskView::Process(request)
            ==> request.dry_run,
        StateView::Running { .. } => false,
        StateView::Finished => true,
    }
}

/// Taking up a command that does not run `ffmpeg` leads to no run of it.
proof fn route_stays_idle(client: Option<ApiClientView>, command: CommandsView)
    requires
        !runs_ffmpeg(command),
    ensures
        !(route(client, command).action is Spawn),
        idle(route(client, command).state),
{
}

/// From a state from which `ffmpeg` is not run, no event leads to a run of
/// it.
proof fn next_stays_idle(state: StateView, event: EventView)
    requires
        idle(state),
    ensures
        !(next(state, event).action is Spawn),
        idle(next(state, event).state),
{
    match state {
        StateView::Probing { client, command } => {
            route_stays_idle(Some(client), command);
            route_stays_idle(None, command);
        },
        _ => {},
    }
}

/// An invocation whose first step leads to no run of `ffmpeg` has no step
/// that does.
proof fn steps_stay_idle(first: StepView, events: Seq<EventView>)
    requires
        !(first.action is Spawn),
        idle(first.state),
    ensures
        steps(first, events).len() == events.len() + 1,
        forall|i: int|
            0 <= i < steps(first, events).len() ==> !((#[trigger] steps(first, events)[i]).action
                is Spawn),
        idle(steps(first, events).last().state),
    decreases events.len(),
{
    if events.len() > 0 {
        steps_stay_idle(first, events.drop_last());
        next_stays_idle(steps(first, events.drop_last()).last().state, events.last());
    }
}

/// A dry run never runs `ffmpeg`, whatever the backend and the caller
/// bring: no step of the invocation asks for it. The same holds of every
/// command that is not a processing run.
pub proof fn dry_run_never_spawns(args: CliArgsView, events: Seq<EventView>, i: int)
    requires
        !runs_ffmpeg(args.command),
        0 <= i < steps(start(args), events).len(),
    ensures
        !(steps(start(args), events)[i].action is Spawn),
{
    route_stays_idle(None, args.command);
    steps_stay_idle(start(args), events);
}

/// In a dry run the local run does one thing: it shows the command line,
/// and the invocation ends well. Where the request has no output path there
/// is no command line to show, and the invocation cannot go on.
pub proof fn dry_run_shows_command(request: ProcessRequestView)
    requires
        request.dry_run,
    ensures
        match local_plan(request) {
            Some(plan) => local_step(request) == finish(
                seq![out(Badge::Bang, Tone::Yellow, "[Dry Run] "@ + command_line(plan.args))],
                Ok(()),
            ),
            None => local_step(request) == abort(Fault::NoOutputPath),
        },
{
}

/// Without a backend a comparison and a request for information fail with
/// the first step, and the invocation exits with a code other than zero.
pub proof fn backend_required(args: CliArgsView)
    requires
        args.local,
        args.command is Compare || args.command is Info,
    ensures
        start(args).action == ActionView::Exit(
            Err(
                if args.command is Compare {
                    ErrorView::ComparisonNeedsBackend
                } else {
                    ErrorView::InfoNeedsBackend
                },
            ),
        ),
        start(args).action matches ActionView::Exit(result) && exit_status(result) != 0,
        ErrorView::ComparisonNeedsBackend.message() == "Local comparison requires backend server"@,
        ErrorView::InfoNeedsBackend.message() == "Local media info requires backend server"@,
{
}

/// Where the backend answers a processing request with a status outside the
/// success range, the body is read for the report, `ffmpeg` is run with the
/// arguments of the request, and the invocation succeeds exactly where
/// `ffmpeg` does. This is said of requests that are no dry run; where the
/// request has no output path, the invocation cannot go on instead.
pub proof fn refused_processing_falls_back(
    client: ApiClientView,
    request: ProcessRequestView,
    code: u16,
    text: Option<Seq<char>>,
    ok: bool,
)
    requires
        !success(code),
        !request.dry_run,
    ensures
        ({
            let sent = StateView::Asking {
                client,
                task: TaskView::Process(request),
                phase: Phase::Sent,
            };
            let refused = next(sent, EventView::Status(code));
            let fallen = next(refused.state, EventView::Text(text));
            let done = next(fallen.state, EventView::Exited(ok));
            &&& refused.action == ActionView::ReadText
            &&& match local_plan(request) {
                Some(plan) => {
                    &&& fallen.action == ActionView::Spawn(plan.args)
                    &&& done.action == ActionView::Exit(
                        if ok {
                            Ok(())
                        } else {
                            Err(ErrorView::CommandFailed)
                        },
                    )
                },
                None => fallen.action == ActionView::Abort(Fault::NoOutputPath),
            }
        }),
{
}

/// A compression whose bitrate ends in neither `k` nor `M` is turned down
/// as soon as the command is taken up: in local mode with the first step;
/// else the health probe goes out first, and the step after it turns the
/// compression down, whatever the probe brought.
pub proof fn invalid_bitrate_rejected(args: CliArgsView, event: EventView)
    requires
        args.command matches CommandsView::Compress { bitrate, .. } && !valid_bitrate(bitrate),
    ensures
        args.local ==> start(args).action == ActionView::Exit(Err(ErrorView::InvalidBitrate)),
        !args.local ==> start(args).action == ActionView::Send(
            client_for(args.backend_url).health_request(),
        ),
        !args.local && (event is Unsent || event is Status) ==> next(
            start(args).state,
            event,
        ).action == ActionView::Exit(Err(ErrorView::InvalidBitrate)),
{
}

} // verus!
