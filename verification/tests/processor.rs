use frontend_cli::cli::{CliArgs, Commands};
use frontend_cli::client::{ApiClient, Body, HttpRequest, Method, Payload};
use frontend_cli::console::{Badge, Line, Stream, Tone};
use frontend_cli::error::{exit_code, Endpoint, Error, Shape};
use frontend_cli::models::{
    CompareRequest, CompareResult, CompressOptions, MediaInfo, Percent, ProcessRequest,
    ProcessResponse, Trend,
};
use frontend_cli::processor::{
    compare_command, compress_command, info_command, is_valid_bitrate, process_command,
    process_media, resume, Action, Event, Fault, Phase, State, Step, Task,
};

fn out(badge: Badge, tone: Tone, text: &str) -> Line {
    Line::Marked { stream: Stream::Stdout, badge, tone, text: text.to_string() }
}

fn err(badge: Badge, tone: Tone, text: &str) -> Line {
    Line::Marked { stream: Stream::Stderr, badge, tone, text: text.to_string() }
}

fn strings(items: &[&str]) -> Vec<String> {
    items.iter().map(|s| s.to_string()).collect()
}

fn process(input: &str, dry_run: bool) -> Commands {
    Commands::Process {
        input: input.to_string(),
        output: None,
        resolution: None,
        bitrate: None,
        format: None,
        dry_run,
    }
}

fn request(input: &str, dry_run: bool) -> ProcessRequest {
    ProcessRequest {
        input: input.to_string(),
        output: None,
        resolution: None,
        bitrate: None,
        format: None,
        dry_run,
    }
}

fn local(command: Commands) -> CliArgs {
    CliArgs { backend_url: None, local: true, command }
}

fn remote(command: Commands) -> CliArgs {
    CliArgs { backend_url: None, local: false, command }
}

fn compress(bitrate: &str, output: Option<&str>) -> Commands {
    Commands::Compress {
        input: "in.mp4".to_string(),
        output: output.map(|s| s.to_string()),
        bitrate: bitrate.to_string(),
    }
}

fn info(name: &str, size: u64) -> MediaInfo {
    MediaInfo {
        filename: name.to_string(),
        format: "mp4".to_string(),
        duration: "1s".to_string(),
        resolution: "2x2".to_string(),
        bitrate: "1k".to_string(),
        size,
    }
}

fn probe() -> HttpRequest {
    HttpRequest {
        method: Method::Get,
        url: "http://localhost:8080/health".to_string(),
        body: Body::Empty,
        timeout_seconds: 30,
    }
}

fn banner_real() -> Line {
    out(Badge::Check, Tone::BrightGreen, "Starting media processing...")
}

fn banner_dry() -> Line {
    out(Badge::Bang, Tone::Yellow, "Dry run mode - displaying command without executing...")
}

fn sending() -> Line {
    out(Badge::Globe, Tone::Cyan, "Sending request to backend server...")
}

fn unexpected() -> Step {
    Step { lines: vec![], action: Action::Abort(Fault::UnexpectedEvent), state: State::Finished }
}

#[test]
fn bitrate_suffixes() {
    assert!(is_valid_bitrate("1000k"));
    assert!(is_valid_bitrate("2M"));
    assert!(is_valid_bitrate("k"));
    assert!(is_valid_bitrate("M"));
    assert!(!is_valid_bitrate(""));
    assert!(!is_valid_bitrate("1000"));
    assert!(!is_valid_bitrate("1000K"));
    assert!(!is_valid_bitrate("2m"));
    assert!(!is_valid_bitrate("500kb"));
    assert!(!is_valid_bitrate("2M "));
}

#[test]
fn compress_rejects_bad_bitrate() {
    let step = compress_command(CompressOptions {
        input: "in.mp4".to_string(),
        output: None,
        bitrate: "1000".to_string(),
    });
    assert_eq!(
        step,
        Step {
            lines: vec![err(
                Badge::Cross,
                Tone::BrightRed,
                "Invalid bitrate format. Must end with 'k' or 'M'."
            )],
            action: Action::Exit(Err(Error::InvalidBitrate)),
            state: State::Finished,
        }
    );
}

#[test]
fn compress_takes_good_bitrate() {
    let step = compress_command(CompressOptions {
        input: "in.mp4".to_string(),
        output: None,
        bitrate: "500k".to_string(),
    });
    assert_eq!(
        step,
        Step {
            lines: vec![out(
                Badge::Check,
                Tone::BrightGreen,
                "Compressing in.mp4 with bitrate 500k..."
            )],
            action: Action::Exit(Ok(())),
            state: State::Finished,
        }
    );
}

#[test]
fn compress_names_output_when_given() {
    let step = compress_command(CompressOptions {
        input: "in.mp4".to_string(),
        output: Some("small.mp4".to_string()),
        bitrate: "2M".to_string(),
    });
    assert_eq!(
        step.lines,
        vec![out(
            Badge::Check,
            Tone::BrightGreen,
            "Compressing in.mp4 to small.mp4 with bitrate 2M..."
        )]
    );
    assert_eq!(step.action, Action::Exit(Ok(())));
}

#[test]
fn compress_local_bad_bitrate_ends_at_once() {
    let step = process_media(local(compress("fast", None)));
    assert_eq!(step.action, Action::Exit(Err(Error::InvalidBitrate)));
    assert_eq!(step.state, State::Finished);
    assert_eq!(exit_code(&Err(Error::InvalidBitrate)), 1);
}

#[test]
fn compress_remote_bad_bitrate_ends_after_probe() {
    let first = process_media(remote(compress("fast", None)));
    assert_eq!(first.action, Action::Send(probe()));
    let second = resume(first.state, Event::Status(200));
    assert_eq!(
        second,
        Step {
            lines: vec![err(
                Badge::Cross,
                Tone::BrightRed,
                "Invalid bitrate format. Must end with 'k' or 'M'."
            )],
            action: Action::Exit(Err(Error::InvalidBitrate)),
            state: State::Finished,
        }
    );
}

#[test]
fn convert_ends_quietly() {
    let command = Commands::Convert {
        input: "in.mp4".to_string(),
        output: None,
        format: "webm".to_string(),
    };
    let step = process_media(local(command));
    assert_eq!(step, Step { lines: vec![], action: Action::Exit(Ok(())), state: State::Finished });
}

#[test]
fn local_compare_requires_backend() {
    let command =
        Commands::Compare { original: "a.mp4".to_string(), processed: "b.mp4".to_string() };
    let step = process_media(local(command));
    assert_eq!(
        step,
        Step {
            lines: vec![
                out(Badge::Bang, Tone::BrightBlue, "Comparing media files..."),
                err(Badge::Cross, Tone::BrightRed, "Local comparison requires backend server"),
            ],
            action: Action::Exit(Err(Error::ComparisonNeedsBackend)),
            state: State::Finished,
        }
    );
    assert_ne!(exit_code(&Err(Error::ComparisonNeedsBackend)), 0);
    assert!(Error::ComparisonNeedsBackend.message().contains("requires backend"));
}

#[test]
fn local_info_requires_backend() {
    let step = process_media(local(Commands::Info { file: "a.mp4".to_string() }));
    assert_eq!(
        step,
        Step {
            lines: vec![
                out(Badge::Bang, Tone::BrightBlue, "Getting info for a.mp4..."),
                err(Badge::Cross, Tone::BrightRed, "Local media info requires backend server"),
            ],
            action: Action::Exit(Err(Error::InfoNeedsBackend)),
            state: State::Finished,
        }
    );
    assert_ne!(exit_code(&Err(Error::InfoNeedsBackend)), 0);
    assert!(Error::InfoNeedsBackend.message().contains("requires backend"));
}

#[test]
fn compare_command_without_client() {
    let step = compare_command(None, "a.mp4", "b.mp4");
    assert_eq!(step.action, Action::Exit(Err(Error::ComparisonNeedsBackend)));
}

#[test]
fn info_command_without_client() {
    let step = info_command(None, "a.mp4");
    assert_eq!(step.action, Action::Exit(Err(Error::InfoNeedsBackend)));
}

#[test]
fn compare_command_with_client_sends() {
    let step = compare_command(Some(ApiClient::new(None)), "a.mp4", "b.mp4");
    assert_eq!(
        step,
        Step {
            lines: vec![
                out(Badge::Bang, Tone::BrightBlue, "Comparing media files..."),
                out(Badge::Bang, Tone::Yellow, "Sending comparison request to backend server..."),
            ],
            action: Action::Send(HttpRequest {
                method: Method::Post,
                url: "http://localhost:8080/api/compare".to_string(),
                body: Body::Compare(CompareRequest {
                    original: "a.mp4".to_string(),
                    processed: "b.mp4".to_string(),
                }),
                timeout_seconds: 30,
            }),
            state: State::Asking {
                client: ApiClient::new(None),
                task: Task::Compare,
                phase: Phase::Sent,
            },
        }
    );
}

#[test]
fn info_command_with_client_sends() {
    let step = info_command(Some(ApiClient::new(None)), "a.mp4");
    assert_eq!(
        step,
        Step {
            lines: vec![
                out(Badge::Bang, Tone::BrightBlue, "Getting info for a.mp4..."),
                out(Badge::Bang, Tone::Yellow, "Sending info request to backend server..."),
            ],
            action: Action::Send(HttpRequest {
                method: Method::Get,
                url: "http://localhost:8080/api/info?path=a.mp4".to_string(),
                body: Body::Empty,
                timeout_seconds: 30,
            }),
            state: State::Asking {
                client: ApiClient::new(None),
                task: Task::Info,
                phase: Phase::Sent,
            },
        }
    );
}

#[test]
fn local_dry_run_prints_command_and_ends() {
    let step = process_media(local(process("videos/in.mp4", true)));
    assert_eq!(
        step,
        Step {
            lines: vec![
                banner_dry(),
                out(
                    Badge::Bang,
                    Tone::Yellow,
                    "[Dry Run] ffmpeg -i videos/in.mp4 processed_in.mp4"
                ),
            ],
            action: Action::Exit(Ok(())),
            state: State::Finished,
        }
    );
}

#[test]
fn local_run_spawns_ffmpeg() {
    let step = process_media(local(process("in.mp4", false)));
    assert_eq!(
        step,
        Step {
            lines: vec![
                banner_real(),
                out(
                    Badge::Tool,
                    Tone::Yellow,
                    "Running ffmpeg locally with args: [\"-i\", \"in.mp4\", \"processed_in.mp4\"]"
                ),
            ],
            action: Action::Spawn(strings(&["-i", "in.mp4", "processed_in.mp4"])),
            state: State::Running { output: "processed_in.mp4".to_string() },
        }
    );
}

#[test]
fn local_run_with_all_options() {
    let command = Commands::Process {
        input: "in.mp4".to_string(),
        output: Some("out.webm".to_string()),
        resolution: Some("1280x720".to_string()),
        bitrate: Some("1000k".to_string()),
        format: Some("webm".to_string()),
        dry_run: true,
    };
    let step = process_media(local(command));
    assert_eq!(
        step.lines[1],
        out(
            Badge::Bang,
            Tone::Yellow,
            "[Dry Run] ffmpeg -i in.mp4 -s 1280x720 -b:v 1000k out.webm"
        )
    );
}

#[test]
fn local_run_success_reports_output() {
    let step = resume(State::Running { output: "out.mp4".to_string() }, Event::Exited(true));
    assert_eq!(
        step,
        Step {
            lines: vec![out(
                Badge::Check,
                Tone::BrightGreen,
                "Processing complete. Output: out.mp4"
            )],
            action: Action::Exit(Ok(())),
            state: State::Finished,
        }
    );
}

#[test]
fn local_run_failure_is_an_error() {
    let step = resume(State::Running { output: "out.mp4".to_string() }, Event::Exited(false));
    assert_eq!(
        step,
        Step {
            lines: vec![err(Badge::Cross, Tone::BrightRed, "Processing failed")],
            action: Action::Exit(Err(Error::CommandFailed)),
            state: State::Finished,
        }
    );
}

#[test]
fn local_run_that_cannot_start_is_an_error() {
    let step = resume(
        State::Running { output: "out.mp4".to_string() },
        Event::Unspawned(strings(&["No such file or directory (os error 2)"])),
    );
    assert_eq!(
        step,
        Step {
            lines: vec![],
            action: Action::Exit(Err(Error::SpawnFailed {
                causes: strings(&["No such file or directory (os error 2)"]),
            })),
            state: State::Finished,
        }
    );
}

#[test]
fn remote_invocation_probes_first() {
    let step = process_media(remote(process("in.mp4", false)));
    assert_eq!(
        step,
        Step {
            lines: vec![],
            action: Action::Send(probe()),
            state: State::Probing {
                client: ApiClient::new(None),
                command: process("in.mp4", false),
            },
        }
    );
}

#[test]
fn remote_invocation_uses_given_backend() {
    let args = CliArgs {
        backend_url: Some("http://media:9000".to_string()),
        local: false,
        command: Commands::Info { file: "a.mp4".to_string() },
    };
    let step = process_media(args);
    assert_eq!(
        step.action,
        Action::Send(HttpRequest {
            method: Method::Get,
            url: "http://media:9000/health".to_string(),
            body: Body::Empty,
            timeout_seconds: 30,
        })
    );
    let step = resume(step.state, Event::Status(200));
    assert_eq!(
        step.action,
        Action::Send(HttpRequest {
            method: Method::Get,
            url: "http://media:9000/api/info?path=a.mp4".to_string(),
            body: Body::Empty,
            timeout_seconds: 30,
        })
    );
}

#[test]
fn healthy_backend_gets_the_process_request() {
    let first = process_media(remote(process("in.mp4", false)));
    let second = resume(first.state, Event::Status(200));
    assert_eq!(
        second,
        Step {
            lines: vec![banner_real(), sending()],
            action: Action::Send(HttpRequest {
                method: Method::Post,
                url: "http://localhost:8080/api/process".to_string(),
                body: Body::Process(request("in.mp4", false)),
                timeout_seconds: 30,
            }),
            state: State::Asking {
                client: ApiClient::new(None),
                task: Task::Process(request("in.mp4", false)),
                phase: Phase::Sent,
            },
        }
    );
}

#[test]
fn unreachable_backend_means_local_mode() {
    let first = process_media(remote(process("in.mp4", false)));
    let second = resume(first.state, Event::Unsent(strings(&["connection refused"])));
    assert_eq!(
        second,
        Step {
            lines: vec![
                err(
                    Badge::Warning,
                    Tone::Yellow,
                    "Backend connection failed: Failed to send health check request"
                ),
                err(Badge::Note, Tone::Blue, "Falling back to local mode."),
                banner_real(),
                out(
                    Badge::Tool,
                    Tone::Yellow,
                    "Running ffmpeg locally with args: [\"-i\", \"in.mp4\", \"processed_in.mp4\"]"
                ),
            ],
            action: Action::Spawn(strings(&["-i", "in.mp4", "processed_in.mp4"])),
            state: State::Running { output: "processed_in.mp4".to_string() },
        }
    );
}

#[test]
fn unhealthy_backend_means_local_mode() {
    let command =
        Commands::Compare { original: "a.mp4".to_string(), processed: "b.mp4".to_string() };
    let first = process_media(remote(command));
    let second = resume(first.state, Event::Status(503));
    assert_eq!(
        second,
        Step {
            lines: vec![
                err(
                    Badge::Warning,
                    Tone::Yellow,
                    "Backend connection failed: Backend health check failed"
                ),
                err(Badge::Note, Tone::Blue, "Falling back to local mode."),
                out(Badge::Bang, Tone::BrightBlue, "Comparing media files..."),
                err(Badge::Cross, Tone::BrightRed, "Local comparison requires backend server"),
            ],
            action: Action::Exit(Err(Error::ComparisonNeedsBackend)),
            state: State::Finished,
        }
    );
}

#[test]
fn backend_answer_ends_processing() {
    let asking = State::Asking {
        client: ApiClient::new(None),
        task: Task::Process(request("in.mp4", false)),
        phase: Phase::Sent,
    };
    let accepted = resume(asking, Event::Status(200));
    assert_eq!(accepted.lines, vec![]);
    assert_eq!(accepted.action, Action::ReadJson(Shape::Process));
    let done = resume(
        accepted.state,
        Event::Parsed(Payload::Process(ProcessResponse { output: "remote/out.mp4".to_string() })),
    );
    assert_eq!(
        done,
        Step {
            lines: vec![out(
                Badge::Done,
                Tone::Green,
                "Processing complete. Output: remote/out.mp4"
            )],
            action: Action::Exit(Ok(())),
            state: State::Finished,
        }
    );
}

#[test]
fn server_error_falls_back_to_local_run() {
    let first = process_media(remote(process("in.mp4", false)));
    let asked = resume(first.state, Event::Status(200));
    let refused = resume(asked.state, Event::Status(500));
    assert_eq!(refused.lines, vec![]);
    assert_eq!(refused.action, Action::ReadText);
    let fallen = resume(refused.state, Event::Text(Some("boom".to_string())));
    assert_eq!(
        fallen,
        Step {
            lines: vec![
                err(
                    Badge::Warning,
                    Tone::Yellow,
                    "Backend processing failed: Backend returned error: 500 Internal Server Error - boom"
                ),
                err(Badge::Note, Tone::Blue, "Falling back to local processing..."),
                out(
                    Badge::Tool,
                    Tone::Yellow,
                    "Running ffmpeg locally with args: [\"-i\", \"in.mp4\", \"processed_in.mp4\"]"
                ),
            ],
            action: Action::Spawn(strings(&["-i", "in.mp4", "processed_in.mp4"])),
            state: State::Running { output: "processed_in.mp4".to_string() },
        }
    );
    let done = resume(fallen.state, Event::Exited(true));
    assert_eq!(done.action, Action::Exit(Ok(())));
}

#[test]
fn server_error_then_failing_local_run() {
    let asking = State::Asking {
        client: ApiClient::new(None),
        task: Task::Process(request("in.mp4", false)),
        phase: Phase::Sent,
    };
    let refused = resume(asking, Event::Status(500));
    let fallen = resume(refused.state, Event::Text(None));
    assert_eq!(
        fallen.lines[0],
        err(
            Badge::Warning,
            Tone::Yellow,
            "Backend processing failed: Backend returned error: 500 Internal Server Error - "
        )
    );
    let done = resume(fallen.state, Event::Exited(false));
    assert_eq!(done.action, Action::Exit(Err(Error::CommandFailed)));
    assert_eq!(exit_code(&Err(Error::CommandFailed)), 1);
}

#[test]
fn unsent_process_request_falls_back() {
    let asking = State::Asking {
        client: ApiClient::new(None),
        task: Task::Process(request("in.mp4", false)),
        phase: Phase::Sent,
    };
    let fallen = resume(asking, Event::Unsent(strings(&["timed out"])));
    assert_eq!(
        fallen.lines[0],
        err(
            Badge::Warning,
            Tone::Yellow,
            "Backend processing failed: Failed to send process request to backend"
        )
    );
    assert_eq!(fallen.action, Action::Spawn(strings(&["-i", "in.mp4", "processed_in.mp4"])));
}

#[test]
fn unreadable_process_answer_falls_back() {
    let asking = State::Asking {
        client: ApiClient::new(None),
        task: Task::Process(request("in.mp4", false)),
        phase: Phase::Accepted,
    };
    let fallen = resume(asking, Event::Unparsed(strings(&["missing field"])));
    assert_eq!(
        fallen.lines[0],
        err(
            Badge::Warning,
            Tone::Yellow,
            "Backend processing failed: Failed to parse process response"
        )
    );
    assert_eq!(fallen.action, Action::Spawn(strings(&["-i", "in.mp4", "processed_in.mp4"])));
}

#[test]
fn answer_of_wrong_shape_counts_as_unreadable() {
    let asking = State::Asking {
        client: ApiClient::new(None),
        task: Task::Info,
        phase: Phase::Accepted,
    };
    let done = resume(
        asking,
        Event::Parsed(Payload::Process(ProcessResponse { output: "x".to_string() })),
    );
    assert_eq!(
        done.action,
        Action::Exit(Err(Error::Unreadable { shape: Shape::Info, causes: vec![] }))
    );
}

#[test]
fn dry_run_fallback_prints_command_only() {
    let asking = State::Asking {
        client: ApiClient::new(None),
        task: Task::Process(request("in.mp4", true)),
        phase: Phase::Sent,
    };
    let fallen = resume(asking, Event::Unsent(vec![]));
    assert_eq!(
        fallen,
        Step {
            lines: vec![
                err(
                    Badge::Warning,
                    Tone::Yellow,
                    "Backend processing failed: Failed to send process request to backend"
                ),
                err(Badge::Note, Tone::Blue, "Falling back to local processing..."),
                out(Badge::Bang, Tone::Yellow, "[Dry Run] ffmpeg -i in.mp4 processed_in.mp4"),
            ],
            action: Action::Exit(Ok(())),
            state: State::Finished,
        }
    );
}

fn is_spawn(action: &Action) -> bool {
    matches!(action, Action::Spawn(_))
}

#[test]
fn dry_run_never_spawns_on_any_path() {
    let paths: Vec<Vec<Event>> = vec![
        vec![Event::Unsent(vec![])],
        vec![Event::Status(500)],
        vec![Event::Status(200), Event::Unsent(vec![])],
        vec![Event::Status(200), Event::Status(500), Event::Text(None)],
        vec![Event::Status(200), Event::Status(200), Event::Unparsed(vec![])],
        vec![
            Event::Status(200),
            Event::Status(200),
            Event::Parsed(Payload::Process(ProcessResponse { output: "o".to_string() })),
        ],
        vec![Event::Status(200), Event::Exited(true), Event::Exited(true)],
    ];
    for events in paths {
        let mut step = process_media(remote(process("in.mp4", true)));
        assert!(!is_spawn(&step.action));
        for event in events {
            step = resume(step.state, event);
            assert!(!is_spawn(&step.action));
        }
    }
    let step = process_media(local(process("in.mp4", true)));
    assert!(!is_spawn(&step.action));
}

#[test]
fn compare_through_backend_shows_result() {
    let first = process_media(remote(Commands::Compare {
        original: "a.mp4".to_string(),
        processed: "b.mp4".to_string(),
    }));
    let asked = resume(first.state, Event::Status(200));
    let accepted = resume(asked.state, Event::Status(200));
    assert_eq!(accepted.action, Action::ReadJson(Shape::Compare));
    let result = CompareResult {
        original: info("a.mp4", 100),
        processed: info("b.mp4", 150),
        size_diff_percent: Percent { trend: Trend::Grown, magnitude: "50.00".to_string() },
    };
    let done = resume(accepted.state, Event::Parsed(Payload::Compare(result)));
    assert_eq!(done.action, Action::Exit(Ok(())));
    assert_eq!(done.lines.len(), 5);
    assert_eq!(done.lines[3], out(Badge::Cross, Tone::BrightRed, "Size reduction: 50.00%"));
}

#[test]
fn compare_fails_when_backend_refuses() {
    let asking = State::Asking {
        client: ApiClient::new(None),
        task: Task::Compare,
        phase: Phase::Sent,
    };
    let refused = resume(asking, Event::Status(404));
    assert_eq!(refused.action, Action::ReadText);
    assert_eq!(
        refused.state,
        State::Asking {
            client: ApiClient::new(None),
            task: Task::Compare,
            phase: Phase::Refused(404),
        }
    );
    let done = resume(refused.state, Event::Text(Some("no such file".to_string())));
    assert_eq!(
        done,
        Step {
            lines: vec![],
            action: Action::Exit(Err(Error::Refused {
                status: 404,
                text: "no such file".to_string(),
            })),
            state: State::Finished,
        }
    );
}

#[test]
fn info_through_backend_shows_table() {
    let asking = State::Asking {
        client: ApiClient::new(None),
        task: Task::Info,
        phase: Phase::Accepted,
    };
    let done = resume(asking, Event::Parsed(Payload::Info(info("a.mp4", 12))));
    assert_eq!(done.action, Action::Exit(Ok(())));
    assert_eq!(done.lines.len(), 3);
    match &done.lines[1] {
        Line::Block { text } => assert!(text.contains("| Size (bytes) | 12    |\n")),
        other => panic!("unexpected line {:?}", other),
    }
}

#[test]
fn info_fails_when_unsent() {
    let asking = State::Asking {
        client: ApiClient::new(None),
        task: Task::Info,
        phase: Phase::Sent,
    };
    let done = resume(asking, Event::Unsent(strings(&["refused"])));
    assert_eq!(
        done.action,
        Action::Exit(Err(Error::Unsent { endpoint: Endpoint::Info, causes: strings(&["refused"]) }))
    );
}

#[test]
fn events_out_of_turn_abort() {
    let probing = || State::Probing {
        client: ApiClient::new(None),
        command: process("in.mp4", false),
    };
    assert_eq!(resume(probing(), Event::Exited(true)), unexpected());
    assert_eq!(resume(probing(), Event::Text(None)), unexpected());
    let asking = |phase| State::Asking { client: ApiClient::new(None), task: Task::Compare, phase };
    assert_eq!(resume(asking(Phase::Sent), Event::Text(None)), unexpected());
    assert_eq!(resume(asking(Phase::Refused(500)), Event::Status(200)), unexpected());
    assert_eq!(resume(asking(Phase::Accepted), Event::Status(200)), unexpected());
    assert_eq!(resume(asking(Phase::Accepted), Event::Text(None)), unexpected());
    let running = || State::Running { output: "o".to_string() };
    assert_eq!(resume(running(), Event::Status(200)), unexpected());
    assert_eq!(resume(State::Finished, Event::Exited(true)), unexpected());
    assert_eq!(resume(State::Finished, Event::Status(200)), unexpected());
}

#[test]
fn local_run_without_output_path_aborts() {
    let step = process_media(local(process("..", false)));
    assert_eq!(
        step,
        Step {
            lines: vec![banner_real()],
            action: Action::Abort(Fault::NoOutputPath),
            state: State::Finished,
        }
    );
}

#[test]
fn process_command_keeps_request_for_fallback() {
    let step = process_command(
        Some(ApiClient::new(Some("http://b".to_string()))),
        "in.mp4".to_string(),
        Some("out.mp4".to_string()),
        Some("640x480".to_string()),
        Some("1M".to_string()),
        Some("mp4".to_string()),
        true,
    );
    let expected = ProcessRequest {
        input: "in.mp4".to_string(),
        output: Some("out.mp4".to_string()),
        resolution: Some("640x480".to_string()),
        bitrate: Some("1M".to_string()),
        format: Some("mp4".to_string()),
        dry_run: true,
    };
    assert_eq!(step.lines, vec![banner_dry(), sending()]);
    assert_eq!(
        step.action,
        Action::Send(HttpRequest {
            method: Method::Post,
            url: "http://b/api/process".to_string(),
            body: Body::Process(expected.clone()),
            timeout_seconds: 30,
        })
    );
    assert_eq!(
        step.state,
        State::Asking {
            client: ApiClient::new(Some("http://b".to_string())),
            task: Task::Process(expected),
            phase: Phase::Sent,
        }
    );
}

#[test]
fn task_shapes() {
    assert_eq!(Task::Process(request("a", false)).shape(), Shape::Process);
    assert_eq!(Task::Compare.shape(), Shape::Compare);
    assert_eq!(Task::Info.shape(), Shape::Info);
}

#[test]
fn info_with_escape_in_answer_is_shown_plain() {
    let asking = State::Asking {
        client: ApiClient::new(None),
        task: Task::Info,
        phase: Phase::Accepted,
    };
    let mut answer = info("a.mp4", 12);
    answer.format = "\u{1b}[\u{0644}\u{0627}\u{0644}\u{0627}".to_string();
    let done = resume(asking, Event::Parsed(Payload::Info(answer)));
    assert_eq!(done.action, Action::Exit(Ok(())));
    assert_eq!(done.lines.len(), 9);
    assert_eq!(done.lines[1], Line::Plain { text: "Property | Value".to_string() });
    assert_eq!(
        done.lines[3],
        Line::Plain { text: "Format | \u{1b}[\u{0644}\u{0627}\u{0644}\u{0627}".to_string() }
    );
}
