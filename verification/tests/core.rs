use cargo_leptos::BuildOutcome;
use cargo_leptos::Cause;
use cargo_leptos::Cli;
use cargo_leptos::Commands;
use cargo_leptos::Config;
use cargo_leptos::EventBus;
use cargo_leptos::FsError;
use cargo_leptos::Msg;
use cargo_leptos::Opts;
use cargo_leptos::Phase;
use cargo_leptos::PipelineState;
use cargo_leptos::ServeTarget;
use cargo_leptos::ShutdownFlag;
use cargo_leptos::Stage;
use cargo_leptos::StageOutcome;
use cargo_leptos::TaskKind;
use cargo_leptos::WaitMode;
use cargo_leptos::WatchAction;
use cargo_leptos::WatchEvent;
use cargo_leptos::WatchSession;
use cargo_leptos::cleanup_outcome;
use cargo_leptos::command_opts;
use cargo_leptos::normalize_args;
use cargo_leptos::plan_for;
use cargo_leptos::send_reload;
use cargo_leptos::serve_target;
use cargo_leptos::startup_tasks;
use cargo_leptos::wait_mode;
use cargo_leptos::watch_step;

/// Drive a pipeline with fake collaborators: each stage due increments its
/// invocation count and reports the outcome `verdict` assigns it.
fn drive(p: &mut PipelineState, verdict: impl Fn(Stage) -> StageOutcome) -> Vec<Stage> {
    let mut invoked = Vec::new();
    while let Some(stage) = p.current() {
        invoked.push(stage);
        p.record(verdict(stage));
    }
    invoked
}

fn count(invoked: &[Stage], s: Stage) -> usize {
    invoked.iter().filter(|&&x| x == s).count()
}

// Source changes arriving during a build leave the stage order untouched;
// they are observed only during the subsequent wait.
#[test]
fn source_changes_during_build_leave_stage_order() {
    let mut s = WatchSession::new(true, 10);
    let sub = s.bus.subscribe();

    assert_eq!(s.pipeline.current(), Some(Stage::CleanOutput));
    s.record_stage(StageOutcome::Success);

    // Two source changes arrive mid-build.
    s.note_source_changed();
    s.note_source_changed();

    // The in-flight build is unaffected: next stage is still styles.
    assert_eq!(s.phase, Phase::Building);
    assert_eq!(s.pipeline.current(), Some(Stage::CompileStyles));

    // Finish the remaining stages in their fixed order.
    s.record_stage(StageOutcome::Success);
    assert_eq!(s.pipeline.current(), Some(Stage::ReadTemplate));
    s.record_stage(StageOutcome::Success);
    assert_eq!(s.pipeline.current(), Some(Stage::BundleBrowser));
    s.record_stage(StageOutcome::Success);
    assert_eq!(s.pipeline.current(), Some(Stage::GenerateHtml));
    s.record_stage(StageOutcome::Success);
    assert_eq!(s.phase, Phase::AwaitingChangeOrExit);

    // Only now, during the wait, the queued changes are observed, in order,
    // followed by the reload notification of the successful build.
    assert_eq!(s.bus.recv(sub), Some(Msg::SrcChanged));
    assert_eq!(s.bus.recv(sub), Some(Msg::SrcChanged));
    assert_eq!(s.bus.recv(sub), Some(Msg::Reload("reload".to_string())));
    assert_eq!(s.bus.recv(sub), None);
}

// No reload message is ever published after a build that failed.
#[test]
fn no_reload_after_failed_build() {
    let mut s = WatchSession::new(false, 10);
    let sub = s.bus.subscribe();

    s.record_stage(StageOutcome::Success); // clean
    s.record_stage(StageOutcome::Failure(Cause::CollaboratorError)); // styles

    assert_eq!(
        s.phase,
        Phase::Failed(Stage::CompileStyles, Cause::CollaboratorError)
    );
    // Nothing was published: the subscriber's queue is empty.
    assert_eq!(s.bus.recv(sub), None);
}

// Raising the shutdown flag mid-wait terminates at the next cycle boundary.
#[test]
fn shutdown_during_wait_terminates_at_once() {
    let mut s = WatchSession::new(true, 10);
    for _ in 0..5 {
        s.record_stage(StageOutcome::Success);
    }
    assert_eq!(s.phase, Phase::AwaitingChangeOrExit);

    s.note_shutdown_signal();
    s.finish_wait();
    assert_eq!(s.phase, Phase::Terminated);
}

// Raising the shutdown flag mid-build costs at most the in-flight build and
// its wait: the loop never begins another cycle.
#[test]
fn shutdown_during_build_terminates_within_one_cycle() {
    let mut s = WatchSession::new(true, 10);
    let sub = s.bus.subscribe();

    s.record_stage(StageOutcome::Success);
    s.note_shutdown_signal(); // arrives mid-build
    for _ in 0..4 {
        s.record_stage(StageOutcome::Success);
    }
    assert_eq!(s.phase, Phase::AwaitingChangeOrExit);
    s.finish_wait();
    assert_eq!(s.phase, Phase::Terminated);

    // The finished build published no reload: the flag was already raised.
    assert_eq!(s.bus.recv(sub), Some(Msg::ShutDown));
    assert_eq!(s.bus.recv(sub), None);
}

// Toggling csr on a clone never changes the original's csr value.
#[test]
fn clone_toggle_csr_leaves_original() {
    let original = Config::new(
        Opts {
            release: true,
            csr: false,
            verbose: 2,
        },
        "index.html".to_string(),
        "target/site".to_string(),
    );
    let toggled = original.with_csr(true);

    assert!(toggled.cli.csr);
    assert!(!original.cli.csr);
    assert_eq!(toggled.cli.release, original.cli.release);
    assert_eq!(toggled.cli.verbose, original.cli.verbose);
    assert_eq!(toggled.index_path, original.index_path);
    assert_eq!(toggled.site_dir, original.site_dir);

    // Toggling back and forth on clones never touches the original either.
    let again = toggled.with_csr(false);
    assert!(!again.cli.csr);
    assert!(!original.cli.csr);
}

// Clearing a non-existent output directory succeeds: cleanup is idempotent.
#[test]
fn cleanup_of_missing_dir_succeeds() {
    assert_eq!(cleanup_outcome(&Ok(())), StageOutcome::Success);
    assert_eq!(
        cleanup_outcome(&Err(FsError::NotFound)),
        StageOutcome::Success
    );
    assert_eq!(
        cleanup_outcome(&Err(FsError::Other)),
        StageOutcome::Failure(Cause::IoError)
    );
}

// Two subscribers each get exactly one reload message, in publish order
// relative to other messages from the same publisher.
#[test]
fn two_subscribers_each_get_one_reload() {
    let mut bus = EventBus::new(10);
    let a = bus.subscribe();
    let b = bus.subscribe();

    bus.publish(Msg::SrcChanged);
    bus.publish(Msg::Reload("reload".to_string()));

    for sub in [a, b] {
        assert_eq!(bus.recv(sub), Some(Msg::SrcChanged));
        assert_eq!(bus.recv(sub), Some(Msg::Reload("reload".to_string())));
        assert_eq!(bus.recv(sub), None);
    }
}

// A failing style compilation returns failure without invoking the bundling
// or server-compilation collaborators.
#[test]
fn style_failure_short_circuits() {
    let mut p = PipelineState::new(false, false);
    let invoked = drive(&mut p, |stage| {
        if stage == Stage::CompileStyles {
            StageOutcome::Failure(Cause::CollaboratorError)
        } else {
            StageOutcome::Success
        }
    });

    assert_eq!(
        p.outcome(),
        Some(BuildOutcome::Failure(
            Stage::CompileStyles,
            Cause::CollaboratorError
        ))
    );
    assert_eq!(invoked, vec![Stage::CleanOutput, Stage::CompileStyles]);
    assert_eq!(count(&invoked, Stage::BundleHydrate), 0);
    assert_eq!(count(&invoked, Stage::BundleBrowser), 0);
    assert_eq!(count(&invoked, Stage::CompileServer), 0);
}

// A csr cycle bundles the client exactly once and never compiles the server;
// a hydrate cycle bundles once and compiles the server once.
#[test]
fn cycle_invocation_counts_per_mode() {
    let mut csr = PipelineState::new(true, false);
    let invoked = drive(&mut csr, |_| StageOutcome::Success);
    assert_eq!(csr.outcome(), Some(BuildOutcome::Success));
    assert_eq!(
        count(&invoked, Stage::BundleBrowser) + count(&invoked, Stage::BundleHydrate),
        1
    );
    assert_eq!(count(&invoked, Stage::CompileServer), 0);

    let mut hydrate = PipelineState::new(false, false);
    let invoked = drive(&mut hydrate, |_| StageOutcome::Success);
    assert_eq!(hydrate.outcome(), Some(BuildOutcome::Success));
    assert_eq!(
        count(&invoked, Stage::BundleBrowser) + count(&invoked, Stage::BundleHydrate),
        1
    );
    assert_eq!(count(&invoked, Stage::CompileServer), 1);
}

// The fixed stage plans, stage by stage.
#[test]
fn plans_per_mode() {
    assert_eq!(
        plan_for(true, false),
        vec![
            Stage::CleanOutput,
            Stage::CompileStyles,
            Stage::ReadTemplate,
            Stage::BundleBrowser,
            Stage::GenerateHtml,
        ]
    );
    assert_eq!(
        plan_for(false, false),
        vec![
            Stage::CleanOutput,
            Stage::CompileStyles,
            Stage::ReadTemplate,
            Stage::BundleHydrate,
            Stage::GenerateRust,
            Stage::CompileServer,
        ]
    );
    // A build-everything pass in hydrate mode additionally bundles the
    // browser-only target.
    assert_eq!(
        plan_for(false, true),
        vec![
            Stage::CleanOutput,
            Stage::CompileStyles,
            Stage::ReadTemplate,
            Stage::BundleHydrate,
            Stage::GenerateRust,
            Stage::BundleBrowser,
            Stage::CompileServer,
        ]
    );
    // A full pass in csr mode needs nothing beyond the csr cycle.
    assert_eq!(plan_for(true, true), plan_for(true, false));
}

// A template failure surfaces with its own cause.
#[test]
fn template_failure_surfaces() {
    let mut p = PipelineState::new(true, false);
    let invoked = drive(&mut p, |stage| {
        if stage == Stage::ReadTemplate {
            StageOutcome::Failure(Cause::TemplateError)
        } else {
            StageOutcome::Success
        }
    });
    assert_eq!(invoked.len(), 3);
    assert_eq!(
        p.outcome(),
        Some(BuildOutcome::Failure(Stage::ReadTemplate, Cause::TemplateError))
    );
}

// Every failure cause a stage can report surfaces unchanged in the run's
// outcome.
#[test]
fn every_cause_surfaces() {
    for cause in [
        Cause::ConfigError,
        Cause::CollaboratorError,
        Cause::TemplateError,
        Cause::ChannelError,
        Cause::IoError,
    ] {
        let mut p = PipelineState::new(true, false);
        p.record(StageOutcome::Failure(cause));
        assert_eq!(
            p.outcome(),
            Some(BuildOutcome::Failure(Stage::CleanOutput, cause))
        );
        assert_eq!(p.current(), None);
    }
}

// An in-progress pipeline has no outcome yet.
#[test]
fn pipeline_outcome_is_none_while_running() {
    let mut p = PipelineState::new(true, false);
    assert_eq!(p.outcome(), None);
    p.record(StageOutcome::Success);
    assert_eq!(p.outcome(), None);
}

// A full subscriber queue drops its oldest unread message for a new one.
#[test]
fn slow_subscriber_drops_oldest() {
    let mut bus = EventBus::new(2);
    let sub = bus.subscribe();
    bus.publish(Msg::Reload("one".to_string()));
    bus.publish(Msg::Reload("two".to_string()));
    bus.publish(Msg::Reload("three".to_string()));
    assert_eq!(bus.recv(sub), Some(Msg::Reload("two".to_string())));
    assert_eq!(bus.recv(sub), Some(Msg::Reload("three".to_string())));
    assert_eq!(bus.recv(sub), None);
}

// A subscriber observes only messages published after it subscribed.
#[test]
fn subscriber_sees_no_history() {
    let mut bus = EventBus::new(10);
    let early = bus.subscribe();
    bus.publish(Msg::ShutDown);
    let late = bus.subscribe();
    assert_eq!(bus.subscriber_count(), 2);
    assert_eq!(bus.recv(early), Some(Msg::ShutDown));
    assert_eq!(bus.recv(late), None);
}

// Publishing with no subscribers delivers to nobody and is not an error.
#[test]
fn publish_without_subscribers_is_fine() {
    let mut bus = EventBus::new(10);
    bus.publish(Msg::SrcChanged);
    assert_eq!(bus.subscriber_count(), 0);
}

// The reload notification is suppressed once shutdown is requested.
#[test]
fn send_reload_respects_flag() {
    let mut bus = EventBus::new(10);
    let sub = bus.subscribe();
    let mut flag = ShutdownFlag::new();

    send_reload(&mut bus, &flag);
    assert_eq!(bus.recv(sub), Some(Msg::Reload("reload".to_string())));

    flag.raise();
    send_reload(&mut bus, &flag);
    assert_eq!(bus.recv(sub), None);
}

// The flag starts down, raises, and raising is idempotent.
#[test]
fn flag_is_monotone() {
    let mut flag = ShutdownFlag::new();
    assert!(!flag.get());
    flag.raise();
    assert!(flag.get());
    flag.raise();
    assert!(flag.get());
}

// The watch-loop step function, transition by transition.
#[test]
fn watch_step_transitions() {
    assert_eq!(
        watch_step(
            Phase::Building,
            WatchEvent::BuildDone(BuildOutcome::Success),
            false
        ),
        (Phase::AwaitingChangeOrExit, WatchAction::NotifyAndWait)
    );
    assert_eq!(
        watch_step(
            Phase::Building,
            WatchEvent::BuildDone(BuildOutcome::Failure(
                Stage::CompileServer,
                Cause::CollaboratorError
            )),
            true
        ),
        (
            Phase::Failed(Stage::CompileServer, Cause::CollaboratorError),
            WatchAction::ReportFailure(Stage::CompileServer, Cause::CollaboratorError)
        )
    );
    assert_eq!(
        watch_step(Phase::AwaitingChangeOrExit, WatchEvent::WaitDone, false),
        (Phase::Building, WatchAction::RunPipeline)
    );
    assert_eq!(
        watch_step(Phase::AwaitingChangeOrExit, WatchEvent::WaitDone, true),
        (Phase::Terminated, WatchAction::Stop)
    );
}

// A full wait-and-rebuild cycle: the next cycle starts a fresh run.
#[test]
fn wait_without_shutdown_begins_new_cycle() {
    let mut s = WatchSession::new(false, 10);
    for _ in 0..6 {
        s.record_stage(StageOutcome::Success);
    }
    assert_eq!(s.phase, Phase::AwaitingChangeOrExit);
    s.finish_wait();
    assert_eq!(s.phase, Phase::Building);
    assert_eq!(s.pipeline.current(), Some(Stage::CleanOutput));
    assert_eq!(s.pipeline.outcome(), None);
}

// The tasks spawned on entry, per mode.
#[test]
fn startup_tasks_per_mode() {
    assert_eq!(
        startup_tasks(true),
        vec![
            TaskKind::FileWatcher,
            TaskKind::DevServer,
            TaskKind::ReloadNotifier
        ]
    );
    assert_eq!(
        startup_tasks(false),
        vec![TaskKind::FileWatcher, TaskKind::ReloadNotifier]
    );
}

// What the loop waits on, and what serves HTTP, per mode.
#[test]
fn wait_and_serve_per_mode() {
    assert_eq!(wait_mode(true), WaitMode::BusEvent);
    assert_eq!(wait_mode(false), WaitMode::AppExit);
    assert_eq!(serve_target(true), ServeTarget::DevServer);
    assert_eq!(serve_target(false), ServeTarget::CompiledApp);
}

// The cargo-subcommand shim word is dropped from the arguments, and only it.
#[test]
fn normalize_args_drops_shim() {
    let mut args = vec![
        "cargo-leptos".to_string(),
        "leptos".to_string(),
        "watch".to_string(),
    ];
    normalize_args(&mut args);
    assert_eq!(args, vec!["cargo-leptos".to_string(), "watch".to_string()]);

    let mut args = vec!["cargo-leptos".to_string(), "watch".to_string()];
    normalize_args(&mut args);
    assert_eq!(args, vec!["cargo-leptos".to_string(), "watch".to_string()]);

    let mut args = vec!["cargo-leptos".to_string()];
    normalize_args(&mut args);
    assert_eq!(args, vec!["cargo-leptos".to_string()]);
}

// Every subcommand but `Init` carries options.
#[test]
fn command_opts_per_subcommand() {
    let opts = Opts {
        release: false,
        csr: true,
        verbose: 1,
    };
    assert_eq!(
        command_opts(&Cli {
            command: Commands::Init
        }),
        None
    );
    for command in [
        Commands::Build(opts),
        Commands::Test(opts),
        Commands::Serve(opts),
        Commands::Watch(opts),
    ] {
        assert_eq!(command_opts(&Cli { command }), Some(opts));
    }
}

// Default options: debug build, hydrate mode, quiet.
#[test]
fn default_opts() {
    let opts = Opts::default();
    assert!(!opts.release);
    assert!(!opts.csr);
    assert_eq!(opts.verbose, 0);
}

// Cloning a message preserves it, payload included.
#[test]
fn message_clone_is_exact() {
    let m = Msg::Reload("reload".to_string());
    assert_eq!(m.clone(), m);
    assert_eq!(Msg::ShutDown.clone(), Msg::ShutDown);
    assert_eq!(Msg::SrcChanged.clone(), Msg::SrcChanged);
}
