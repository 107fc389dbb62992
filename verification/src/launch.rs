use crate::level::LogLevel;
use vstd::prelude::*;

verus! {

/// A command that the front-end may invoke by name.
#[derive(Clone, Copy, Debug, PartialEq, Eq, Structural)]
pub enum Command {
    /// Makes the window that issued the command visible.
    ShowKalkkiWindow,
}

/// One thing the shell does on its way to a running application.
#[derive(Clone, Copy, Debug, PartialEq, Eq, Structural)]
pub enum Step {
    /// Attach the opener plugin to the builder.
    RegisterOpener,
    /// Attach a logging sink with this threshold while the application sets up.
    RegisterLogging(LogLevel),
    /// Make the command available to the front-end.
    ExposeCommand(Command),
    /// Hand control to the framework's event loop.
    RunEventLoop,
}

/// The steps of a launch, in the order in which they are taken.
///
/// The opener plugin is always attached. A build with debug assertions also
/// attaches a logging sink at `Info`; any other build attaches none. The one
/// command is exposed, and the event loop comes last.
pub open spec fn launch_sequence(debug: bool) -> Seq<Step> {
    let logging = if debug {
        seq![Step::RegisterLogging(LogLevel::Info)]
    } else {
        Seq::empty()
    };
    seq![Step::RegisterOpener] + logging + seq![
        Step::ExposeCommand(Command::ShowKalkkiWindow),
        Step::RunEventLoop,
    ]
}

/// Whether `steps` takes `step` as its `i`-th step, counting from zero.
pub open spec fn takes(steps: Seq<Step>, i: int, step: Step) -> bool {
    0 <= i < steps.len() && steps[i] == step
}

/// Whether some step of `steps` attaches a logging sink, at whatever threshold.
pub open spec fn registers_logging(steps: Seq<Step>) -> bool {
    exists|i: int, level: LogLevel| takes(steps, i, Step::RegisterLogging(level))
}

/// Plans a launch: `debug` tells whether the build has debug assertions on.
pub fn launch_steps(debug: bool) -> (steps: Vec<Step>)
    ensures
        steps@ == launch_sequence(debug),
{
    let mut steps: Vec<Step> = Vec::new();
    steps.push(Step::RegisterOpener);
    if debug {
        steps.push(Step::RegisterLogging(LogLevel::Info));
    }
    steps.push(Step::ExposeCommand(Command::ShowKalkkiWindow));
    steps.push(Step::RunEventLoop);
    assert(steps@ =~= launch_sequence(debug));
    steps
}

/// A launch attaches a logging sink exactly when the build has debug
/// assertions on: a release launch never attempts it.
pub proof fn lemma_logging_only_in_debug(debug: bool)
    ensures
        registers_logging(launch_sequence(debug)) <==> debug,
{
    let steps = launch_sequence(debug);
    if debug {
        assert(takes(steps, 1, Step::RegisterLogging(LogLevel::Info)));
    } else {
        assert(steps.len() == 3);
        assert forall|i: int, level: LogLevel|
            !takes(steps, i, Step::RegisterLogging(level)) by {}
    }
}

/// A debug launch attaches its logging sink at `Info`, at no other threshold,
/// and does so ahead of the event loop.
pub proof fn lemma_debug_logs_at_info_before_event_loop(debug: bool)
    requires
        debug,
    ensures
        exists|i: int, j: int|
            i < j && takes(launch_sequence(debug), i, Step::RegisterLogging(LogLevel::Info))
                && takes(launch_sequence(debug), j, Step::RunEventLoop),
        forall|i: int, level: LogLevel|
            takes(launch_sequence(debug), i, Step::RegisterLogging(level)) ==> level
                == LogLevel::Info,
{
    let steps = launch_sequence(debug);
    assert(steps.len() == 4);
    assert(takes(steps, 1, Step::RegisterLogging(LogLevel::Info)) && takes(
        steps,
        3,
        Step::RunEventLoop,
    ));
}

/// Whatever the build, a launch attaches the opener plugin first, exposes the
/// show command, and enters the event loop once, as its last step.
pub proof fn lemma_opener_first_event_loop_last(debug: bool)
    ensures
        takes(launch_sequence(debug), 0, Step::RegisterOpener),
        exists|i: int|
            takes(launch_sequence(debug), i, Step::ExposeCommand(Command::ShowKalkkiWindow)),
        forall|i: int|
            takes(launch_sequence(debug), i, Step::RunEventLoop) <==> i == launch_sequence(
                debug,
            ).len() - 1,
{
    let steps = launch_sequence(debug);
    if debug {
        assert(steps.len() == 4);
        assert(takes(steps, 2, Step::ExposeCommand(Command::ShowKalkkiWindow)));
    } else {
        assert(steps.len() == 3);
        assert(takes(steps, 1, Step::ExposeCommand(Command::ShowKalkkiWindow)));
    }
}

} // verus!
