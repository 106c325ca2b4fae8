use vstd::prelude::*;
use crate::failure::Failure;
use crate::orchestrator::{current_action, drive, initial, session, transition, Command, Event, Orchestrator, Phase};
use crate::plan::{plan, some_container_matches, Action, ContainerDescriptor, Step};

verus! {

/// When no matching image exists, every launch in a plan comes after a
/// build; and `Run`, and `Init` or `Seed` without a running container, do build.
pub proof fn lemma_build_precedes_launch(step: Step, container_running: bool)
    ensures
        forall|j: int|
            0 <= j < plan(step, false, container_running).len()
                && plan(step, false, container_running)[j] == Action::LaunchContainer
                ==> exists|i: int| 0 <= i < j && plan(step, false, container_running)[i] == Action::BuildImage,
        step == Step::Run || (step != Step::Build && !container_running)
            ==> plan(step, false, container_running).contains(Action::BuildImage),
{
    let p = plan(step, false, container_running);
    assert forall|j: int| 0 <= j < p.len() && p[j] == Action::LaunchContainer implies
        exists|i: int| 0 <= i < j && p[i] == Action::BuildImage by {
        assert(p[0] == Action::BuildImage);
    }
    if step == Step::Run || (step != Step::Build && !container_running) {
        assert(p[0] == Action::BuildImage);
    }
}

/// When a container from the target image runs, `Init` and `Seed` neither
/// build nor launch.
pub proof fn lemma_running_container_skips_launch(step: Step, image_present: bool)
    requires
        step == Step::Init || step == Step::Seed,
    ensures
        !plan(step, image_present, true).contains(Action::BuildImage),
        !plan(step, image_present, true).contains(Action::LaunchContainer),
{
    let p = plan(step, image_present, true);
    assert(forall|j: int| 0 <= j < p.len() ==> p[j] != Action::BuildImage && p[j] != Action::LaunchContainer);
}

/// A plan launches at most once, and after a launch it settles before it
/// connects: no batch runs before the settle delay.
pub proof fn lemma_single_launch_then_settle(step: Step, image_present: bool, container_running: bool, j: int, k: int)
    requires
        0 <= j < plan(step, image_present, container_running).len(),
        0 <= k < plan(step, image_present, container_running).len(),
        plan(step, image_present, container_running)[j] == Action::LaunchContainer,
        plan(step, image_present, container_running)[k] == Action::LaunchContainer,
    ensures
        j == k,
        step != Step::Run ==> j + 2 < plan(step, image_present, container_running).len()
            && plan(step, image_present, container_running)[j + 1] == Action::Settle
            && plan(step, image_present, container_running)[j + 2] == Action::Connect,
{
}

/// Invoking `Init` while a container from the target image runs only
/// reconnects and reapplies the init batch: with the database accepting the
/// batch, every such invocation, the second one included, succeeds, with no
/// build and no launch.
pub proof fn lemma_init_rerun_succeeds(command: String, image_name: String, containers: Vec<ContainerDescriptor>)
    requires
        some_container_matches(containers@, image_name@),
    ensures
        session(
            Step::Init,
            command,
            image_name,
            seq![Event::Containers(containers), Event::Completed, Event::Completed],
        ) == seq![
            Command::ListContainers,
            Command::Perform(Action::Connect),
            Command::Perform(Action::ExecuteInit),
            Command::Finish(Ok(())),
        ],
{
    let events = seq![Event::Containers(containers), Event::Completed, Event::Completed];
    let s0 = initial(Step::Init, command, image_name).0;
    let (s1, c1) = transition(s0, events[0]);
    let (s2, c2) = transition(s1, events[1]);
    let (s3, c3) = transition(s2, events[2]);
    assert(events.drop_first().drop_first().drop_first() =~= Seq::<Event>::empty());
    assert(drive(s3, Seq::<Event>::empty()) == Seq::<Command>::empty());
    assert(drive(s2, events.drop_first().drop_first()) =~= seq![c3]);
    assert(drive(s1, events.drop_first()) =~= seq![c2, c3]);
    assert(drive(s0, events) =~= seq![c1, c2, c3]);
    assert(session(Step::Init, command, image_name, events) =~= seq![
        Command::ListContainers,
        Command::Perform(Action::Connect),
        Command::Perform(Action::ExecuteInit),
        Command::Finish(Ok(())),
    ]);
}

/// When a database step fails after this invocation launched the container,
/// exactly one kill is issued; its report ends the invocation with the
/// database failure, or with both failures when the kill failed too.
pub proof fn lemma_failed_connect_compensates(s: Orchestrator, m: String, k: String)
    requires
        s.phase == Phase::Working,
        s.launched,
        current_action(s) == Some(Action::Connect) || current_action(s) == Some(Action::ExecuteInit)
            || current_action(s) == Some(Action::ExecuteSeed),
    ensures
        transition(s, Event::DatabaseFailed(m)).1 == Command::Kill,
        transition(transition(s, Event::DatabaseFailed(m)).0, Event::Killed) == (
            Orchestrator { phase: Phase::Finished, ..transition(s, Event::DatabaseFailed(m)).0 },
            Command::Finish(Err(Failure::Database(m))),
        ),
        transition(transition(s, Event::DatabaseFailed(m)).0, Event::KillFailed(k)).1
            == Command::Finish(Err(Failure::Compensation { database: m, cleanup: k })),
{
}

/// No kill without a launch: an invocation starts with nothing launched, a
/// kill is issued only once this invocation launched a container, and that
/// mark is set only when a launch was reported started.
pub proof fn lemma_kill_needs_launch(step: Step, command: String, image_name: String, s: Orchestrator, e: Event)
    ensures
        !initial(step, command, image_name).0.launched,
        initial(step, command, image_name).1 != Command::Kill,
        transition(s, e).1 == Command::Kill ==> s.launched,
        transition(s, e).0.launched ==> s.launched
            || (current_action(s) == Some(Action::LaunchContainer) && e is Started),
{
}


/// A state in the `Working` phase was reached by handing out its current action.
pub proof fn lemma_working_hands_out_action(s: Orchestrator, e: Event)
    ensures
        transition(s, e).0.phase == Phase::Working ==> current_action(transition(s, e).0) is Some
            && transition(s, e).1 == Command::Perform(current_action(transition(s, e).0)->0),
{
}

proof fn lemma_drive_kill_after_launch(s: Orchestrator, last: Command, seen: bool, events: Seq<Event>)
    requires
        s.launched ==> seen,
        last == Command::Kill ==> seen,
        s.phase == Phase::Working ==> current_action(s) is Some && last == Command::Perform(current_action(s)->0),
    ensures
        forall|k: int|
            0 <= k < (seq![last] + drive(s, events)).len() && (seq![last] + drive(s, events))[k] == Command::Kill
                ==> seen || exists|i: int| 0 <= i < k && (seq![last] + drive(s, events))[i] == Command::Perform(Action::LaunchContainer),
    decreases events.len(),
{
    let cmds = seq![last] + drive(s, events);
    if events.len() == 0 {
        assert(cmds =~= seq![last]);
    } else {
        let (s1, c1) = transition(s, events[0]);
        let rest = events.drop_first();
        let seen1 = seen || last == Command::Perform(Action::LaunchContainer);
        lemma_kill_needs_launch(s.step, s.command, s.image_name, s, events[0]);
        lemma_working_hands_out_action(s, events[0]);
        lemma_drive_kill_after_launch(s1, c1, seen1, rest);
        let tail = seq![c1] + drive(s1, rest);
        assert(cmds =~= seq![last] + tail);
        assert forall|k: int| 0 <= k < cmds.len() && cmds[k] == Command::Kill implies
            seen || exists|i: int| 0 <= i < k && cmds[i] == Command::Perform(Action::LaunchContainer) by {
            if k > 0 {
                assert(tail[k - 1] == Command::Kill);
                if !seen1 {
                    let i = choose|i: int| 0 <= i < k - 1 && tail[i] == Command::Perform(Action::LaunchContainer);
                    assert(cmds[i + 1] == Command::Perform(Action::LaunchContainer));
                } else if !seen {
                    assert(cmds[0] == Command::Perform(Action::LaunchContainer));
                }
            }
        }
    }
}

/// No kill without a launch, over a whole invocation: whatever the host
/// reports, a `Kill` command is always preceded by a command to launch the
/// container, so a step that failed before launching is never compensated.
pub proof fn lemma_session_kill_after_launch(step: Step, command: String, image_name: String, events: Seq<Event>, k: int)
    requires
        0 <= k < session(step, command, image_name, events).len(),
        session(step, command, image_name, events)[k] == Command::Kill,
    ensures
        exists|i: int| 0 <= i < k && session(step, command, image_name, events)[i] == Command::Perform(Action::LaunchContainer),
{
    let (s0, c0) = initial(step, command, image_name);
    lemma_kill_needs_launch(step, command, image_name, s0, Event::Started);
    lemma_drive_kill_after_launch(s0, c0, false, events);
}

proof fn lemma_finished_no_kill(s: Orchestrator, events: Seq<Event>)
    requires
        s.phase == Phase::Finished,
    ensures
        forall|k: int| 0 <= k < drive(s, events).len() ==> drive(s, events)[k] != Command::Kill,
    decreases events.len(),
{
    if events.len() > 0 {
        let (s1, c1) = transition(s, events[0]);
        lemma_finished_no_kill(s1, events.drop_first());
        assert(drive(s, events) =~= seq![c1] + drive(s1, events.drop_first()));
    }
}

proof fn lemma_drive_single_kill(s: Orchestrator, events: Seq<Event>)
    ensures
        forall|k1: int, k2: int|
            0 <= k1 < drive(s, events).len() && 0 <= k2 < drive(s, events).len()
                && drive(s, events)[k1] == Command::Kill && drive(s, events)[k2] == Command::Kill ==> k1 == k2,
    decreases events.len(),
{
    if events.len() > 0 {
        let (s1, c1) = transition(s, events[0]);
        let rest = events.drop_first();
        let cmds = drive(s, events);
        assert(cmds =~= seq![c1] + drive(s1, rest));
        if c1 == Command::Kill {
            if rest.len() > 0 {
                let (s2, c2) = transition(s1, rest[0]);
                lemma_finished_no_kill(s2, rest.drop_first());
                assert(drive(s1, rest) =~= seq![c2] + drive(s2, rest.drop_first()));
                assert forall|k: int| 1 <= k < cmds.len() implies cmds[k] != Command::Kill by {
                    if k > 1 {
                        assert(cmds[k] == drive(s2, rest.drop_first())[k - 2]);
                    }
                }
            }
        } else {
            lemma_drive_single_kill(s1, rest);
            assert forall|k1: int, k2: int|
                0 <= k1 < cmds.len() && 0 <= k2 < cmds.len() && cmds[k1] == Command::Kill
                    && cmds[k2] == Command::Kill implies k1 == k2 by {
                assert(drive(s1, rest)[k1 - 1] == Command::Kill);
                assert(drive(s1, rest)[k2 - 1] == Command::Kill);
            }
        }
    }
}

/// An invocation kills the container at most once, whatever the host reports:
/// once a kill is issued, its report ends the invocation.
pub proof fn lemma_session_single_kill(step: Step, command: String, image_name: String, events: Seq<Event>, k1: int, k2: int)
    requires
        0 <= k1 < session(step, command, image_name, events).len(),
        0 <= k2 < session(step, command, image_name, events).len(),
        session(step, command, image_name, events)[k1] == Command::Kill,
        session(step, command, image_name, events)[k2] == Command::Kill,
    ensures
        k1 == k2,
{
    let (s0, c0) = initial(step, command, image_name);
    lemma_kill_needs_launch(step, command, image_name, s0, Event::Started);
    lemma_drive_single_kill(s0, events);
    let cmds = session(step, command, image_name, events);
    assert(cmds =~= seq![c0] + drive(s0, events));
    assert(drive(s0, events)[k1 - 1] == Command::Kill);
    assert(drive(s0, events)[k2 - 1] == Command::Kill);
}

} // verus!
