use vstd::prelude::*;
use crate::profile_text::{plain_split, marked_profile_name, output_dir_line, output_dir_from, parent_path, profile_name_of, text_of_bytes};
use vstd::utf8::{decode_utf8, valid_utf8};

verus! {

/// A command of the mod-profile manager.
#[derive(Debug, Clone)]
pub enum BridgeCommand {
    /// Print the active profile.
    ShowProfile,
    /// Make the named profile the active one.
    SwitchProfile(String),
    /// Set the active profile's game version.
    ConfigureVersion(String),
    /// Bring the active profile's mods up to date.
    Upgrade,
}

/// A command of the mod-profile manager that could not be started or
/// exited with a failure.
#[derive(Debug, Clone)]
pub struct CommandFailure {
    /// The command line that failed, for display.
    pub command: String,
    /// What went wrong.
    pub detail: String,
}

/// The result of running one command.
#[derive(Debug, Clone)]
pub enum StepResult {
    /// The command exited successfully with this standard output.
    Succeeded(Vec<u8>),
    Failed(CommandFailure),
}

/// Why a switch through the mod-profile manager failed.
#[derive(Debug, Clone)]
pub enum BridgeError {
    /// The active profile's status was not UTF-8.
    Utf8,
    /// The active profile's status line lacked the `" *"` mark.
    ProfileFormat,
    /// A command failed; the active profile was restored where it had been
    /// switched.
    Command(CommandFailure),
    /// Switching back to the profile that was active before failed; `cause`
    /// is the forward step that failed first, if any.
    Restore { failure: CommandFailure, cause: Option<CommandFailure> },
}

/// The program of the mod-profile manager.
pub const BRIDGE_PROGRAM: &'static str = "ferium";

/// The arguments that run a command of the mod-profile manager.
pub open spec fn bridge_args_spec(cmd: BridgeCommand) -> Seq<Seq<char>> {
    match cmd {
        BridgeCommand::ShowProfile => seq!["profile"@],
        BridgeCommand::SwitchProfile(p) => seq!["profile"@, "switch"@, p@],
        BridgeCommand::ConfigureVersion(v) => seq!["profile"@, "configure"@, "--game-version"@, v@],
        BridgeCommand::Upgrade => seq!["upgrade"@],
    }
}

/// How a command of the mod-profile manager is named in messages.
pub open spec fn bridge_command_name(cmd: BridgeCommand) -> Seq<char> {
    match cmd {
        BridgeCommand::ShowProfile => "ferium profile"@,
        BridgeCommand::SwitchProfile(_) => "ferium profile switch"@,
        BridgeCommand::ConfigureVersion(_) => "ferium profile configure --game-version"@,
        BridgeCommand::Upgrade => "ferium upgrade"@,
    }
}

/// The arguments of a command of the mod-profile manager, and its name in
/// messages.
pub fn bridge_args(cmd: &BridgeCommand) -> (r: (Vec<String>, String))
    ensures
        r.0@.map_values(|a: String| a@) == bridge_args_spec(*cmd),
        r.1@ == bridge_command_name(*cmd),
{
    let mut args: Vec<String> = Vec::new();
    let name = match cmd {
        BridgeCommand::ShowProfile => {
            args.push(String::from_str("profile"));
            String::from_str("ferium profile")
        },
        BridgeCommand::SwitchProfile(p) => {
            args.push(String::from_str("profile"));
            args.push(String::from_str("switch"));
            args.push(p.clone());
            String::from_str("ferium profile switch")
        },
        BridgeCommand::ConfigureVersion(v) => {
            args.push(String::from_str("profile"));
            args.push(String::from_str("configure"));
            args.push(String::from_str("--game-version"));
            args.push(v.clone());
            String::from_str("ferium profile configure --game-version")
        },
        BridgeCommand::Upgrade => {
            args.push(String::from_str("upgrade"));
            String::from_str("ferium upgrade")
        },
    };
    assert(args@.map_values(|a: String| a@) =~= bridge_args_spec(*cmd));
    (args, name)
}

/// Where a switch stands: which command ran last, and what is known.
#[derive(Debug)]
pub enum BridgePhase {
    /// Reading which profile is active.
    ReadingPrevious,
    /// Switching to the target profile.
    Switching { previous: String },
    /// Reading the target profile's report.
    ReadingTarget { previous: String },
    /// Setting the target profile's game version.
    Configuring { previous: String, output_dir: Option<String> },
    /// Updating the target profile's mods.
    Upgrading { previous: String, output_dir: Option<String> },
    /// Switching back to the profile that was active before; `outcome` is
    /// what the forward steps came to.
    Restoring { previous: String, outcome: Result<Option<String>, CommandFailure> },
}

/// What the switch needs next: a command to run, or its result.
#[derive(Debug)]
pub enum BridgeAction {
    Run(BridgePhase, BridgeCommand),
    Finish(Result<Option<String>, BridgeError>),
}

/// The profile that was active before the switch, once known.
pub open spec fn previous_of(p: BridgePhase) -> Option<Seq<char>> {
    match p {
        BridgePhase::ReadingPrevious => None,
        BridgePhase::Switching { previous } => Some(previous@),
        BridgePhase::ReadingTarget { previous } => Some(previous@),
        BridgePhase::Configuring { previous, .. } => Some(previous@),
        BridgePhase::Upgrading { previous, .. } => Some(previous@),
        BridgePhase::Restoring { previous, .. } => Some(previous@),
    }
}

/// Whether `p` is one of the forward steps after the active profile was
/// read.
pub open spec fn is_forward_after_capture(p: BridgePhase) -> bool {
    p is Switching || p is ReadingTarget || p is Configuring || p is Upgrading
}

/// The output-directory line of a target profile's report: the first line
/// that is text and carries the prefix.
pub open spec fn report_line(out: Seq<u8>) -> Option<Seq<char>> {
    output_dir_from(out, 0)
}

/// The forward outcome so far, carried by a phase.
pub open spec fn carried_dir(p: BridgePhase) -> Option<Option<String>> {
    match p {
        BridgePhase::Configuring { output_dir, .. } => Some(output_dir),
        BridgePhase::Upgrading { output_dir, .. } => Some(output_dir),
        _ => None,
    }
}

/// The step from `phase` on `result`, as a relation: the action it leads to.
pub open spec fn bridge_step_spec(
    profile: Seq<char>,
    version: Seq<char>,
    phase: BridgePhase,
    result: StepResult,
    action: BridgeAction,
) -> bool {
    match phase {
        BridgePhase::ReadingPrevious => match result {
            StepResult::Failed(f) => action == BridgeAction::Finish(Err(BridgeError::Command(f))),
            StepResult::Succeeded(out) => if !valid_utf8(out@) {
                action matches BridgeAction::Finish(Err(BridgeError::Utf8))
            } else {
                match marked_profile_name(decode_utf8(out@)) {
                    None => action matches BridgeAction::Finish(Err(BridgeError::ProfileFormat)),
                    Some(name) => action matches BridgeAction::Run(
                        BridgePhase::Switching { previous },
                        BridgeCommand::SwitchProfile(target),
                    ) && previous@ == name && target@ == profile,
                }
            },
        },
        BridgePhase::Restoring { previous: _, outcome } => match result {
            StepResult::Succeeded(_) => match outcome {
                Ok(dir) => action == BridgeAction::Finish(Ok(dir)),
                Err(f) => action == BridgeAction::Finish(Err(BridgeError::Command(f))),
            },
            StepResult::Failed(g) => action == BridgeAction::Finish(Err(BridgeError::Restore {
                failure: g,
                cause: match outcome {
                    Ok(_) => None,
                    Err(f) => Some(f),
                },
            })),
        },
        _ => match result {
            StepResult::Failed(f) => action matches BridgeAction::Run(
                BridgePhase::Restoring { previous, outcome },
                BridgeCommand::SwitchProfile(back),
            ) && Some(previous@) == previous_of(phase) && back@ == previous@
                && outcome == Err::<Option<String>, CommandFailure>(f),
            StepResult::Succeeded(out) => match phase {
                BridgePhase::Switching { previous: p0 } => action matches BridgeAction::Run(
                    BridgePhase::ReadingTarget { previous },
                    BridgeCommand::ShowProfile,
                ) && previous == p0,
                BridgePhase::ReadingTarget { previous: p0 } => action matches BridgeAction::Run(
                    BridgePhase::Configuring { previous, output_dir },
                    BridgeCommand::ConfigureVersion(v),
                ) && previous == p0 && v@ == version && match report_line(out@) {
                    None => output_dir is None,
                    Some(line) => output_dir matches Some(d)
                        && d@.len() <= line.len() && d@ == line.subrange(0, d@.len() as int)
                        && forall|x: Seq<char>, f: Seq<char>| plain_split(line, x, f) ==> d@ == x,
                },
                BridgePhase::Configuring { previous: p0, output_dir: d0 } => action matches BridgeAction::Run(
                    BridgePhase::Upgrading { previous, output_dir },
                    BridgeCommand::Upgrade,
                ) && previous == p0 && output_dir == d0,
                BridgePhase::Upgrading { previous: p0, output_dir: d0 } => action matches BridgeAction::Run(
                    BridgePhase::Restoring { previous, outcome },
                    BridgeCommand::SwitchProfile(back),
                ) && previous == p0 && back@ == p0@ && outcome == Ok::<Option<String>, CommandFailure>(d0),
                _ => false,
            },
        },
    }
}

/// The first command of a switch, and the phase it starts.
pub fn bridge_start() -> (r: (BridgePhase, BridgeCommand))
    ensures
        r.0 is ReadingPrevious,
        r.1 is ShowProfile,
{
    (BridgePhase::ReadingPrevious, BridgeCommand::ShowProfile)
}

/// The directory that a target profile's report names, if any: its
/// output-directory line without the last path component.
fn report_dir(out: Vec<u8>) -> (r: Option<String>)
    ensures
        match report_line(out@) {
            None => r is None,
            Some(line) => r matches Some(d) && d@.len() <= line.len() && d@ == line.subrange(0, d@.len() as int)
                && forall|x: Seq<char>, f: Seq<char>| plain_split(line, x, f) ==> d@ == x,
        },
{
    match output_dir_line(&out) {
        None => None,
        Some(line) => Some(parent_path(line)),
    }
}

/// The next action of a switch to `profile` with game version `version`,
/// after the command of `phase` gave `result`. Once the active profile is
/// known, every failure leads to switching back to it.
pub fn bridge_step(profile: &String, version: &String, phase: BridgePhase, result: StepResult) -> (r: BridgeAction)
    ensures
        bridge_step_spec(profile@, version@, phase, result, r),
{
    match phase {
        BridgePhase::ReadingPrevious => match result {
            StepResult::Failed(f) => BridgeAction::Finish(Err(BridgeError::Command(f))),
            StepResult::Succeeded(out) => match text_of_bytes(out) {
                None => BridgeAction::Finish(Err(BridgeError::Utf8)),
                Some(text) => match profile_name_of(&text) {
                    None => BridgeAction::Finish(Err(BridgeError::ProfileFormat)),
                    Some(name) => BridgeAction::Run(
                        BridgePhase::Switching { previous: name },
                        BridgeCommand::SwitchProfile(profile.clone()),
                    ),
                },
            },
        },
        BridgePhase::Restoring { previous: _, outcome } => match result {
            StepResult::Succeeded(_) => match outcome {
                Ok(dir) => BridgeAction::Finish(Ok(dir)),
                Err(f) => BridgeAction::Finish(Err(BridgeError::Command(f))),
            },
            StepResult::Failed(g) => {
                let cause = match outcome {
                    Ok(_) => None,
                    Err(f) => Some(f),
                };
                BridgeAction::Finish(Err(BridgeError::Restore { failure: g, cause }))
            },
        },
        BridgePhase::Switching { previous } => match result {
            StepResult::Failed(f) => restore(previous, f),
            StepResult::Succeeded(_) => BridgeAction::Run(
                BridgePhase::ReadingTarget { previous },
                BridgeCommand::ShowProfile,
            ),
        },
        BridgePhase::ReadingTarget { previous } => match result {
            StepResult::Failed(f) => restore(previous, f),
            StepResult::Succeeded(out) => {
                let output_dir = report_dir(out);
                BridgeAction::Run(
                    BridgePhase::Configuring { previous, output_dir },
                    BridgeCommand::ConfigureVersion(version.clone()),
                )
            },
        },
        BridgePhase::Configuring { previous, output_dir } => match result {
            StepResult::Failed(f) => restore(previous, f),
            StepResult::Succeeded(_) => BridgeAction::Run(
                BridgePhase::Upgrading { previous, output_dir },
                BridgeCommand::Upgrade,
            ),
        },
        BridgePhase::Upgrading { previous, output_dir } => match result {
            StepResult::Failed(f) => restore(previous, f),
            StepResult::Succeeded(_) => {
                let back = previous.clone();
                BridgeAction::Run(
                    BridgePhase::Restoring { previous, outcome: Ok(output_dir) },
                    BridgeCommand::SwitchProfile(back),
                )
            },
        },
    }
}

/// Switching back to `previous` after the forward step failed with `f`.
fn restore(previous: String, f: CommandFailure) -> (r: BridgeAction)
    ensures
        r matches BridgeAction::Run(
            BridgePhase::Restoring { previous: p, outcome },
            BridgeCommand::SwitchProfile(back),
        ) && p == previous && back@ == previous@ && outcome == Err::<Option<String>, CommandFailure>(f),
{
    let back = previous.clone();
    BridgeAction::Run(BridgePhase::Restoring { previous, outcome: Err(f) }, BridgeCommand::SwitchProfile(back))
}

/// Once the active profile has been read, a failure of any later forward
/// step (switching, reading the target, setting the version, updating) is
/// followed by switching back to the profile read first; so is the last
/// forward step's success.
pub proof fn lemma_restore_always_follows(
    profile: Seq<char>,
    version: Seq<char>,
    phase: BridgePhase,
    result: StepResult,
    action: BridgeAction,
)
    requires
        is_forward_after_capture(phase),
        bridge_step_spec(profile, version, phase, result, action),
        result is Failed || phase is Upgrading,
    ensures
        action matches BridgeAction::Run(BridgePhase::Restoring { previous, .. }, BridgeCommand::SwitchProfile(back))
            && Some(previous@) == previous_of(phase) && back@ == previous@,
{
}

/// No step forgets the profile that was active before the switch: every
/// phase that follows one holding it holds the same name.
pub proof fn lemma_previous_profile_kept(
    profile: Seq<char>,
    version: Seq<char>,
    phase: BridgePhase,
    result: StepResult,
    action: BridgeAction,
)
    requires
        previous_of(phase) is Some,
        bridge_step_spec(profile, version, phase, result, action),
    ensures
        action matches BridgeAction::Run(next, _) ==> previous_of(next) == previous_of(phase),
{
}

} // verus!
