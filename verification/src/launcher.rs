//! The decisions of the JVM launcher: which signal handlers are reset before
//! the JVM starts, the fixed arguments of `JLILaunch`, attaching to the JVM,
//! and how the process leaves when the game exits.

use vstd::prelude::*;

verus! {

/// The JNI status of a call that succeeded.
pub const JNI_OK: i32 = 0;

/// The JNI status of a thread that is not attached to the JVM.
pub const JNI_EDETACHED: i32 = -2;

/// What a signal's handler is reset to.
#[derive(PartialEq, Eq, Structural, Clone, Copy, Debug)]
pub enum SignalAction {
    /// The system's default action.
    Default,
    /// The signal is ignored.
    Ignore,
}

/// The handler that one signal is reset to.
#[derive(PartialEq, Eq, Structural, Clone, Copy, Debug)]
pub struct SignalReset {
    pub signal: u32,
    pub action: SignalAction,
}

/// The action for `signal` when `ignored` is the one signal to ignore.
pub open spec fn spec_signal_action(signal: u32, ignored: u32) -> SignalAction {
    if signal == ignored {
        SignalAction::Ignore
    } else {
        SignalAction::Default
    }
}

/// The handlers reset before the JVM starts: every signal from `first` up to
/// (not including) `end`, in order, back to its default action, except
/// `ignored`, which is ignored.
pub fn reset_signal_plan(first: u32, end: u32, ignored: u32) -> (r: Vec<SignalReset>)
    ensures
        first <= end ==> r@.len() == end - first,
        first > end ==> r@.len() == 0,
        forall|i: int|
            0 <= i < r@.len() ==> #[trigger] r@[i] == (SignalReset {
                signal: (first + i) as u32,
                action: spec_signal_action((first + i) as u32, ignored),
            }),
{
    let mut plan: Vec<SignalReset> = Vec::new();
    let mut sig: u32 = first;
    if first > end {
        return plan;
    }
    while sig < end
        invariant
            first <= sig <= end,
            plan@.len() == sig - first,
            forall|i: int|
                0 <= i < plan@.len() ==> #[trigger] plan@[i] == (SignalReset {
                    signal: (first + i) as u32,
                    action: spec_signal_action((first + i) as u32, ignored),
                }),
        decreases end - sig,
    {
        let action = if sig == ignored {
            SignalAction::Ignore
        } else {
            SignalAction::Default
        };
        plan.push(SignalReset { signal: sig, action });
        sig = sig + 1;
    }
    plan
}

/// Every signal of the range is reset exactly once, and only `ignored` is
/// ignored.
pub proof fn lemma_reset_plan_covers_range(plan: Seq<SignalReset>, first: u32, end: u32, ignored: u32)
    requires
        first <= end,
        plan.len() == end - first,
        forall|i: int|
            0 <= i < plan.len() ==> #[trigger] plan[i] == (SignalReset {
                signal: (first + i) as u32,
                action: spec_signal_action((first + i) as u32, ignored),
            }),
    ensures
        forall|s: u32|
            first <= s < end ==> #[trigger] plan[s - first].signal == s,
        forall|i: int, j: int|
            0 <= i < plan.len() && 0 <= j < plan.len() && i != j ==> plan[i].signal
                != plan[j].signal,
        forall|i: int|
            0 <= i < plan.len() ==> (#[trigger] plan[i].action == SignalAction::Ignore
                <==> plan[i].signal == ignored),
{
    assert forall|s: u32| first <= s < end implies #[trigger] plan[s - first].signal == s by {
        assert(plan[s - first] == (SignalReset {
            signal: (first + (s - first)) as u32,
            action: spec_signal_action((first + (s - first)) as u32, ignored),
        }));
    }
    assert forall|i: int, j: int|
        0 <= i < plan.len() && 0 <= j < plan.len() && i != j implies plan[i].signal
        != plan[j].signal by {
        assert(plan[i].signal == (first + i) as u32);
        assert(plan[j].signal == (first + j) as u32);
    }
}

/// The fixed arguments that the JVM is launched with.
#[derive(PartialEq, Eq, Structural, Clone, Copy, Debug)]
pub struct JliLaunchConfig {
    /// The number of extra Java arguments (none).
    pub java_argc: i32,
    /// The number of application class path entries (none).
    pub app_classpath_argc: i32,
    /// `JAVA_ARGS`: 1 exactly when no extra Java arguments are given. JLI
    /// reads the flag as "extra Java arguments are present", so here it is
    /// set although none are passed.
    pub java_args: u8,
    /// Class path wildcards are expanded.
    pub cp_wildcard: u8,
    /// Not the Windows-only `javaw` launcher.
    pub javaw: u8,
    /// The default ergonomics class policy.
    pub ergo_policy: i32,
}

/// The full version the JVM is told it is launched as.
pub open spec fn spec_full_version() -> Seq<char> {
    "1.8.0-internal"@
}

/// The dotted version the JVM is told it is launched as.
pub open spec fn spec_dot_version() -> Seq<char> {
    "1.8"@
}

/// The fixed launch arguments.
pub fn jli_launch_config() -> (r: JliLaunchConfig)
    ensures
        r == (JliLaunchConfig {
            java_argc: 0,
            app_classpath_argc: 0,
            java_args: 1,
            cp_wildcard: 1,
            javaw: 0,
            ergo_policy: 0,
        }),
{
    JliLaunchConfig {
        java_argc: 0,
        app_classpath_argc: 0,
        java_args: 1,
        cp_wildcard: 1,
        javaw: 0,
        ergo_policy: 0,
    }
}

/// The full version string, `1.8.0-internal`.
pub fn full_version() -> (r: String)
    ensures
        r@ == spec_full_version(),
{
    String::from_str("1.8.0-internal")
}

/// The dotted version string, `1.8`.
pub fn dot_version() -> (r: String)
    ensures
        r@ == spec_dot_version(),
{
    String::from_str("1.8")
}

/// Whether a thread whose `GetEnv` status is `status` must first attach to
/// the JVM.
pub fn needs_attach(status: i32) -> (r: bool)
    ensures
        r == (status == JNI_EDETACHED),
{
    status == JNI_EDETACHED
}

/// Whether the JNI environment can be used after the lookup (and the attach
/// that followed it, if any) ended with `status`.
pub fn env_available(status: i32) -> (r: bool)
    ensures
        r == (status == JNI_OK),
{
    status == JNI_OK
}

/// What looking up the JNI environment of the exiting thread gave.
#[derive(PartialEq, Eq, Structural, Clone, Copy, Debug)]
pub enum EnvLookup {
    /// The thread has an environment.
    Attached,
    /// The thread is not attached to the JVM.
    Detached,
    /// The JNI call failed for another reason.
    JniCallFailed,
    /// The lookup failed before reaching JNI.
    OtherFailure,
}

/// What the exit path does next.
#[derive(PartialEq, Eq, Structural, Clone, Copy, Debug)]
pub enum ExitStep {
    /// Attach the thread to the JVM, then decide again.
    AttachThread,
    /// Give up on the orderly exit and return.
    Return,
    /// Leave the process with this status.
    ExitProcess(i32),
    /// Send `SIGTERM` to the process group, then leave with this status.
    KillProcessGroupAndExit(i32),
    /// Shut down through Java: show the exit message when asked, forget the
    /// exit trap, and call `System.exit` with `java_exit_code`.
    Shutdown { show_message: bool, code: i32, is_signal: bool, java_exit_code: i32 },
}

/// The first decision of the exit path, for the game's exit `code`.
pub open spec fn spec_nominal_exit(lookup: EnvLookup, code: i32, is_signal: bool) -> ExitStep {
    match lookup {
        EnvLookup::Attached => ExitStep::Shutdown {
            show_message: code != 0,
            code,
            is_signal,
            java_exit_code: 0,
        },
        EnvLookup::Detached => ExitStep::AttachThread,
        EnvLookup::JniCallFailed => ExitStep::Return,
        EnvLookup::OtherFailure => ExitStep::ExitProcess(1),
    }
}

/// The first decision of the exit path: with an environment, shut down
/// through Java (showing the exit message only for a non-zero code); a
/// detached thread attaches first; another JNI failure gives up; any other
/// failure leaves the process with status 1.
pub fn nominal_exit(lookup: EnvLookup, code: i32, is_signal: bool) -> (r: ExitStep)
    ensures
        r == spec_nominal_exit(lookup, code, is_signal),
        lookup == EnvLookup::Attached ==> (r matches ExitStep::Shutdown {
            show_message: m,
            code: c,
            is_signal: s,
            java_exit_code: j,
        } && m == (code != 0) && c == code && s == is_signal && j == 0),
{
    match lookup {
        EnvLookup::Attached => ExitStep::Shutdown {
            show_message: code != 0,
            code,
            is_signal,
            java_exit_code: 0,
        },
        EnvLookup::Detached => ExitStep::AttachThread,
        EnvLookup::JniCallFailed => ExitStep::Return,
        EnvLookup::OtherFailure => ExitStep::ExitProcess(1),
    }
}

/// The decision after attaching: having attached, the exit path returns; if
/// attaching failed, the process group is terminated and the process leaves
/// with status 1.
pub fn nominal_exit_after_attach(attached: bool) -> (r: ExitStep)
    ensures
        attached ==> r == ExitStep::Return,
        !attached ==> r == ExitStep::KillProcessGroupAndExit(1),
{
    if attached {
        ExitStep::Return
    } else {
        ExitStep::KillProcessGroupAndExit(1)
    }
}

/// An orderly exit always asks Java to exit with status 0, and shows the
/// exit message exactly for a non-zero exit code.
pub proof fn lemma_orderly_exit(code: i32, is_signal: bool)
    ensures
        spec_nominal_exit(EnvLookup::Attached, code, is_signal) matches ExitStep::Shutdown {
            show_message,
            java_exit_code,
            ..
        } && java_exit_code == 0 && (show_message <==> code != 0),
{
}

/// The exit message reports the game's own exit code and whether a signal
/// ended it, both exactly as given: an orderly shutdown passes them through
/// unchanged.
pub proof fn lemma_exit_message_passes_code_and_signal(code: i32, is_signal: bool)
    ensures
        spec_nominal_exit(EnvLookup::Attached, code, is_signal) matches ExitStep::Shutdown {
            code: c,
            is_signal: s,
            ..
        } && c == code && s == is_signal,
        spec_nominal_exit(EnvLookup::Attached, code, true) != spec_nominal_exit(
            EnvLookup::Attached,
            code,
            false,
        ),
{
}

} // verus!
