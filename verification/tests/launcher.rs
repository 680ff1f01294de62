use ponev_jni::jni_env::{string_from_lookup, JniEnvError};
use ponev_jni::launcher::{
    dot_version, env_available, full_version, jli_launch_config,
    needs_attach, nominal_exit, nominal_exit_after_attach, reset_signal_plan, EnvLookup,
    ExitStep, JliLaunchConfig, SignalAction, SignalReset,
};

#[test]
fn signal_plan_resets_all_but_ignores_one() {
    let plan = reset_signal_plan(1, 65, 11);
    assert_eq!(plan.len(), 64);
    for (i, r) in plan.iter().enumerate() {
        assert_eq!(r.signal, 1 + i as u32);
        let expected = if r.signal == 11 { SignalAction::Ignore } else { SignalAction::Default };
        assert_eq!(r.action, expected);
    }
    assert_eq!(plan[10], SignalReset { signal: 11, action: SignalAction::Ignore });
    assert!(reset_signal_plan(5, 5, 11).is_empty());
    assert!(reset_signal_plan(6, 5, 11).is_empty());
}

#[test]
fn launch_arguments() {
    assert_eq!(
        jli_launch_config(),
        JliLaunchConfig { java_argc: 0, app_classpath_argc: 0, java_args: 1, cp_wildcard: 1, javaw: 0, ergo_policy: 0 }
    );
    assert_eq!(full_version(), "1.8.0-internal");
    assert_eq!(dot_version(), "1.8");
}

#[test]
fn attach_decisions() {
    assert!(needs_attach(-2));
    assert!(!needs_attach(0));
    assert!(!needs_attach(-1));
    assert!(env_available(0));
    assert!(!env_available(-2));
}

#[test]
fn exit_decisions() {
    assert_eq!(
        nominal_exit(EnvLookup::Attached, 3, true),
        ExitStep::Shutdown { show_message: true, code: 3, is_signal: true, java_exit_code: 0 }
    );
    assert_eq!(
        nominal_exit(EnvLookup::Attached, 0, false),
        ExitStep::Shutdown { show_message: false, code: 0, is_signal: false, java_exit_code: 0 }
    );
    assert_eq!(nominal_exit(EnvLookup::Detached, 3, false), ExitStep::AttachThread);
    assert_eq!(nominal_exit(EnvLookup::JniCallFailed, 3, false), ExitStep::Return);
    assert_eq!(nominal_exit(EnvLookup::OtherFailure, 3, false), ExitStep::ExitProcess(1));
    assert_eq!(nominal_exit_after_attach(true), ExitStep::Return);
    assert_eq!(nominal_exit_after_attach(false), ExitStep::KillProcessGroupAndExit(1));
}

#[test]
fn string_lookup_results() {
    assert_eq!(string_from_lookup(Ok("abc".to_string())), Ok("abc".to_string()));
    assert_eq!(
        string_from_lookup(Err(jni::errors::Error::JavaException)),
        Err(JniEnvError::StringUnavailable)
    );
}
