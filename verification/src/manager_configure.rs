//! Changing an installed instance: the order of the steps, and how a
//! failed step is undone, as a state machine the manager drives. Each step
//! is outside work (files, the service registry); the manager performs the
//! action the machine names and hands back how it went.
use vstd::prelude::*;
use crate::manager_install::pick;

verus! {

/// What is known before changing an instance.
#[derive(Debug, Clone, Copy)]
pub struct ConfigurePlan {
    /// The request changes the name the service is registered under.
    pub rename: bool,
    /// The instance is running.
    pub running: bool,
    /// The instance is registered with the system's service manager.
    pub registered: bool,
    /// The manager speaks Chinese.
    pub zh: bool,
}

/// What to do after restoring the old config during a failure.
#[derive(Debug, Clone, Copy, PartialEq, Eq, Structural)]
pub enum Compensation {
    Nothing,
    Reregister,
    StartOriginal,
}

/// Where the change stands.
#[derive(Debug, Clone)]
pub enum ConfigureState {
    Begin,
    RenameStopping,
    RenameWriting,
    RenameUnregistering,
    RenameRegistering,
    RestartStopping,
    RestartWriting,
    RestartStarting,
    PlainWriting,
    PlainChecking,
    PlainRegistering,
    /// The old config is being written back after `error`.
    Restoring { then: Compensation, error: String },
    /// The last undo step runs; the change then fails with `error`.
    Compensating { error: String },
    /// The manager's settings are saved; the change then reports `message`.
    Saving { message: String },
    Done,
}

/// The next piece of outside work.
#[derive(Debug)]
pub enum ConfigureAction {
    /// Stop the service under its current registration name.
    StopOriginal,
    /// Write the instance's new config.
    WriteConfig,
    /// Remove the registration under the current name.
    UnregisterOriginal,
    /// Register the instance from its config.
    Register,
    /// Start the service under its current registration name.
    StartOriginal,
    /// Start the service under the requested registration name.
    StartRequested,
    /// Write the old config back.
    RestoreBackup,
    /// Ask whether the requested name is registered.
    CheckRequestedRegistered,
    /// Save the manager's settings.
    Save,
    /// The change is over: its message, or its error.
    Finish(Result<String, String>),
}

pub open spec fn renamed_message(zh: bool) -> Seq<char> {
    pick(zh, "配置已更新，服务注册名已刷新。"@, "Configuration updated, and the service registration name has been refreshed."@)
}

pub open spec fn restarted_message(zh: bool) -> Seq<char> {
    pick(zh, "配置已更新，服务已自动重启。"@, "Configuration updated, and the service has been restarted automatically."@)
}

pub open spec fn next_start_message(zh: bool) -> Seq<char> {
    pick(zh, "配置已更新，新设置会在下次启动时生效。"@, "Configuration updated. The new settings will take effect on the next start."@)
}

fn message(zh: bool, which: u8) -> (r: String)
    requires
        which < 3,
    ensures
        which == 0 ==> r@ == renamed_message(zh),
        which == 1 ==> r@ == restarted_message(zh),
        which == 2 ==> r@ == next_start_message(zh),
{
    let t = if which == 0 {
        crate::manager_install::pick_text(zh, "配置已更新，服务注册名已刷新。", "Configuration updated, and the service registration name has been refreshed.")
    } else if which == 1 {
        crate::manager_install::pick_text(zh, "配置已更新，服务已自动重启。", "Configuration updated, and the service has been restarted automatically.")
    } else {
        crate::manager_install::pick_text(zh, "配置已更新，新设置会在下次启动时生效。", "Configuration updated. The new settings will take effect on the next start.")
    };
    String::from_str(t)
}

/// The failure a step reported, if it failed.
pub open spec fn failure(event: Result<bool, String>) -> Option<Seq<char>> {
    match event {
        Err(e) => Some(e@),
        Ok(_) => None,
    }
}

/// The action finishes with the error `e`.
pub open spec fn fails_with(a: ConfigureAction, e: Seq<char>) -> bool {
    a matches ConfigureAction::Finish(Err(m)) && m@ == e
}

/// The state is `Restoring` with the given follow-up and error.
pub open spec fn restoring(s: ConfigureState, then: Compensation, e: Seq<char>) -> bool {
    s matches ConfigureState::Restoring { then: t, error } && t == then && error@ == e
}

/// The state is `Compensating` with the error.
pub open spec fn compensating(s: ConfigureState, e: Seq<char>) -> bool {
    s matches ConfigureState::Compensating { error } && error@ == e
}

/// The state is `Saving` with the message.
pub open spec fn saving(s: ConfigureState, m: Seq<char>) -> bool {
    s matches ConfigureState::Saving { message } && message@ == m
}

/// The most steps left before a change of an instance is over.
pub open spec fn steps_left(s: ConfigureState) -> nat {
    match s {
        ConfigureState::Begin => 7,
        ConfigureState::RenameStopping => 6,
        ConfigureState::RenameWriting => 5,
        ConfigureState::RenameUnregistering => 4,
        ConfigureState::RenameRegistering => 3,
        ConfigureState::RestartStopping => 5,
        ConfigureState::RestartWriting => 4,
        ConfigureState::RestartStarting => 3,
        ConfigureState::PlainWriting => 4,
        ConfigureState::PlainChecking => 3,
        ConfigureState::PlainRegistering => 2,
        ConfigureState::Restoring { .. } => 2,
        ConfigureState::Compensating { .. } => 1,
        ConfigureState::Saving { .. } => 1,
        ConfigureState::Done => 0,
    }
}

/// One step of changing an instance: from the state and the result of the
/// last action (`Ok(true)` for a step that succeeded or a question answered
/// yes, `Ok(false)` for one answered no, `Err` for a failure), the next
/// state and action.
///
/// A change of registration name stops a running service, writes the
/// config, unregisters the old name and registers the new one; a failure
/// after the config was written restores the old config (and, where the
/// registration was already removed, registers it again). Otherwise a
/// running service is stopped, reconfigured and started under the new
/// name; a failed write starts it again as it was, a failed start restores
/// the old config and starts it as it was. A stopped service only gets its
/// config, and a registration where it had one that is missing under the
/// new name. Every success ends with saving the manager's settings.
///
/// Each step leaves fewer steps to go (`steps_left`), so a change is over
/// after at most seven steps, and the machine is done exactly when its
/// action is `Finish`.
pub fn configure_step(plan: ConfigurePlan, state: ConfigureState, event: Result<bool, String>) -> (r: (ConfigureState, ConfigureAction))
    ensures
        !(state is Done) ==> steps_left(r.0) < steps_left(state),
        r.1 is Finish <==> r.0 is Done,
        state is Begin ==> (if plan.rename {
            if plan.running {
                r.0 is RenameStopping && r.1 is StopOriginal
            } else {
                r.0 is RenameWriting && r.1 is WriteConfig
            }
        } else if plan.running {
            r.0 is RestartStopping && r.1 is StopOriginal
        } else {
            r.0 is PlainWriting && r.1 is WriteConfig
        }),
        (state is RenameStopping || state is RenameWriting || state is RestartStopping || state is PlainWriting
            || state is PlainChecking || state is PlainRegistering || state is Saving) && event is Err
            ==> r.0 is Done && fails_with(r.1, event->Err_0@),
        state is RenameStopping && event is Ok ==> r.0 is RenameWriting && r.1 is WriteConfig,
        state is RenameWriting && event is Ok ==> r.0 is RenameUnregistering && r.1 is UnregisterOriginal,
        state is RenameUnregistering ==> match failure(event) {
            Some(e) => restoring(r.0, Compensation::Nothing, e) && r.1 is RestoreBackup,
            None => r.0 is RenameRegistering && r.1 is Register,
        },
        state is RenameRegistering ==> match failure(event) {
            Some(e) => restoring(r.0, Compensation::Reregister, e) && r.1 is RestoreBackup,
            None => saving(r.0, renamed_message(plan.zh)) && r.1 is Save,
        },
        state is RestartStopping && event is Ok ==> r.0 is RestartWriting && r.1 is WriteConfig,
        state is RestartWriting ==> match failure(event) {
            Some(e) => compensating(r.0, e) && r.1 is StartOriginal,
            None => r.0 is RestartStarting && r.1 is StartRequested,
        },
        state is RestartStarting ==> match failure(event) {
            Some(e) => restoring(r.0, Compensation::StartOriginal, e) && r.1 is RestoreBackup,
            None => saving(r.0, restarted_message(plan.zh)) && r.1 is Save,
        },
        state is PlainWriting && event is Ok ==> if plan.registered {
            r.0 is PlainChecking && r.1 is CheckRequestedRegistered
        } else {
            saving(r.0, next_start_message(plan.zh)) && r.1 is Save
        },
        state is PlainChecking && event == Ok::<bool, String>(true) ==> saving(r.0, next_start_message(plan.zh))
            && r.1 is Save,
        state is PlainChecking && event == Ok::<bool, String>(false) ==> r.0 is PlainRegistering && r.1 is Register,
        state is PlainRegistering && event is Ok ==> saving(r.0, next_start_message(plan.zh)) && r.1 is Save,
        state matches ConfigureState::Restoring { then, error } ==> match then {
            Compensation::Nothing => r.0 is Done && fails_with(r.1, error@),
            Compensation::Reregister => compensating(r.0, error@) && r.1 is Register,
            Compensation::StartOriginal => compensating(r.0, error@) && r.1 is StartOriginal,
        },
        state matches ConfigureState::Compensating { error } ==> r.0 is Done && fails_with(r.1, error@),
        state is Saving && event is Ok ==> r.0 is Done && (r.1 matches ConfigureAction::Finish(Ok(m)) && m@ == state->Saving_message@),
        state is Done ==> r.0 is Done && r.1 is Finish,
{
    match state {
        ConfigureState::Begin => {
            if plan.rename {
                if plan.running {
                    (ConfigureState::RenameStopping, ConfigureAction::StopOriginal)
                } else {
                    (ConfigureState::RenameWriting, ConfigureAction::WriteConfig)
                }
            } else if plan.running {
                (ConfigureState::RestartStopping, ConfigureAction::StopOriginal)
            } else {
                (ConfigureState::PlainWriting, ConfigureAction::WriteConfig)
            }
        },
        ConfigureState::RenameStopping => match event {
            Err(e) => (ConfigureState::Done, ConfigureAction::Finish(Err(e))),
            Ok(_) => (ConfigureState::RenameWriting, ConfigureAction::WriteConfig),
        },
        ConfigureState::RenameWriting => match event {
            Err(e) => (ConfigureState::Done, ConfigureAction::Finish(Err(e))),
            Ok(_) => (ConfigureState::RenameUnregistering, ConfigureAction::UnregisterOriginal),
        },
        ConfigureState::RenameUnregistering => match event {
            Err(e) => (
                ConfigureState::Restoring { then: Compensation::Nothing, error: e },
                ConfigureAction::RestoreBackup,
            ),
            Ok(_) => (ConfigureState::RenameRegistering, ConfigureAction::Register),
        },
        ConfigureState::RenameRegistering => match event {
            Err(e) => (
                ConfigureState::Restoring { then: Compensation::Reregister, error: e },
                ConfigureAction::RestoreBackup,
            ),
            Ok(_) => (ConfigureState::Saving { message: message(plan.zh, 0) }, ConfigureAction::Save),
        },
        ConfigureState::RestartStopping => match event {
            Err(e) => (ConfigureState::Done, ConfigureAction::Finish(Err(e))),
            Ok(_) => (ConfigureState::RestartWriting, ConfigureAction::WriteConfig),
        },
        ConfigureState::RestartWriting => match event {
            Err(e) => (ConfigureState::Compensating { error: e }, ConfigureAction::StartOriginal),
            Ok(_) => (ConfigureState::RestartStarting, ConfigureAction::StartRequested),
        },
        ConfigureState::RestartStarting => match event {
            Err(e) => (
                ConfigureState::Restoring { then: Compensation::StartOriginal, error: e },
                ConfigureAction::RestoreBackup,
            ),
            Ok(_) => (ConfigureState::Saving { message: message(plan.zh, 1) }, ConfigureAction::Save),
        },
        ConfigureState::PlainWriting => match event {
            Err(e) => (ConfigureState::Done, ConfigureAction::Finish(Err(e))),
            Ok(_) => if plan.registered {
                (ConfigureState::PlainChecking, ConfigureAction::CheckRequestedRegistered)
            } else {
                (ConfigureState::Saving { message: message(plan.zh, 2) }, ConfigureAction::Save)
            },
        },
        ConfigureState::PlainChecking => match event {
            Err(e) => (ConfigureState::Done, ConfigureAction::Finish(Err(e))),
            Ok(true) => (ConfigureState::Saving { message: message(plan.zh, 2) }, ConfigureAction::Save),
            Ok(false) => (ConfigureState::PlainRegistering, ConfigureAction::Register),
        },
        ConfigureState::PlainRegistering => match event {
            Err(e) => (ConfigureState::Done, ConfigureAction::Finish(Err(e))),
            Ok(_) => (ConfigureState::Saving { message: message(plan.zh, 2) }, ConfigureAction::Save),
        },
        ConfigureState::Restoring { then, error } => match then {
            Compensation::Nothing => (ConfigureState::Done, ConfigureAction::Finish(Err(error))),
            Compensation::Reregister => (ConfigureState::Compensating { error }, ConfigureAction::Register),
            Compensation::StartOriginal => (ConfigureState::Compensating { error }, ConfigureAction::StartOriginal),
        },
        ConfigureState::Compensating { error } => (ConfigureState::Done, ConfigureAction::Finish(Err(error))),
        ConfigureState::Saving { message } => match event {
            Err(e) => (ConfigureState::Done, ConfigureAction::Finish(Err(e))),
            Ok(_) => (ConfigureState::Done, ConfigureAction::Finish(Ok(message))),
        },
        ConfigureState::Done => (
            ConfigureState::Done,
            ConfigureAction::Finish(Err(String::from_str("configuration change already finished"))),
        ),
    }
}

} // verus!
