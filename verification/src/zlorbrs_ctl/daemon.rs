//! Starting or restarting the zlorbrs service through systemd.
use vstd::prelude::*;
use crate::zlorb_lib::config::texts;
use crate::zlorbrs_lib::error::ZlorbError;

verus! {

/// What to ask of systemd for the service.
#[derive(Clone, Copy, Debug, PartialEq, Eq, Structural)]
pub enum ServiceCommand {
    Start,
    Restart,
}

impl ServiceCommand {
    /// The `systemctl` arguments of the command.
    pub fn args(&self) -> (r: Vec<String>)
        ensures
            texts(r@) == match self {
                ServiceCommand::Start => seq!["start"@, "zlorbrs"@],
                ServiceCommand::Restart => seq!["restart"@, "zlorbrs"@],
            },
    {
        let verb = match self {
            ServiceCommand::Start => String::from_str("start"),
            ServiceCommand::Restart => String::from_str("restart"),
        };
        let mut v: Vec<String> = Vec::new();
        v.push(verb);
        v.push(String::from_str("zlorbrs"));
        assert(texts(v@) =~= match self {
            ServiceCommand::Start => seq!["start"@, "zlorbrs"@],
            ServiceCommand::Restart => seq!["restart"@, "zlorbrs"@],
        });
        v
    }
}

/// Responsible for starting/stopping/restarting the zlorbrs service daemon.
pub struct DaemonManager {}

impl DaemonManager {
    /// The `systemctl` arguments that ask, quietly, whether the service is active.
    pub fn process_check_args() -> (r: Vec<String>)
        ensures
            texts(r@) == seq!["is-active"@, "--quiet"@, "zlorbrs"@],
    {
        let mut v: Vec<String> = Vec::new();
        v.push(String::from_str("is-active"));
        v.push(String::from_str("--quiet"));
        v.push(String::from_str("zlorbrs"));
        assert(texts(v@) =~= seq!["is-active"@, "--quiet"@, "zlorbrs"@]);
        v
    }

    /// Given the outcome of the activity check (`Ok(true)` when the service is active), the
    /// command to run: a running service is restarted, a stopped one started; a failed check
    /// is passed on.
    pub fn start(process_check: Result<bool, ZlorbError>) -> (r: Result<ServiceCommand, ZlorbError>)
        ensures
            match process_check {
                Ok(true) => r == Ok::<ServiceCommand, ZlorbError>(ServiceCommand::Restart),
                Ok(false) => r == Ok::<ServiceCommand, ZlorbError>(ServiceCommand::Start),
                Err(e) => r == Err::<ServiceCommand, ZlorbError>(e),
            },
    {
        match process_check {
            Ok(is_running) => {
                if is_running {
                    Ok(ServiceCommand::Restart)
                } else {
                    Ok(ServiceCommand::Start)
                }
            },
            Err(e) => Err(e),
        }
    }
}

} // verus!
