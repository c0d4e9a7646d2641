//! Choosing how a repository is built, and the rules for judging each build step.
use vstd::prelude::*;
use vstd::string::*;
use crate::path::{join, joined};
use crate::sync::UpdateAction;
use crate::text::{contains_text, int_text, i32_text, str_contains, text_equal, utf8_lossy, utf8_lossy_text};
use crate::zlorb_lib::error::ZlorbError;
use crate::zlorb_service::repo_processor::RepoProcessor;

verus! {

/// Builds with bun.
#[derive(Clone, Copy, Debug, PartialEq, Eq, Structural)]
pub struct BunManager {}

/// Builds with cargo.
#[derive(Clone, Copy, Debug, PartialEq, Eq, Structural)]
pub struct RustManager {}

/// How a repository is built; `Unknown` when its build command names no known tool.
#[derive(Clone, Copy, Debug, PartialEq, Eq, Structural)]
pub enum BuildStrategy {
    Bun(BunManager),
    Rust(RustManager),
    Unknown,
}

/// The strategy for a build command: bun if the command mentions `bun`, else cargo if it
/// mentions `cargo`.
pub open spec fn strategy_of(build_command: Seq<char>) -> BuildStrategy {
    if contains_text(build_command, "bun"@) {
        BuildStrategy::Bun(BunManager {})
    } else if contains_text(build_command, "cargo"@) {
        BuildStrategy::Rust(RustManager {})
    } else {
        BuildStrategy::Unknown
    }
}

/// The strategy is bun exactly when the build command mentions `bun`, cargo exactly when it
/// mentions `cargo` but not `bun`, and unknown exactly when it mentions neither.
pub proof fn law_strategy_follows_command(build_command: Seq<char>)
    ensures
        strategy_of(build_command) is Bun <==> contains_text(build_command, "bun"@),
        strategy_of(build_command) is Rust <==> (!contains_text(build_command, "bun"@) && contains_text(build_command, "cargo"@)),
        strategy_of(build_command) is Unknown <==> (!contains_text(build_command, "bun"@) && !contains_text(build_command, "cargo"@)),
{
}

/// The message that rejects a build command.
pub open spec fn invalid_build_text(build_command: Seq<char>, name: Seq<char>) -> Seq<char> {
    "The build command '"@ + build_command + "' provided to repo: "@ + name + " was invalid"@
}

/// The home directory under which a user's bun lives: `/root/` for root, else `/home/<user>`.
pub open spec fn bun_home_of(user: Seq<char>) -> Seq<char> {
    if user == "root"@ { "/root/"@ } else { joined("/home"@, user) }
}

/// Where a user's bun executable lives.
pub open spec fn bun_path_of(user: Seq<char>) -> Seq<char> {
    joined(bun_home_of(user), ".bun/bin/bun"@)
}

/// The message when bun is missing.
pub open spec fn bun_missing_text(user: Seq<char>) -> Seq<char> {
    "Bun is not installed or not in the PATH for user: "@ + user
}

/// The message when the directory to install in is missing.
pub open spec fn dir_missing_text(dir: Seq<char>) -> Seq<char> {
    "Directory does not exist: "@ + dir
}

/// The message when `bun install` wrote on standard error.
pub open spec fn install_failed_text(stderr: Seq<u8>) -> Seq<char> {
    "Npm install failed: "@ + utf8_lossy_text(stderr)
}

/// `bun run build` failed: it exited with code 1, or it did not succeed otherwise.
pub open spec fn build_failed(code: Option<i32>, success: bool) -> bool {
    code == Some(1i32) || (!success && code != Some(1i32))
}

/// The message when `bun run build` failed; a missing exit code shows as -1.
pub open spec fn build_failed_text(code: Option<i32>, stderr: Seq<u8>) -> Seq<char> {
    let shown: int = match code {
        Some(c) => c as int,
        None => -1,
    };
    "Bun build returned status "@ + int_text(shown) + " resulting in failure: "@ + utf8_lossy_text(stderr)
}

/// The message when the cargo build thread could not be joined.
pub open spec fn cargo_join_text() -> Seq<char> {
    "Failure when joining cargo build handle"@
}

impl BunManager {
    /// Where the given user's bun executable lives.
    pub fn bun_path(user: &str) -> (r: String)
        ensures
            r@ == bun_path_of(user@),
    {
        let root = "root";
        proof { reveal_strlit("root"); }
        let prefix = if text_equal(user, root) {
            String::from_str("/root/")
        } else {
            join("/home", user)
        };
        join(prefix.as_str(), ".bun/bin/bun")
    }

    /// The error when bun is missing for `user`.
    pub fn missing_error(&self, user: &str) -> (r: ZlorbError)
        ensures
            r matches ZlorbError::Other(m) && m@ == bun_missing_text(user@),
    {
        ZlorbError::Other(String::from_str("Bun is not installed or not in the PATH for user: ").concat(user))
    }

    /// The error when the directory to install in is missing.
    pub fn dir_missing_error(&self, dir: &str) -> (r: ZlorbError)
        ensures
            r matches ZlorbError::Other(m) && m@ == dir_missing_text(dir@),
    {
        ZlorbError::Other(String::from_str("Directory does not exist: ").concat(dir))
    }

    /// Judges `bun install` by what it wrote on standard error: anything there is a failure.
    pub fn install_result(&self, stderr: &Vec<u8>) -> (r: Result<(), ZlorbError>)
        ensures
            match r {
                Ok(()) => stderr@.len() == 0,
                Err(ZlorbError::Other(m)) => stderr@.len() > 0 && m@ == install_failed_text(stderr@),
                Err(_) => false,
            },
    {
        if stderr.len() > 0 {
            let text = utf8_lossy(stderr.as_slice());
            return Err(ZlorbError::Other(String::from_str("Npm install failed: ").concat(text.as_str())));
        }
        Ok(())
    }

    /// Judges `bun run build` by its exit status.
    pub fn build_result(&self, code: Option<i32>, success: bool, stderr: &Vec<u8>) -> (r: Result<(), ZlorbError>)
        ensures
            match r {
                Ok(()) => !build_failed(code, success),
                Err(ZlorbError::Other(m)) => build_failed(code, success) && m@ == build_failed_text(code, stderr@),
                Err(_) => false,
            },
    {
        let failed = match code {
            Some(c) => c == 1 || !success,
            None => !success,
        };
        if failed {
            let shown: i32 = match code {
                Some(c) => c,
                None => -1,
            };
            let msg = String::from_str("Bun build returned status ")
                .concat(i32_text(shown).as_str())
                .concat(" resulting in failure: ")
                .concat(utf8_lossy(stderr.as_slice()).as_str());
            return Err(ZlorbError::Other(msg));
        }
        Ok(())
    }
}

/// Runs the build step of one repository.
pub struct BuildSystemExecutor<'a> {
    pub processor: &'a RepoProcessor,
}

impl<'a> BuildSystemExecutor<'a> {
    /// The strategy that the repository's build command calls for.
    pub fn determine_strategy(&self) -> (r: BuildStrategy)
        ensures
            r == strategy_of(self.processor.config.build_command@),
    {
        let command = self.processor.config.build_command.as_str();
        if str_contains(command, "bun") {
            BuildStrategy::Bun(BunManager {})
        } else if str_contains(command, "cargo") {
            BuildStrategy::Rust(RustManager {})
        } else {
            BuildStrategy::Unknown
        }
    }

    /// The first piece of outside work of the build, or the error for an unknown build command.
    pub fn run_build(&self) -> (r: Result<UpdateAction, ZlorbError>)
        ensures
            match strategy_of(self.processor.config.build_command@) {
                BuildStrategy::Bun(_) => r matches Ok(UpdateAction::ReadUser),
                BuildStrategy::Rust(_) => r matches Ok(UpdateAction::CargoBuild { dir }) && dir@ == self.processor.config.path@,
                BuildStrategy::Unknown => r matches Err(ZlorbError::InvalidConfig(m)) && m@ == invalid_build_text(
                    self.processor.config.build_command@,
                    self.processor.config.name@,
                ),
            },
    {
        let config = &self.processor.config;
        match self.determine_strategy() {
            BuildStrategy::Bun(_) => Ok(UpdateAction::ReadUser),
            BuildStrategy::Rust(_) => Ok(UpdateAction::CargoBuild { dir: config.path.clone() }),
            BuildStrategy::Unknown => {
                let msg = String::from_str("The build command '")
                    .concat(config.build_command.as_str())
                    .concat("' provided to repo: ")
                    .concat(config.name.as_str())
                    .concat(" was invalid");
                Err(ZlorbError::InvalidConfig(msg))
            },
        }
    }
}

} // verus!
