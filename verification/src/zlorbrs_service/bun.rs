//! Judging bun's install and build steps.
use vstd::prelude::*;
use vstd::string::*;
use crate::text::utf8_lossy;
use crate::zlorb_service::build_system_executor::install_failed_text;
use crate::zlorbrs_lib::error::ZlorbError;

verus! {

/// Builds with bun.
pub struct BunManager {}

impl BunManager {
    /// Judges a build by its exit code: code 1 is a failure, anything else passes.
    pub fn build_result(&self, code: Option<i32>) -> (r: Result<(), ZlorbError>)
        ensures
            match r {
                Ok(()) => code != Some(1i32),
                Err(ZlorbError::Other(m)) => code == Some(1i32) && m@ == "build returned status code 1 resulting in failure"@,
                Err(_) => false,
            },
    {
        let failed = match code {
            Some(c) => c == 1,
            None => false,
        };
        if failed {
            return Err(ZlorbError::Other(String::from_str("build returned status code 1 resulting in failure")));
        }
        Ok(())
    }

    /// Judges `bun install` by what it wrote on standard error: anything there is a failure.
    pub fn install_result(&self, stderr: &Vec<u8>) -> (r: Result<(), ZlorbError>)
        ensures
            match r {
                Ok(()) => stderr@.len() == 0,
                Err(ZlorbError::Other(m)) => stderr@.len() > 0 && m@ == install_failed_text(stderr@),
                Err(_) => false,
            },
    {
        if stderr.len() > 0 {
            let text = utf8_lossy(stderr.as_slice());
            return Err(ZlorbError::Other(String::from_str("Npm install failed: ").concat(text.as_str())));
        }
        Ok(())
    }
}

} // verus!
