//! Error codes and the configuration record shared by the whole tool.

use vstd::prelude::*;

verus! {

/// Why a run ended; the variant's position is the process exit status.
#[derive(Copy, Clone, Debug, PartialEq, Eq, Structural)]
pub enum ExitCode {
    _CleanExit,
    CannotCreateDir,
    NoConnection,
    CannotParseResponse,
    CannotFindAccessToken,
    MissingConfigChannels,
    CannotWriteConfig,
    WroteDefaultConfig,
    CannotParseConfig,
    TooManyPages,
}

impl ExitCode {
    /// The process exit status of each code.
    pub open spec fn spec_number(self) -> i32 {
        match self {
            ExitCode::_CleanExit => 0,
            ExitCode::CannotCreateDir => 1,
            ExitCode::NoConnection => 2,
            ExitCode::CannotParseResponse => 3,
            ExitCode::CannotFindAccessToken => 4,
            ExitCode::MissingConfigChannels => 5,
            ExitCode::CannotWriteConfig => 6,
            ExitCode::WroteDefaultConfig => 7,
            ExitCode::CannotParseConfig => 8,
            ExitCode::TooManyPages => 9,
        }
    }

    #[verifier::when_used_as_spec(spec_number)]
    pub fn number(self) -> (r: i32)
        ensures
            r == self.spec_number(),
    {
        match self {
            ExitCode::_CleanExit => 0,
            ExitCode::CannotCreateDir => 1,
            ExitCode::NoConnection => 2,
            ExitCode::CannotParseResponse => 3,
            ExitCode::CannotFindAccessToken => 4,
            ExitCode::MissingConfigChannels => 5,
            ExitCode::CannotWriteConfig => 6,
            ExitCode::WroteDefaultConfig => 7,
            ExitCode::CannotParseConfig => 8,
            ExitCode::TooManyPages => 9,
        }
    }
}

/// An error code with a message for the user.
#[derive(Debug)]
pub struct ExitMsg {
    pub msg: String,
    pub code: ExitCode,
}

impl ExitMsg {
    /// An error with `code` and the message `msg`.
    pub fn new(code: ExitCode, msg: &str) -> (r: ExitMsg)
        ensures
            r.code == code,
            r.msg@ == msg@,
    {
        ExitMsg { msg: String::from_str(msg), code }
    }

    /// An error with `code`, its message made of `what` followed by `reason` in quotes.
    pub fn with_reason(code: ExitCode, what: &str, reason: &str) -> (r: ExitMsg)
        ensures
            r.code == code,
            r.msg@ == what@ + " Reason: \""@ + reason@ + "\""@,
    {
        let mut msg = String::from_str(what);
        msg.append(" Reason: \"");
        msg.append(reason);
        msg.append("\"");
        ExitMsg { msg, code }
    }
}

/// A result seen through its value's view and its error's code.
pub open spec fn outcome<T: View>(r: Result<T, ExitMsg>) -> Result<T::V, ExitCode> {
    match r {
        Ok(t) => Ok(t@),
        Err(e) => Err(e.code),
    }
}

/// What the tool reads from its configuration file.
#[derive(Debug)]
pub struct Config {
    pub twitch_channels: Vec<String>,
    pub twitch_client_id: String,
    pub twitch_client_secret: String,
    pub stage_timezone: String,
    pub stage_format: std::collections::HashMap<String, String>,
    pub youtube_client_path: String,
    pub youtube_pickle_path: String,
    pub temp_dir: String,
    pub stage_dir: String,
    pub vods_dir: String,
    pub clips_dir: String,
}

} // verus!
