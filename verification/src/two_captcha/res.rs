//! What 2Captcha answers.
use vstd::prelude::*;

verus! {

/// The errors 2Captcha reports, each with its numeric code.
#[derive(Clone, Copy, PartialEq, Eq, Structural)]
pub enum Error {
    ErrorKeyDoesNotExist,
    ErrorNoSlotAvailable,
    ErrorZeroCaptchaFilesize,
    ErrorTooBigCaptchaFilesize,
    ErrorPageUrl,
    ErrorZeroBalance,
    ErrorIpNotAllowed,
    ErrorCaptchaUnsolvable,
    ErrorBadDuplicates,
    ErrorNoSuchMethod,
    ErrorImageTypeNotSupported,
    ErrorNoSuchCaptchaId,
    ErrorIpBlocked,
    ErrorTaskAbsent,
    ErrorTaskNotSupported,
    ErrorRecaptchaInvalidSiteKey,
    ErrorAccountSuspended,
    ErrorBadProxy,
    ErrorBadParameters,
    ErrorBadImgInstructions,
}

pub open spec fn error_code_spec(e: Error) -> u8 {
    match e {
        Error::ErrorKeyDoesNotExist => 1,
        Error::ErrorNoSlotAvailable => 2,
        Error::ErrorZeroCaptchaFilesize => 3,
        Error::ErrorTooBigCaptchaFilesize => 4,
        Error::ErrorPageUrl => 5,
        Error::ErrorZeroBalance => 10,
        Error::ErrorIpNotAllowed => 11,
        Error::ErrorCaptchaUnsolvable => 12,
        Error::ErrorBadDuplicates => 13,
        Error::ErrorNoSuchMethod => 14,
        Error::ErrorImageTypeNotSupported => 15,
        Error::ErrorNoSuchCaptchaId => 16,
        Error::ErrorIpBlocked => 21,
        Error::ErrorTaskAbsent => 22,
        Error::ErrorTaskNotSupported => 23,
        Error::ErrorRecaptchaInvalidSiteKey => 31,
        Error::ErrorAccountSuspended => 55,
        Error::ErrorBadProxy => 130,
        Error::ErrorBadParameters => 110,
        Error::ErrorBadImgInstructions => 115,
    }
}

impl Error {
    /// The service's numeric code of this error.
    pub fn code(&self) -> (res: u8)
        ensures
            res == error_code_spec(*self),
    {
        match self {
            Error::ErrorKeyDoesNotExist => 1,
            Error::ErrorNoSlotAvailable => 2,
            Error::ErrorZeroCaptchaFilesize => 3,
            Error::ErrorTooBigCaptchaFilesize => 4,
            Error::ErrorPageUrl => 5,
            Error::ErrorZeroBalance => 10,
            Error::ErrorIpNotAllowed => 11,
            Error::ErrorCaptchaUnsolvable => 12,
            Error::ErrorBadDuplicates => 13,
            Error::ErrorNoSuchMethod => 14,
            Error::ErrorImageTypeNotSupported => 15,
            Error::ErrorNoSuchCaptchaId => 16,
            Error::ErrorIpBlocked => 21,
            Error::ErrorTaskAbsent => 22,
            Error::ErrorTaskNotSupported => 23,
            Error::ErrorRecaptchaInvalidSiteKey => 31,
            Error::ErrorAccountSuspended => 55,
            Error::ErrorBadProxy => 130,
            Error::ErrorBadParameters => 110,
            Error::ErrorBadImgInstructions => 115,
        }
    }

    /// The error a numeric code stands for, if any.
    pub fn from_code(code: u8) -> (res: Option<Error>)
        ensures
            match res {
                Some(e) => error_code_spec(e) == code,
                None => forall|e: Error| error_code_spec(e) != code,
            },
    {
        let found = match code {
            1 => Error::ErrorKeyDoesNotExist,
            2 => Error::ErrorNoSlotAvailable,
            3 => Error::ErrorZeroCaptchaFilesize,
            4 => Error::ErrorTooBigCaptchaFilesize,
            5 => Error::ErrorPageUrl,
            10 => Error::ErrorZeroBalance,
            11 => Error::ErrorIpNotAllowed,
            12 => Error::ErrorCaptchaUnsolvable,
            13 => Error::ErrorBadDuplicates,
            14 => Error::ErrorNoSuchMethod,
            15 => Error::ErrorImageTypeNotSupported,
            16 => Error::ErrorNoSuchCaptchaId,
            21 => Error::ErrorIpBlocked,
            22 => Error::ErrorTaskAbsent,
            23 => Error::ErrorTaskNotSupported,
            31 => Error::ErrorRecaptchaInvalidSiteKey,
            55 => Error::ErrorAccountSuspended,
            130 => Error::ErrorBadProxy,
            110 => Error::ErrorBadParameters,
            115 => Error::ErrorBadImgInstructions,
            _ => {
                return None;
            },
        };
        Some(found)
    }
}

/// Law: each error carries the numeric code 2Captcha publishes for it, and
/// no two errors share a code, so `from_code` of an error's `code` gives
/// that error back.
pub proof fn lemma_published_error_codes()
    ensures
        error_code_spec(Error::ErrorKeyDoesNotExist) == 1,
        error_code_spec(Error::ErrorNoSlotAvailable) == 2,
        error_code_spec(Error::ErrorZeroCaptchaFilesize) == 3,
        error_code_spec(Error::ErrorTooBigCaptchaFilesize) == 4,
        error_code_spec(Error::ErrorPageUrl) == 5,
        error_code_spec(Error::ErrorZeroBalance) == 10,
        error_code_spec(Error::ErrorIpNotAllowed) == 11,
        error_code_spec(Error::ErrorCaptchaUnsolvable) == 12,
        error_code_spec(Error::ErrorBadDuplicates) == 13,
        error_code_spec(Error::ErrorNoSuchMethod) == 14,
        error_code_spec(Error::ErrorImageTypeNotSupported) == 15,
        error_code_spec(Error::ErrorNoSuchCaptchaId) == 16,
        error_code_spec(Error::ErrorIpBlocked) == 21,
        error_code_spec(Error::ErrorTaskAbsent) == 22,
        error_code_spec(Error::ErrorTaskNotSupported) == 23,
        error_code_spec(Error::ErrorRecaptchaInvalidSiteKey) == 31,
        error_code_spec(Error::ErrorAccountSuspended) == 55,
        error_code_spec(Error::ErrorBadProxy) == 130,
        error_code_spec(Error::ErrorBadParameters) == 110,
        error_code_spec(Error::ErrorBadImgInstructions) == 115,
        forall|a: Error, b: Error| #[trigger] error_code_spec(a) == #[trigger] error_code_spec(b) ==> a == b,
{
}

/// The state of a task.
#[derive(Clone, Copy, PartialEq, Eq, Structural)]
pub enum Status {
    Processing,
    Ready,
    Error,
}

pub open spec fn status_text(s: Status) -> Seq<char> {
    match s {
        Status::Processing => "processing"@,
        Status::Ready => "ready"@,
        Status::Error => "error"@,
    }
}

impl Status {
    /// How the state is written: `processing`, `ready` or `error`.
    pub fn to_display_string(&self) -> (res: String)
        ensures
            res@ == status_text(*self),
    {
        proof {
            reveal_strlit("processing");
            reveal_strlit("ready");
            reveal_strlit("error");
        }
        match self {
            Status::Processing => "processing".to_owned(),
            Status::Ready => "ready".to_owned(),
            Status::Error => "error".to_owned(),
        }
    }
}

/// The answer to a new task: an error code and the task's number.
pub struct Solve {
    pub error_id: u8,
    pub task_id: u32,
}

/// The answer to a result check.
pub struct TaskResult {
    pub error_id: Error,
    pub status: String,
    pub solution: Solution,
    pub cost: String,
    pub ip: String,
    pub create_time: u64,
    pub end_time: u64,
    pub solve_count: u32,
}

/// The token that solves the captcha.
pub struct Solution {
    pub token: String,
}

} // verus!
