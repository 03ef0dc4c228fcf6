use vstd::prelude::*;

verus! {

/// Errors of the library. Failures that come from the network, the file system or the JSON
/// decoder reach it as their message text.
#[derive(Debug)]
pub enum SynoError {
    Http(String),
    Api { code: i32, message: String },
    SessionExpired,
    NotAuthenticated,
    TwoFactorRequired,
    InvalidCredentials,
    Config(String),
    Cache(String),
    Credential(String),
    Player(String),
    Io(String),
    Json(String),
    ServerUnreachable(String),
}

/// Result type of the library.
pub type Result<T> = std::result::Result<T, SynoError>;

/// Text of a Synology error code.
pub open spec fn api_code_message(code: i32) -> Seq<char> {
    if code == 100 {
        "Unknown error"@
    } else if code == 101 {
        "No parameter of API, method, or version"@
    } else if code == 102 {
        "API does not exist"@
    } else if code == 103 {
        "Method does not exist"@
    } else if code == 104 {
        "Version not supported"@
    } else if code == 105 {
        "No permission"@
    } else if code == 107 {
        "Session interrupted by duplicate login"@
    } else if code == 401 {
        "Account disabled"@
    } else if code == 402 {
        "Permission denied"@
    } else if code == 404 {
        "Failed to authenticate 2-factor code"@
    } else if code == 412 {
        "Playlist not found or corrupted (try recreating it via Audio Station UI)"@
    } else {
        "Unknown API error"@
    }
}

/// Whether `e` is the error a Synology error code stands for: an expired session (106, 119),
/// wrong credentials (400), a second factor needed (403), else an API error with the code
/// and its text.
pub open spec fn is_code_error(e: SynoError, code: i32) -> bool {
    &&& code == 106 || code == 119 ==> e is SessionExpired
    &&& code == 400 ==> e is InvalidCredentials
    &&& code == 403 ==> e is TwoFactorRequired
    &&& !(code == 106 || code == 119 || code == 400 || code == 403) ==> (e matches SynoError::Api {
        code: c,
        message: m,
    } && c == code && m@ == api_code_message(code))
}

impl SynoError {
    /// Create an API error from a Synology error code.
    pub fn from_api_code(code: i32) -> (e: SynoError)
        ensures
            is_code_error(e, code),
    {
        if code == 106 || code == 119 {
            return SynoError::SessionExpired;
        }
        if code == 400 {
            return SynoError::InvalidCredentials;
        }
        if code == 403 {
            return SynoError::TwoFactorRequired;
        }
        let message = if code == 100 {
            "Unknown error"
        } else if code == 101 {
            "No parameter of API, method, or version"
        } else if code == 102 {
            "API does not exist"
        } else if code == 103 {
            "Method does not exist"
        } else if code == 104 {
            "Version not supported"
        } else if code == 105 {
            "No permission"
        } else if code == 107 {
            "Session interrupted by duplicate login"
        } else if code == 401 {
            "Account disabled"
        } else if code == 402 {
            "Permission denied"
        } else if code == 404 {
            "Failed to authenticate 2-factor code"
        } else if code == 412 {
            "Playlist not found or corrupted (try recreating it via Audio Station UI)"
        } else {
            "Unknown API error"
        };
        SynoError::Api { code, message: message.to_string() }
    }

    pub fn is_session_expired(&self) -> (b: bool)
        ensures
            b == (*self is SessionExpired),
    {
        matches!(self, SynoError::SessionExpired)
    }
}

} // verus!
