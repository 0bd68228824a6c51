//! The error type of the application's commands.
use vstd::prelude::*;

verus! {

/// An error reported to the user interface, with a detail message.
#[derive(Debug, Clone)]
pub enum AppError {
    ConfigContents(String),
    ConfigExistance(String),
    ConfigDirectoryExistance(String),
    UploaderAuthRequired(String),
    VrchatAuthRequired(String),
    VrchatPlusRequired(String),
    Unknown(String),
}

impl AppError {
    /// An `Unknown` error whose message is `msg`, a colon, a space, and the
    /// text of the error that caused it.
    pub fn from_error_with_message(msg: &str, err: &str) -> (e: AppError)
        ensures
            e matches AppError::Unknown(m) && m@ == msg@ + ": "@ + err@,
    {
        let mut m = String::from_str(msg);
        m.append(": ");
        m.append(err);
        AppError::Unknown(m)
    }

    /// The detail message.
    pub fn message(&self) -> (m: &str)
        ensures
            m@ == match self {
                AppError::ConfigContents(s) => s@,
                AppError::ConfigExistance(s) => s@,
                AppError::ConfigDirectoryExistance(s) => s@,
                AppError::UploaderAuthRequired(s) => s@,
                AppError::VrchatAuthRequired(s) => s@,
                AppError::VrchatPlusRequired(s) => s@,
                AppError::Unknown(s) => s@,
            },
    {
        match self {
            AppError::ConfigContents(s) => s.as_str(),
            AppError::ConfigExistance(s) => s.as_str(),
            AppError::ConfigDirectoryExistance(s) => s.as_str(),
            AppError::UploaderAuthRequired(s) => s.as_str(),
            AppError::VrchatAuthRequired(s) => s.as_str(),
            AppError::VrchatPlusRequired(s) => s.as_str(),
            AppError::Unknown(s) => s.as_str(),
        }
    }
}

} // verus!
