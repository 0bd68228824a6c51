//! The values exchanged with the upload server.
use vstd::prelude::*;

use crate::error::AppError;

verus! {

/// The upload server's terms of service.
#[derive(Debug, Clone)]
pub struct Tos {
    pub version: i32,
    pub content: String,
}

/// The token handed out on anonymous registration.
pub struct AnonymousRegisterResponse {
    pub token: String,
}

/// The error for an upload answered with HTTP status `status`, or none when
/// the status is a success (200 to 299). `detail` describes any other
/// failure.
pub fn upload_status_error(status: u16, detail: String) -> (r: Option<AppError>)
    ensures
        r is None <==> 200 <= status < 300,
        status == 403 ==> r is Some && r->Some_0 is UploaderAuthRequired,
        (status < 200 || 300 <= status) && status != 403 ==> (r matches Some(AppError::Unknown(m))
            && m@ == detail@),
{
    if 200 <= status && status < 300 {
        None
    } else if status == 403 {
        Some(AppError::UploaderAuthRequired(String::from_str("Authentication required for uploader")))
    } else {
        Some(AppError::Unknown(detail))
    }
}

} // verus!
