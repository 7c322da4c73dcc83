//! The hand-over to the transfer step: what is uploaded where, and what is
//! announced afterwards.

use crate::config::RunConfig;
use crate::notify::{build_payload, payload_of, utf8_lossy, Payload};
use crate::select::Selection;
use vstd::prelude::*;

verus! {

/// What one cycle hands to the transfer step. It lives for that cycle only.
#[derive(Debug, PartialEq, Eq)]
pub struct UploadEvent {
    /// The local file that was chosen.
    pub local_path: String,
    /// The remote path that is written, whatever the local file is called.
    pub remote_path: String,
    /// The whole content of the local file.
    pub content: Vec<u8>,
}

impl UploadEvent {
    /// The upload of the chosen file with the content `content`: it goes to
    /// the configured remote path, which does not depend on the file.
    pub fn new(config: &RunConfig, selection: &Selection, content: Vec<u8>) -> (event: UploadEvent)
        ensures
            event.local_path@ == selection.path@,
            event.remote_path@ == config.remote_path@,
            event.content@ == content@,
    {
        UploadEvent {
            local_path: selection.path.clone(),
            remote_path: config.remote_path.clone(),
            content,
        }
    }
}

/// Decides what to announce once `event` has been uploaded: nothing where no
/// endpoint is configured, otherwise the payload for the uploaded file, under
/// its local path.
pub fn notification_for(webhook_url: &str, event: &UploadEvent) -> (r: Option<Payload>)
    ensures
        webhook_url@.len() == 0 <==> r is None,
        r matches Some(payload) ==> payload@ == payload_of(
            event.local_path@,
            utf8_lossy(event.content@),
        ),
{
    if webhook_url.is_empty() {
        None
    } else {
        Some(build_payload(event.local_path.as_str(), event.content.as_slice()))
    }
}

/// An endpoint has taken a notification when it answers with a status from
/// 200 to 299.
pub open spec fn delivered(status: u16) -> bool {
    200 <= status <= 299
}

/// Tells whether the answer of the endpoint means that the notification was
/// taken. Any other answer is a failure of the notification, which is
/// reported and changes nothing else.
pub fn is_delivered(status: u16) -> (r: bool)
    ensures
        r == delivered(status),
{
    200 <= status && status <= 299
}

} // verus!
