//! The pieces of the chat-platform delivery clients that decide rather than
//! send: request values, URLs and headers, and the steps of the two-phase
//! file upload, driven by whoever performs the HTTP requests.
use vstd::prelude::*;

verus! {

/// The root of the chat platform's web API.
pub const BASE_URL: &'static str = "https://slack.com/api";

/// The name that webhook deliveries are posted under.
pub const WEBHOOK_USERNAME: &'static str = "scans";

/// A text message for a channel.
#[derive(Debug)]
pub struct PostMessageRequest<'a> {
    pub channel: &'a str,
    pub text: &'a str,
}

/// A file to upload to a channel: its name there and its path here.
#[derive(Debug)]
pub struct UploadFileRequest<'a> {
    pub channel: &'a str,
    pub filename: &'a str,
    pub path: &'a str,
}

/// The address of an API method, such as `/chat.postMessage`.
pub fn api_url(method: &str) -> (r: String)
    ensures
        r@ == BASE_URL@ + method@,
{
    let mut s = String::from_str(BASE_URL);
    s.append(method);
    s
}

/// The value of the `Authorization` header for a bearer token.
pub fn bearer(token: &str) -> (r: String)
    ensures
        r@ == "Bearer "@ + token@,
{
    let mut s = String::from_str("Bearer ");
    s.append(token);
    s
}

/// The note that accompanies a delivered file, naming where it came from.
pub fn origin_note(filename: &str, group: &str) -> (r: String)
    ensures
        r@ == "Received '"@ + filename@ + "' from folder '"@ + group@ + "'"@,
{
    let mut s = String::from_str("Received '");
    s.append(filename);
    s.append("' from folder '");
    s.append(group);
    s.append("'");
    s
}

/// The outcome of an API reply, given the `error` field it carried, if any.
pub fn reply_outcome(error: Option<String>) -> (r: Result<(), String>)
    ensures
        error is None ==> r is Ok,
        error matches Some(e) ==> r matches Err(m) && m@ == "slack api error: "@ + e@,
{
    match error {
        None => Ok(()),
        Some(e) => {
            let mut m = String::from_str("slack api error: ");
            m.append(e.as_str());
            Err(m)
        },
    }
}

/// Where a two-phase upload stands.
#[derive(Debug, PartialEq, Eq)]
pub enum UploadState {
    /// Waiting for the file's length.
    Sizing,
    /// Waiting for an upload address.
    AwaitingUrl,
    /// Waiting for the bytes to be posted; holds the remote file's id.
    Uploading(String),
    /// Waiting for the completion to be acknowledged.
    Completing,
    Done,
    Failed,
}

/// What came of the last action.
#[derive(Debug)]
pub enum UploadEvent {
    /// The file is this many bytes long.
    Sized(u64),
    /// The platform gave an address to post the bytes to, and the file's id.
    UrlGiven(String, String),
    /// The bytes were posted.
    Posted,
    /// The platform acknowledged the completed upload.
    Confirmed,
    /// The last action failed with this message.
    Error(String),
}

/// The next request to make.
#[derive(Debug, PartialEq, Eq)]
pub enum UploadAction {
    /// Ask for an upload address for a file of this name and length.
    RequestUrl(String, u64),
    /// Post the file's bytes to this address.
    PostFile(String),
    /// Share the uploaded file with its id in this channel.
    Complete(String, String),
    /// The upload is over, with this outcome.
    Finish(Result<(), String>),
    /// The upload was already over; nothing to do.
    Stay,
}

/// One two-phase upload: ask for an address, post the bytes there, then
/// share the uploaded file in the channel. Any failure ends it; nothing is
/// retried.
#[derive(Debug)]
pub struct UploadSession {
    pub channel: String,
    pub filename: String,
    pub state: UploadState,
}

pub open spec fn is_over(s: UploadState) -> bool {
    s is Done || s is Failed
}

impl UploadSession {
    /// A new upload, waiting for its file's length.
    pub fn new(request: &UploadFileRequest) -> (r: Self)
        ensures
            r.channel@ == request.channel@,
            r.filename@ == request.filename@,
            r.state is Sizing,
    {
        UploadSession {
            channel: String::from_str(request.channel),
            filename: String::from_str(request.filename),
            state: UploadState::Sizing,
        }
    }

    /// Takes in the outcome of the last action and says what to do next.
    pub fn advance(&mut self, event: UploadEvent) -> (a: UploadAction)
        ensures
            final(self).channel == old(self).channel,
            final(self).filename == old(self).filename,
            is_over(old(self).state) ==> a is Stay && final(self).state == old(self).state,
            !is_over(old(self).state) ==> match (old(self).state, event) {
                (_, UploadEvent::Error(m)) => final(self).state is Failed && a == UploadAction::Finish(
                    Err(m),
                ),
                (UploadState::Sizing, UploadEvent::Sized(n)) => final(self).state is AwaitingUrl
                    && (a matches UploadAction::RequestUrl(f, len) && f@ == old(self).filename@ && len
                    == n),
                (UploadState::AwaitingUrl, UploadEvent::UrlGiven(url, id)) => final(self).state
                    == UploadState::Uploading(id) && a == UploadAction::PostFile(url),
                (UploadState::Uploading(id), UploadEvent::Posted) => final(self).state is Completing
                    && (a matches UploadAction::Complete(c, i) && c@ == old(self).channel@ && i == id),
                (UploadState::Completing, UploadEvent::Confirmed) => final(self).state is Done && a
                    == UploadAction::Finish(Ok(())),
                _ => final(self).state is Failed && (a matches UploadAction::Finish(Err(_))),
            },
    {
        if matches!(self.state, UploadState::Done) || matches!(self.state, UploadState::Failed) {
            return UploadAction::Stay;
        }
        let (next, action) = match (&self.state, event) {
            (_, UploadEvent::Error(m)) => (UploadState::Failed, UploadAction::Finish(Err(m))),
            (UploadState::Sizing, UploadEvent::Sized(n)) => (
                UploadState::AwaitingUrl,
                UploadAction::RequestUrl(self.filename.clone(), n),
            ),
            (UploadState::AwaitingUrl, UploadEvent::UrlGiven(url, id)) => (
                UploadState::Uploading(id),
                UploadAction::PostFile(url),
            ),
            (UploadState::Uploading(id), UploadEvent::Posted) => (
                UploadState::Completing,
                UploadAction::Complete(self.channel.clone(), id.clone()),
            ),
            (UploadState::Completing, UploadEvent::Confirmed) => (
                UploadState::Done,
                UploadAction::Finish(Ok(())),
            ),
            _ => (
                UploadState::Failed,
                UploadAction::Finish(Err(String::from_str("unexpected reply during upload"))),
            ),
        };
        self.state = next;
        action
    }
}

} // verus!
