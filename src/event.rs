//! Raw filesystem events, as the watch facility reports them, and the
//! classifier that picks out "written and closed" completions.
use vstd::prelude::*;

verus! {

/// How a file was accessed.
#[derive(Debug, Clone, Copy, PartialEq, Eq, Structural)]
pub enum AccessMode {
    Any,
    Execute,
    Read,
    Write,
    Other,
}

/// What kind of access happened to a file.
#[derive(Debug, Clone, Copy, PartialEq, Eq, Structural)]
pub enum AccessKind {
    Any,
    Read,
    Open(AccessMode),
    Close(AccessMode),
    Other,
}

/// The kind of a raw filesystem event.
#[derive(Debug, Clone, Copy, PartialEq, Eq, Structural)]
pub enum EventKind {
    Any,
    Access(AccessKind),
    Create,
    Modify,
    Remove,
    Other,
}

/// One event of the watch facility: its kind and the paths it concerns.
/// A path is `None` where the operating system's path is not valid text.
#[derive(Debug, Clone)]
pub struct RawEvent {
    pub kind: EventKind,
    pub paths: Vec<Option<String>>,
}

/// Why a single event could not be turned into a delivery.
#[derive(Debug, Clone, PartialEq, Eq)]
pub enum PipelineError {
    /// The watch facility itself reported an error for this event.
    Watch(String),
    /// A close-after-write event arrived without any path.
    NoPath,
    /// The changed path is not representable as text.
    NotText,
    /// The changed path cannot be expressed relative to the watched root.
    NotRelative,
    /// The changed path has no owning subdirectory below the root.
    NoParent,
    /// The changed path does not end in a file name.
    NoFilename,
    /// No destination is configured for the parent directory.
    Unmapped(String),
}

/// The one kind of event that signals a completed write.
pub open spec fn is_close_write(kind: EventKind) -> bool {
    kind == EventKind::Access(AccessKind::Close(AccessMode::Write))
}

/// True exactly for the close-after-write kind.
pub fn completes_write(kind: EventKind) -> (r: bool)
    ensures
        r == is_close_write(kind),
{
    match kind {
        EventKind::Access(AccessKind::Close(AccessMode::Write)) => true,
        _ => false,
    }
}

/// What the classifier makes of an event: `Ok(None)` for events that do not
/// signal a completed write, the first path as text otherwise.
pub open spec fn candidate_of(e: RawEvent) -> Result<Option<Seq<char>>, PipelineError> {
    if !is_close_write(e.kind) {
        Ok(None)
    } else if e.paths@.len() == 0 {
        Err(PipelineError::NoPath)
    } else {
        match e.paths@[0] {
            None => Err(PipelineError::NotText),
            Some(p) => Ok(Some(p@)),
        }
    }
}

pub open spec fn candidate_view(r: Result<Option<String>, PipelineError>) -> Result<
    Option<Seq<char>>,
    PipelineError,
> {
    match r {
        Ok(None) => Ok(None),
        Ok(Some(p)) => Ok(Some(p@)),
        Err(e) => Err(e),
    }
}

/// Picks the candidate path out of an event. Only a close-after-write event
/// yields one; such an event without paths is an error, not a silent drop.
pub fn classify(event: &RawEvent) -> (r: Result<Option<String>, PipelineError>)
    ensures
        candidate_view(r) == candidate_of(*event),
        !is_close_write(event.kind) ==> r matches Ok(None),
{
    if !completes_write(event.kind) {
        return Ok(None);
    }
    if event.paths.len() == 0 {
        return Err(PipelineError::NoPath);
    }
    match &event.paths[0] {
        None => Err(PipelineError::NotText),
        Some(p) => Ok(Some(p.clone())),
    }
}

} // verus!
