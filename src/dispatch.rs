//! The dispatcher: turns each raw event into at most one independent
//! delivery, and the consumer step that the watch loop runs for each input.
use vstd::prelude::*;
use crate::event::{PipelineError, RawEvent, classify, candidate_of, is_close_write};
use crate::resolve::{resolve_path, resolution};
use crate::routing::DestinationMap;

verus! {

/// One file to hand to a delivery client.
#[derive(Debug, Clone, PartialEq, Eq)]
pub struct UploadTask {
    pub destination: String,
    pub filename: String,
    pub source_path: String,
}

/// What the pipeline makes of one event, stated over plain values.
pub enum Verdict {
    /// Not a completed write: nothing happens.
    Ignored,
    /// The watch facility reported this error.
    Watch(Seq<char>),
    /// The event was dropped for this reason.
    Failed(PipelineError),
    /// The file's parent directory has no destination.
    Unmapped(Seq<char>),
    /// One delivery: destination, file name, source path.
    Deliver(Seq<char>, Seq<char>, Seq<char>),
}

/// The verdict on an event, given the watched root and the destination map.
pub open spec fn verdict(
    event: Result<RawEvent, String>,
    root: Seq<char>,
    map: Map<Seq<char>, Seq<char>>,
) -> Verdict {
    match event {
        Err(m) => Verdict::Watch(m@),
        Ok(e) => match candidate_of(e) {
            Err(err) => Verdict::Failed(err),
            Ok(None) => Verdict::Ignored,
            Ok(Some(p)) => match resolution(p, root) {
                Err(err) => Verdict::Failed(err),
                Ok((dir, file)) => if map.contains_key(dir) {
                    Verdict::Deliver(map[dir], file, p)
                } else {
                    Verdict::Unmapped(dir)
                },
            },
        },
    }
}

pub open spec fn error_verdict(err: PipelineError) -> Verdict {
    match err {
        PipelineError::Watch(m) => Verdict::Watch(m@),
        PipelineError::Unmapped(d) => Verdict::Unmapped(d@),
        _ => Verdict::Failed(err),
    }
}

pub open spec fn task_verdict(t: UploadTask) -> Verdict {
    Verdict::Deliver(t.destination@, t.filename@, t.source_path@)
}

pub open spec fn outcome_view(r: Result<Option<UploadTask>, PipelineError>) -> Verdict {
    match r {
        Ok(None) => Verdict::Ignored,
        Ok(Some(t)) => task_verdict(t),
        Err(err) => error_verdict(err),
    }
}

/// Classifies, resolves and routes one event. On success the result holds
/// the single delivery that the event calls for, or `None` where the event
/// is not a completed write.
pub fn handle_event(event: &Result<RawEvent, String>, root: &String, map: &DestinationMap) -> (r:
    Result<Option<UploadTask>, PipelineError>)
    ensures
        outcome_view(r) == verdict(*event, root@, map@),
{
    let e = match event {
        Err(m) => return Err(PipelineError::Watch(m.clone())),
        Ok(e) => e,
    };
    let full_path = match classify(e) {
        Err(err) => return Err(err),
        Ok(None) => return Ok(None),
        Ok(Some(p)) => p,
    };
    let (dir, filename) = match resolve_path(full_path.as_str(), root.as_str()) {
        Err(err) => return Err(err),
        Ok(pair) => pair,
    };
    match map.get(&dir) {
        None => Err(PipelineError::Unmapped(dir)),
        Some(destination) => Ok(Some(UploadTask { destination, filename, source_path: full_path })),
    }
}

/// An input of the consumer loop: the next filesystem event, or the outcome
/// of a delivery that an earlier step spawned.
#[derive(Debug)]
pub enum Input {
    Event(Result<RawEvent, String>),
    Finished(UploadTask, Result<(), String>),
}

/// What the consumer loop does next.
#[derive(Debug, Clone, PartialEq, Eq)]
pub enum Action {
    /// Nothing to do; wait for the next input.
    Idle,
    /// Start one independent delivery of the task, and go on at once.
    Spawn(UploadTask),
    /// Report why this event was dropped, and go on.
    Drop(PipelineError),
    /// Report that the delivery of the task failed, and go on.
    DeliveryFailed(UploadTask, String),
}

pub open spec fn event_action_view(a: Action) -> Verdict {
    match a {
        Action::Spawn(t) => task_verdict(t),
        Action::Drop(err) => error_verdict(err),
        _ => Verdict::Ignored,
    }
}

/// The deliveries that one verdict starts: one for `Deliver`, none otherwise.
pub open spec fn deliveries_of(v: Verdict) -> Seq<(Seq<char>, Seq<char>, Seq<char>)> {
    match v {
        Verdict::Deliver(d, f, p) => seq![(d, f, p)],
        _ => seq![],
    }
}

/// The deliveries that one input starts.
pub open spec fn input_deliveries(
    input: Input,
    root: Seq<char>,
    map: Map<Seq<char>, Seq<char>>,
) -> Seq<(Seq<char>, Seq<char>, Seq<char>)> {
    match input {
        Input::Event(ev) => deliveries_of(verdict(ev, root, map)),
        Input::Finished(_, _) => seq![],
    }
}

/// The deliveries that a run of the consumer over `inputs` starts, in order.
pub open spec fn spawned(
    inputs: Seq<Input>,
    root: Seq<char>,
    map: Map<Seq<char>, Seq<char>>,
) -> Seq<(Seq<char>, Seq<char>, Seq<char>)>
    decreases inputs.len(),
{
    if inputs.len() == 0 {
        seq![]
    } else {
        spawned(inputs.drop_last(), root, map) + input_deliveries(inputs.last(), root, map)
    }
}

pub open spec fn action_deliveries(a: Action) -> Seq<(Seq<char>, Seq<char>, Seq<char>)> {
    match a {
        Action::Spawn(t) => seq![(t.destination@, t.filename@, t.source_path@)],
        _ => seq![],
    }
}

/// The single, strictly sequential consumer of the watch facility's events.
/// Its configuration is fixed at construction and shared read-only.
#[derive(Debug, Clone)]
pub struct Consumer {
    pub root: String,
    pub map: DestinationMap,
}

impl Consumer {
    /// A consumer for the files under `root`, routed by `map`.
    pub fn new(root: String, map: DestinationMap) -> (r: Self)
        ensures
            r.root == root,
            r.map == map,
    {
        Consumer { root, map }
    }

    /// Decides what to do with one input. An event gives at most one spawned
    /// delivery; the outcome of a delivery is only reported, and changes
    /// nothing for the inputs that follow.
    pub fn step(&self, input: &Input) -> (a: Action)
        ensures
            action_deliveries(a) == input_deliveries(*input, self.root@, self.map@),
            input matches Input::Event(ev) ==> event_action_view(a) == verdict(
                *ev,
                self.root@,
                self.map@,
            ),
            input matches Input::Finished(_, Ok(_)) ==> a is Idle,
            input matches Input::Finished(t, Err(m)) ==> a == Action::DeliveryFailed(*t, *m),
    {
        match input {
            Input::Event(ev) => match handle_event(ev, &self.root, &self.map) {
                Ok(None) => Action::Idle,
                Ok(Some(t)) => Action::Spawn(t),
                Err(err) => Action::Drop(err),
            },
            Input::Finished(_, Ok(())) => Action::Idle,
            Input::Finished(t, Err(m)) => {
                let task = UploadTask {
                    destination: t.destination.clone(),
                    filename: t.filename.clone(),
                    source_path: t.source_path.clone(),
                };
                Action::DeliveryFailed(task, m.clone())
            },
        }
    }
}

/// Only a close-after-write event leads anywhere: every other kind of event
/// is ignored, whatever its paths, the root or the map.
pub proof fn lemma_only_close_write_proceeds(
    e: RawEvent,
    root: Seq<char>,
    map: Map<Seq<char>, Seq<char>>,
)
    requires
        !is_close_write(e.kind),
    ensures
        verdict(Ok(e), root, map) == Verdict::Ignored,
        deliveries_of(verdict(Ok(e), root, map)).len() == 0,
{
}

/// A close-after-write event without any path is reported as an error and
/// starts no delivery.
pub proof fn lemma_pathless_event_reported(
    e: RawEvent,
    root: Seq<char>,
    map: Map<Seq<char>, Seq<char>>,
)
    requires
        is_close_write(e.kind),
        e.paths@.len() == 0,
    ensures
        verdict(Ok(e), root, map) == Verdict::Failed(PipelineError::NoPath),
        deliveries_of(verdict(Ok(e), root, map)).len() == 0,
{
}

/// A file whose parent directory is not in the map starts no delivery: the
/// event is reported as unmapped and dropped.
pub proof fn lemma_unmapped_dropped(
    e: RawEvent,
    root: Seq<char>,
    map: Map<Seq<char>, Seq<char>>,
    path: Seq<char>,
    dir: Seq<char>,
    file: Seq<char>,
)
    requires
        candidate_of(e) == Ok::<Option<Seq<char>>, PipelineError>(Some(path)),
        resolution(path, root) == Ok::<(Seq<char>, Seq<char>), PipelineError>((dir, file)),
        !map.contains_key(dir),
    ensures
        verdict(Ok(e), root, map) == Verdict::Unmapped(dir),
        deliveries_of(verdict(Ok(e), root, map)).len() == 0,
{
}

/// One event starts exactly one delivery where it is a completed write of a
/// mapped file, and none otherwise; a delivery is never started twice.
pub proof fn lemma_one_event_one_delivery(
    before: Seq<Input>,
    ev: Result<RawEvent, String>,
    root: Seq<char>,
    map: Map<Seq<char>, Seq<char>>,
)
    ensures
        spawned(before.push(Input::Event(ev)), root, map) == spawned(before, root, map)
            + deliveries_of(verdict(ev, root, map)),
        verdict(ev, root, map) is Deliver ==> spawned(before.push(Input::Event(ev)), root, map).len()
            == spawned(before, root, map).len() + 1,
        !(verdict(ev, root, map) is Deliver) ==> spawned(before.push(Input::Event(ev)), root, map)
            == spawned(before, root, map),
{
    let s = before.push(Input::Event(ev));
    assert(s.drop_last() =~= before);
    assert(spawned(before, root, map) + seq![] =~= spawned(before, root, map));
}

/// A failed delivery does not change what the consumer does with the inputs
/// that follow: removing it leaves the deliveries started unchanged.
pub proof fn lemma_failed_delivery_isolated(
    before: Seq<Input>,
    task: UploadTask,
    err: String,
    after: Seq<Input>,
    root: Seq<char>,
    map: Map<Seq<char>, Seq<char>>,
)
    ensures
        spawned(before + seq![Input::Finished(task, Err(err))] + after, root, map) == spawned(
            before + after,
            root,
            map,
        ),
    decreases after.len(),
{
    let f = Input::Finished(task, Err(err));
    let s1 = before + seq![f] + after;
    let s2 = before + after;
    if after.len() == 0 {
        assert(s1.drop_last() =~= before);
        assert(s2 =~= before);
        assert(spawned(before, root, map) + seq![] =~= spawned(before, root, map));
    } else {
        lemma_failed_delivery_isolated(before, task, err, after.drop_last(), root, map);
        assert(s1.drop_last() =~= before + seq![f] + after.drop_last());
        assert(s2.drop_last() =~= before + after.drop_last());
        assert(s1.last() == after.last());
        assert(s2.last() == after.last());
    }
}

} // verus!
