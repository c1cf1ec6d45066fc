use dirpost::dispatch::{handle_event, Action, Consumer, Input, UploadTask};
use dirpost::event::{classify, AccessKind, AccessMode, EventKind, PipelineError, RawEvent};
use dirpost::resolve::resolve_path;
use dirpost::routing::DestinationMap;

fn invoices_map() -> DestinationMap {
    let mut m = DestinationMap::new();
    m.insert("invoices".to_string(), "C1".to_string());
    m
}

fn close_write(path: &str) -> RawEvent {
    RawEvent {
        kind: EventKind::Access(AccessKind::Close(AccessMode::Write)),
        paths: vec![Some(path.to_string())],
    }
}

fn consumer() -> Consumer {
    Consumer::new("/data".to_string(), invoices_map())
}

#[test]
fn written_file_in_mapped_dir_gives_one_task() {
    let ev = Ok(close_write("/data/invoices/report.pdf"));
    let r = handle_event(&ev, &"/data".to_string(), &invoices_map());
    assert_eq!(
        r,
        Ok(Some(UploadTask {
            destination: "C1".to_string(),
            filename: "report.pdf".to_string(),
            source_path: "/data/invoices/report.pdf".to_string(),
        }))
    );
}

#[test]
fn written_file_in_unmapped_dir_is_reported() {
    let c = consumer();
    let a = c.step(&Input::Event(Ok(close_write("/data/misc/note.txt"))));
    assert_eq!(a, Action::Drop(PipelineError::Unmapped("misc".to_string())));
}

#[test]
fn read_only_access_reaches_nothing() {
    let c = consumer();
    for kind in [
        EventKind::Access(AccessKind::Open(AccessMode::Read)),
        EventKind::Access(AccessKind::Close(AccessMode::Read)),
        EventKind::Access(AccessKind::Read),
    ] {
        let ev = RawEvent { kind, paths: vec![Some("/data/invoices/report.pdf".to_string())] };
        assert_eq!(c.step(&Input::Event(Ok(ev))), Action::Idle);
    }
}

#[test]
fn other_kinds_yield_no_candidate() {
    for kind in [
        EventKind::Any,
        EventKind::Create,
        EventKind::Modify,
        EventKind::Remove,
        EventKind::Other,
        EventKind::Access(AccessKind::Any),
        EventKind::Access(AccessKind::Other),
        EventKind::Access(AccessKind::Open(AccessMode::Write)),
        EventKind::Access(AccessKind::Close(AccessMode::Execute)),
        EventKind::Access(AccessKind::Close(AccessMode::Any)),
        EventKind::Access(AccessKind::Close(AccessMode::Other)),
    ] {
        let ev = RawEvent { kind, paths: vec![Some("/data/invoices/a.txt".to_string())] };
        assert_eq!(classify(&ev), Ok(None));
    }
}

#[test]
fn close_write_candidate_is_first_path() {
    let mut ev = close_write("/data/invoices/a.txt");
    ev.paths.push(Some("/data/other/b.txt".to_string()));
    assert_eq!(classify(&ev), Ok(Some("/data/invoices/a.txt".to_string())));
}

#[test]
fn close_write_without_paths_is_an_error() {
    let ev = RawEvent { kind: EventKind::Access(AccessKind::Close(AccessMode::Write)), paths: vec![] };
    assert_eq!(classify(&ev), Err(PipelineError::NoPath));
    let c = consumer();
    assert_eq!(c.step(&Input::Event(Ok(ev))), Action::Drop(PipelineError::NoPath));
}

#[test]
fn non_text_path_is_an_error() {
    let ev = RawEvent { kind: EventKind::Access(AccessKind::Close(AccessMode::Write)), paths: vec![None] };
    assert_eq!(classify(&ev), Err(PipelineError::NotText));
}

#[test]
fn watch_error_is_reported() {
    let c = consumer();
    let a = c.step(&Input::Event(Err("watch failed".to_string())));
    assert_eq!(a, Action::Drop(PipelineError::Watch("watch failed".to_string())));
}

#[test]
fn resolve_parent_and_filename() {
    assert_eq!(
        resolve_path("/data/invoices/report.pdf", "/data"),
        Ok(("invoices".to_string(), "report.pdf".to_string()))
    );
    assert_eq!(
        resolve_path("/data/a/b/c.txt", "/data"),
        Ok(("a/b".to_string(), "c.txt".to_string()))
    );
}

#[test]
fn resolve_root_itself_has_no_parent() {
    assert_eq!(resolve_path("/data", "/data"), Err(PipelineError::NoParent));
}

#[test]
fn resolve_file_directly_in_root_has_no_parent() {
    assert_eq!(resolve_path("/data/top.txt", "/data"), Err(PipelineError::NoParent));
}

#[test]
fn resolve_relative_path_against_absolute_root_fails() {
    assert_eq!(resolve_path("invoices/a.txt", "/data"), Err(PipelineError::NotRelative));
}

#[test]
fn resolve_path_ending_in_parent_dir_has_no_filename() {
    assert_eq!(resolve_path("/data/a/..", "/data"), Err(PipelineError::NoFilename));
}

#[test]
fn resolve_path_outside_root() {
    assert_eq!(
        resolve_path("/other/x/y.txt", "/data"),
        Ok(("../other/x".to_string(), "y.txt".to_string()))
    );
}

#[test]
fn nested_dir_is_unmapped_unless_covered() {
    let c = consumer();
    let a = c.step(&Input::Event(Ok(close_write("/data/invoices/2024/a.pdf"))));
    assert_eq!(a, Action::Drop(PipelineError::Unmapped("invoices/2024".to_string())));
    let mut m = invoices_map();
    m.insert("invoices/2024".to_string(), "C2".to_string());
    let c = Consumer::new("/data".to_string(), m);
    let a = c.step(&Input::Event(Ok(close_write("/data/invoices/2024/a.pdf"))));
    assert_eq!(
        a,
        Action::Spawn(UploadTask {
            destination: "C2".to_string(),
            filename: "a.pdf".to_string(),
            source_path: "/data/invoices/2024/a.pdf".to_string(),
        })
    );
}

#[test]
fn failed_delivery_does_not_stop_next_event() {
    let c = consumer();
    let task = UploadTask {
        destination: "C1".to_string(),
        filename: "a.pdf".to_string(),
        source_path: "/data/invoices/a.pdf".to_string(),
    };
    let a = c.step(&Input::Finished(task.clone(), Err("network down".to_string())));
    assert_eq!(a, Action::DeliveryFailed(task, "network down".to_string()));
    let a = c.step(&Input::Event(Ok(close_write("/data/invoices/b.pdf"))));
    assert!(matches!(a, Action::Spawn(t) if t.filename == "b.pdf"));
}

#[test]
fn successful_delivery_is_idle() {
    let c = consumer();
    let task = UploadTask {
        destination: "C1".to_string(),
        filename: "a.pdf".to_string(),
        source_path: "/data/invoices/a.pdf".to_string(),
    };
    assert_eq!(c.step(&Input::Finished(task, Ok(()))), Action::Idle);
}

#[test]
fn one_event_spawns_once() {
    let c = consumer();
    let inputs = vec![
        Input::Event(Ok(close_write("/data/invoices/a.pdf"))),
        Input::Event(Ok(close_write("/data/misc/b.pdf"))),
        Input::Event(Ok(RawEvent { kind: EventKind::Modify, paths: vec![Some("/data/invoices/c.pdf".to_string())] })),
    ];
    let spawned = inputs.iter().filter(|i| matches!(c.step(i), Action::Spawn(_))).count();
    assert_eq!(spawned, 1);
}

#[test]
fn map_insert_and_get() {
    let mut m = DestinationMap::new();
    assert_eq!(m.get(&"a".to_string()), None);
    m.insert("a".to_string(), "X".to_string());
    m.insert("b".to_string(), "Y".to_string());
    m.insert("a".to_string(), "Z".to_string());
    assert_eq!(m.get(&"a".to_string()), Some("Z".to_string()));
    assert_eq!(m.get(&"b".to_string()), Some("Y".to_string()));
    assert_eq!(m.get(&"A".to_string()), None);
}

#[test]
fn map_from_json() {
    let m = DestinationMap::from_json(r#"{"invoices": "C1", "scans": "C2"}"#).unwrap();
    assert_eq!(m.get(&"invoices".to_string()), Some("C1".to_string()));
    assert_eq!(m.get(&"scans".to_string()), Some("C2".to_string()));
    assert_eq!(m.get(&"misc".to_string()), None);
    let m = DestinationMap::from_json("{}").unwrap();
    assert_eq!(m.get(&"invoices".to_string()), None);
}

#[test]
fn map_from_bad_json() {
    assert!(DestinationMap::from_json("not json").is_none());
    assert!(DestinationMap::from_json(r#"{"a": 1}"#).is_none());
    assert!(DestinationMap::from_json(r#"["a"]"#).is_none());
}

#[test]
fn map_from_pairs_later_wins() {
    let m = DestinationMap::from_pairs(vec![
        ("a".to_string(), "1".to_string()),
        ("a".to_string(), "2".to_string()),
    ]);
    assert_eq!(m.get(&"a".to_string()), Some("2".to_string()));
}
