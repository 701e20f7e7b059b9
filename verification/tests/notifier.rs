use shadertoy_rs::notifier::{ChangeKind, ChangeNotifier, Changes, WatchEvent, WatchTarget};

const KINDS: [ChangeKind; 8] = [
    ChangeKind::Access,
    ChangeKind::Create,
    ChangeKind::ModifyData,
    ChangeKind::ModifyMetadata,
    ChangeKind::ModifyOther,
    ChangeKind::Remove,
    ChangeKind::Other,
    ChangeKind::Fault,
];

fn event(target: WatchTarget, kind: ChangeKind) -> WatchEvent {
    WatchEvent { target, kind }
}

fn watching(path: &str) -> (ChangeNotifier, u64) {
    let mut notifier = ChangeNotifier::new();
    let channel = notifier.replace_external(String::from(path));
    (notifier, channel)
}

#[test]
fn new_notifier_watches_no_file() {
    let notifier = ChangeNotifier::new();
    assert!(notifier.external().is_none());
    assert!(!notifier.is_monitoring());
    assert_eq!(notifier.polled_channel(), None);
}

#[test]
fn empty_batch_comes_to_nothing() {
    let (notifier, _) = watching("/tmp/a.glsl");
    assert_eq!(notifier.coalesce(&vec![]), Changes { stages: false, external: false });
}

#[test]
fn only_modified_data_of_a_stage_file_counts() {
    let notifier = ChangeNotifier::new();
    for target in [WatchTarget::VertexStage, WatchTarget::FragmentStage] {
        for kind in KINDS {
            let changes = notifier.coalesce(&vec![event(target, kind)]);
            assert_eq!(changes.stages, kind == ChangeKind::ModifyData);
            assert!(!changes.external);
        }
    }
}

#[test]
fn created_and_modified_content_of_the_users_file_counts() {
    let (notifier, channel) = watching("/tmp/a.glsl");
    for kind in KINDS {
        let changes = notifier.coalesce(&vec![event(WatchTarget::External(channel), kind)]);
        let expected = matches!(
            kind,
            ChangeKind::Create | ChangeKind::ModifyData | ChangeKind::ModifyOther
        );
        assert_eq!(changes.external, expected);
        assert!(!changes.stages);
    }
}

#[test]
fn many_changes_come_to_one() {
    let (notifier, channel) = watching("/tmp/a.glsl");
    let one = vec![event(WatchTarget::FragmentStage, ChangeKind::ModifyData)];
    let mut many = Vec::new();
    for _ in 0..50 {
        many.push(event(WatchTarget::FragmentStage, ChangeKind::Access));
        many.push(event(WatchTarget::FragmentStage, ChangeKind::ModifyData));
        many.push(event(WatchTarget::VertexStage, ChangeKind::ModifyMetadata));
    }
    assert_eq!(notifier.coalesce(&many), notifier.coalesce(&one));
    assert_eq!(notifier.coalesce(&many), Changes { stages: true, external: false });

    let one = vec![event(WatchTarget::External(channel), ChangeKind::ModifyData)];
    let many = vec![event(WatchTarget::External(channel), ChangeKind::ModifyData); 17];
    assert_eq!(notifier.coalesce(&many), notifier.coalesce(&one));
    assert_eq!(notifier.coalesce(&many), Changes { stages: false, external: true });
}

#[test]
fn a_change_late_in_the_batch_is_found() {
    let (notifier, channel) = watching("/tmp/a.glsl");
    let mut batch = vec![event(WatchTarget::External(channel), ChangeKind::Access); 9];
    batch.push(event(WatchTarget::External(channel), ChangeKind::Create));
    batch.push(event(WatchTarget::VertexStage, ChangeKind::ModifyData));
    assert_eq!(notifier.coalesce(&batch), Changes { stages: true, external: true });
}

#[test]
fn first_watch_gets_channel_zero_and_turns_monitoring_on() {
    let (notifier, channel) = watching("/tmp/a.glsl");
    assert_eq!(channel, 0);
    assert!(notifier.is_monitoring());
    assert_eq!(notifier.polled_channel(), Some(0));
    let handle = notifier.external().unwrap();
    assert_eq!(handle.path(), "/tmp/a.glsl");
    assert_eq!(handle.channel(), 0);
}

#[test]
fn replacing_moves_to_the_next_channel() {
    let (mut notifier, first) = watching("/tmp/a.glsl");
    let second = notifier.replace_external(String::from("/tmp/b.glsl"));
    let third = notifier.replace_external(String::from("/tmp/a.glsl"));
    assert_eq!((first, second, third), (0, 1, 2));
    assert_eq!(notifier.external().unwrap().path(), "/tmp/a.glsl");
    assert_eq!(notifier.polled_channel(), Some(2));
}

#[test]
fn events_of_a_replaced_watch_count_for_nothing() {
    let (mut notifier, old) = watching("/tmp/a.glsl");
    let new = notifier.replace_external(String::from("/tmp/b.glsl"));
    assert_ne!(old, new);
    for kind in KINDS {
        let changes = notifier.coalesce(&vec![event(WatchTarget::External(old), kind)]);
        assert_eq!(changes, Changes { stages: false, external: false });
    }
    let changes = notifier.coalesce(&vec![event(WatchTarget::External(new), ChangeKind::ModifyData)]);
    assert_eq!(changes, Changes { stages: false, external: true });
}

#[test]
fn events_count_for_nothing_while_monitoring_is_off() {
    let (mut notifier, channel) = watching("/tmp/a.glsl");
    notifier.set_monitoring(false);
    assert!(!notifier.is_monitoring());
    assert_eq!(notifier.polled_channel(), None);
    let batch = vec![
        event(WatchTarget::External(channel), ChangeKind::ModifyData),
        event(WatchTarget::FragmentStage, ChangeKind::ModifyData),
    ];
    assert_eq!(notifier.coalesce(&batch), Changes { stages: true, external: false });
    notifier.set_monitoring(true);
    assert_eq!(notifier.polled_channel(), Some(channel));
    assert_eq!(notifier.coalesce(&batch), Changes { stages: true, external: true });
}

#[test]
fn monitoring_without_a_file_polls_nothing() {
    let mut notifier = ChangeNotifier::new();
    notifier.set_monitoring(true);
    assert!(notifier.is_monitoring());
    assert_eq!(notifier.polled_channel(), None);
    let batch = vec![event(WatchTarget::External(0), ChangeKind::ModifyData)];
    assert_eq!(notifier.coalesce(&batch), Changes { stages: false, external: false });
}
