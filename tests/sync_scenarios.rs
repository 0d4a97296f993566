use email_lib::email_patch::{build, merge_flags};
use email_lib::email_work::{email_hunk_calls, select_envelopes, sync_cache_message, Corner, EmailCall};
use email_lib::envelope::{EmailSyncHunk, Envelope};
use email_lib::flag::{Flag, Flags};
use email_lib::folder_patch::{build_patch, FolderSyncHunk, FoldersName};
use email_lib::policy::{FolderSyncStrategy, SidePermissions, SyncPermissions};
use email_lib::report::{FolderHunkWork, FolderSyncCacheHunk, FolderSyncPatchManager, FolderSyncReport, EmailSyncReport, folder_hunk_work};
use email_lib::sync::SyncDestination::{Left, Right};

fn names(v: &[&str]) -> FoldersName {
    v.iter().map(|s| s.to_string()).collect()
}

fn flags(v: &[Flag]) -> Flags {
    let mut f = Flags::new();
    for x in v {
        f.insert(x.duplicate());
    }
    f
}

fn env(id: &str, message_id: &str, f: &[Flag]) -> Envelope {
    Envelope {
        id: id.to_string(),
        message_id: message_id.to_string(),
        flags: flags(f),
        from: "from@localhost".to_string(),
        to: "to@localhost".to_string(),
        subject: "subject".to_string(),
        date: 0,
    }
}

fn same_flags(e: &Envelope, f: &[Flag]) -> bool {
    e.flags.same(&flags(f))
}

#[test]
fn new_folder_on_right() {
    let p = build_patch(names(&[]), names(&[]), names(&[]), names(&["Work"]));
    assert_eq!(
        p,
        vec![(
            "Work".to_string(),
            vec![
                FolderSyncHunk::Cache("Work".into(), Left),
                FolderSyncHunk::Create("Work".into(), Left),
                FolderSyncHunk::Cache("Work".into(), Right),
            ]
        )]
    );
}

#[test]
fn deleted_on_left() {
    let p = build_patch(names(&["Old"]), names(&[]), names(&["Old"]), names(&["Old"]));
    assert_eq!(
        p,
        vec![(
            "Old".to_string(),
            vec![
                FolderSyncHunk::Uncache("Old".into(), Left),
                FolderSyncHunk::Uncache("Old".into(), Right),
                FolderSyncHunk::Delete("Old".into(), Right),
            ]
        )]
    );
}

#[test]
fn flag_drift() {
    let folder = "INBOX".to_string();
    let lc = vec![env("1", "m1@x", &[Flag::Seen])];
    let l = vec![env("2", "m1@x", &[Flag::Seen, Flag::Flagged])];
    let rc = vec![env("3", "m1@x", &[Flag::Seen])];
    let r = vec![env("4", "m1@x", &[Flag::Seen])];
    let p = build(&folder, &lc, &l, &rc, &r);
    assert_eq!(p.len(), 1);
    assert_eq!(p[0].0, "m1@x");
    let hunks = &p[0].1;
    assert_eq!(hunks.len(), 3);
    let merged = [Flag::Seen, Flag::Flagged];
    match &hunks[0] {
        EmailSyncHunk::UpdateCachedFlags(f, e, Left) => {
            assert_eq!(f, "INBOX");
            assert_eq!(e.id, "1");
            assert!(same_flags(e, &merged));
        }
        h => panic!("unexpected hunk {h:?}"),
    }
    match &hunks[1] {
        EmailSyncHunk::UpdateFlags(_, e, Right) => {
            assert_eq!(e.id, "4");
            assert!(same_flags(e, &merged));
        }
        h => panic!("unexpected hunk {h:?}"),
    }
    match &hunks[2] {
        EmailSyncHunk::UpdateCachedFlags(_, e, Right) => {
            assert_eq!(e.id, "3");
            assert!(same_flags(e, &merged));
        }
        h => panic!("unexpected hunk {h:?}"),
    }
    assert!(!hunks.iter().any(|h| matches!(h, EmailSyncHunk::UpdateFlags(_, _, Left))));
}

#[test]
fn moved_not_copied() {
    let folder = "INBOX".to_string();
    let lc = vec![env("c1", "m2", &[])];
    let r = vec![env("r1", "m2", &[])];
    let p = build(&folder, &lc, &vec![], &vec![], &r);
    assert_eq!(p.len(), 1);
    let hunks = &p[0].1;
    assert_eq!(hunks.len(), 3);
    assert!(matches!(&hunks[0], EmailSyncHunk::Uncache(f, id, Left) if f == "INBOX" && id == "c1"));
    assert!(matches!(&hunks[1], EmailSyncHunk::Delete(_, id, Right) if id == "r1"));
    assert!(matches!(&hunks[2], EmailSyncHunk::Uncache(_, _, Right)));
}

#[test]
fn new_message_on_right() {
    let folder = "INBOX".to_string();
    let r = vec![env("r1", "m3", &[Flag::Seen])];
    let p = build(&folder, &vec![], &vec![], &vec![], &r);
    let hunks = &p[0].1;
    assert_eq!(hunks.len(), 2);
    assert!(matches!(&hunks[0], EmailSyncHunk::GetThenCache(_, id, Right) if id == "r1"));
    match &hunks[1] {
        EmailSyncHunk::CopyThenCache(_, e, Right, Left, false) => {
            assert!(same_flags(e, &[Flag::Seen]))
        }
        h => panic!("unexpected hunk {h:?}"),
    }
}

#[test]
fn synced_message_owes_nothing() {
    let folder = "INBOX".to_string();
    let one = |id: &str| vec![env(id, "m4", &[Flag::Seen, Flag::Custom("work".into())])];
    let p = build(&folder, &one("a"), &one("b"), &one("c"), &one("d"));
    assert_eq!(p.len(), 1);
    assert!(p[0].1.is_empty());
}

#[test]
fn merged_flags_drop_cache_only_deleted() {
    let lc = env("1", "m", &[Flag::Deleted, Flag::Seen]);
    let l = env("2", "m", &[Flag::Answered]);
    let m = merge_flags(Some(&lc), Some(&l), None, None);
    assert!(m.same(&flags(&[Flag::Seen, Flag::Answered])));

    let r = env("3", "m", &[Flag::Deleted]);
    let m = merge_flags(Some(&lc), Some(&l), None, Some(&r));
    assert!(m.same(&flags(&[Flag::Seen, Flag::Answered, Flag::Deleted])));
}

#[test]
fn dry_run_reports_every_hunk_as_done() {
    let p = build_patch(names(&[]), names(&[]), names(&[]), names(&["Work"]));
    let report = FolderSyncReport::dry_run(&p);
    assert_eq!(
        report.patch,
        vec![
            (FolderSyncHunk::Cache("Work".into(), Left), None),
            (FolderSyncHunk::Create("Work".into(), Left), None),
            (FolderSyncHunk::Cache("Work".into(), Right), None),
        ]
    );
    assert!(report.cache_patch.is_empty());
    assert_eq!(report.names, vec!["Work".to_string()]);

    let encoded = build_patch(names(&[]), names(&["My%20Work"]), names(&[]), names(&[]));
    assert_eq!(FolderSyncReport::dry_run(&encoded).names, vec!["My Work".to_string()]);

    let manager = FolderSyncPatchManager::new(FolderSyncStrategy::All, true);
    for (_, hunks) in &p {
        for h in hunks {
            assert!(manager.hunk_work(h).is_none());
        }
    }
}

#[test]
fn partial_failure_keeps_cache_hunks() {
    let p = build_patch(names(&[]), names(&[]), names(&[]), names(&["Work"]));
    let mut report = FolderSyncReport::new();
    for (_, hunks) in &p {
        for h in hunks {
            let err = match folder_hunk_work(h) {
                FolderHunkWork::AddFolder(_, Left) => Some("cannot add folder".to_string()),
                _ => None,
            };
            report.record(h.clone(), err);
            assert_eq!(report.patch.last().map(|(x, _)| x), Some(h));
        }
    }
    assert_eq!(
        report.patch,
        vec![
            (FolderSyncHunk::Cache("Work".into(), Left), None),
            (FolderSyncHunk::Create("Work".into(), Left), Some("cannot add folder".to_string())),
            (FolderSyncHunk::Cache("Work".into(), Right), None),
        ]
    );
    assert_eq!(
        report.cache_patch,
        vec![
            FolderSyncCacheHunk::Insert("Work".into(), Left),
            FolderSyncCacheHunk::Insert("Work".into(), Right),
        ]
    );
    // The next run still sees "Work" missing on the left and retries.
    let next = build_patch(names(&["Work"]), names(&[]), names(&["Work"]), names(&["Work"]));
    assert_eq!(next[0].1, vec![
        FolderSyncHunk::Uncache("Work".into(), Left),
        FolderSyncHunk::Uncache("Work".into(), Right),
        FolderSyncHunk::Delete("Work".into(), Right),
    ]);
}

#[test]
fn email_dry_run_report() {
    let folder = "INBOX".to_string();
    let r = vec![env("r1", "m3", &[Flag::Seen])];
    let p = build(&folder, &vec![], &vec![], &vec![], &r);
    let report = EmailSyncReport::dry_run(&p[0].1);
    assert_eq!(report.patch.len(), 2);
    assert!(report.patch.iter().all(|(_, e)| e.is_none()));
}

#[test]
fn strategy_filters_folders() {
    let s = FolderSyncStrategy::Include(names(&["INBOX", "Work"]));
    assert_eq!(s.filter_folders(&names(&["INBOX", "Spam", "Work"])), names(&["INBOX", "Work"]));
    let s = FolderSyncStrategy::Exclude(names(&["Spam"]));
    assert_eq!(s.filter_folders(&names(&["INBOX", "Spam", "Work"])), names(&["INBOX", "Work"]));
    assert!(FolderSyncStrategy::All.matches(&"Spam".to_string()));

    let m = FolderSyncPatchManager::new(FolderSyncStrategy::Exclude(names(&["Spam"])), false);
    let p = m.build_patches(&names(&[]), &names(&["Spam", "Work"]), &names(&[]), &names(&[]));
    assert_eq!(p.len(), 1);
    assert_eq!(p[0].0, "Work");
}

#[test]
fn permissions_drop_forbidden_hunks() {
    let deny = SidePermissions { create: false, delete: false, update_flags: false };
    let allow = SidePermissions { create: true, delete: true, update_flags: true };
    let perms = SyncPermissions { left: deny, right: allow };
    let hunks = vec![
        FolderSyncHunk::Cache("Work".into(), Left),
        FolderSyncHunk::Create("Work".into(), Left),
        FolderSyncHunk::Create("Work".into(), Right),
        FolderSyncHunk::Delete("Old".into(), Left),
    ];
    assert_eq!(
        perms.apply_folder_permissions(hunks),
        vec![FolderSyncHunk::Cache("Work".into(), Left), FolderSyncHunk::Create("Work".into(), Right)]
    );

    let folder = "INBOX".to_string();
    let r = vec![env("r1", "m3", &[Flag::Seen])];
    let p = build(&folder, &vec![], &vec![], &vec![], &r);
    let kept = perms.apply_email_permissions(p[0].1.iter().map(|h| h.duplicate()).collect());
    assert_eq!(kept.len(), 1);
    assert!(matches!(&kept[0], EmailSyncHunk::GetThenCache(_, _, Right)));
    assert_eq!(SyncPermissions::all().apply_folder_permissions(vec![FolderSyncHunk::Delete("Old".into(), Left)]).len(), 1);
}

#[test]
fn email_hunk_call_plans() {
    let e = env("r1", "m3", &[Flag::Seen]);
    let copy = EmailSyncHunk::CopyThenCache("INBOX".into(), e.duplicate(), Right, Left, true);
    assert_eq!(
        email_hunk_calls(&copy, false),
        vec![
            EmailCall::CacheEnvelope(Right),
            EmailCall::PeekMessage(Right, "r1".into()),
            EmailCall::AddMessage(Left),
            EmailCall::GetEnvelope(Left, None),
            EmailCall::CacheEnvelope(Left),
        ]
    );
    assert!(email_hunk_calls(&copy, true).is_empty());
    let get = EmailSyncHunk::GetThenCache("INBOX".into(), "r1".into(), Right);
    assert_eq!(
        email_hunk_calls(&get, false),
        vec![EmailCall::GetEnvelope(Right, Some("r1".into())), EmailCall::CacheEnvelope(Right)]
    );
    let del = EmailSyncHunk::Uncache("INBOX".into(), "c1".into(), Left);
    assert_eq!(email_hunk_calls(&del, false), vec![EmailCall::FlagDeleted(Corner::Cache(Left), "c1".into())]);
    let upd = EmailSyncHunk::UpdateFlags("INBOX".into(), e, Right);
    assert_eq!(email_hunk_calls(&upd, false), vec![EmailCall::SetFlags(Corner::Backend(Right), "r1".into())]);
}

#[test]
fn selection_filters_and_keeps_the_last_per_message_id() {
    let listed = vec![
        (env("1", "a", &[]), true),
        (env("2", "b", &[]), false),
        (env("3", "a", &[Flag::Seen]), true),
        (env("4", "c", &[]), true),
        (env("5", "a", &[]), false),
    ];
    let r = select_envelopes(&listed);
    let ids: Vec<&str> = r.iter().map(|e| e.id.as_str()).collect();
    assert_eq!(ids, vec!["3", "4"]);
}

#[test]
fn cache_record_is_the_mml_render() {
    let e = env("1", "m1@x", &[Flag::Seen]);
    assert_eq!(
        sync_cache_message(&e),
        "Message-ID: <m1@x>\nFrom: from@localhost\nTo: to@localhost\nSubject: subject\n\n\n"
    );
}
