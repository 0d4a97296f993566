use std::collections::HashMap;

use email_lib::folder_patch::{build_patch, FolderSyncHunk, FoldersName};
use email_lib::sync::SyncDestination;

#[test]
fn build_folder_patch() {
    // 0000
    assert_eq!(
        HashMap::<String, Vec<FolderSyncHunk>>::from_iter(build_patch(
                FoldersName::default(),
                FoldersName::default(),
                FoldersName::default(),
                FoldersName::default(),
        )),
        HashMap::new()
    );

    // 0001
    assert_eq!(
        HashMap::<String, Vec<FolderSyncHunk>>::from_iter(build_patch(
                FoldersName::default(),
                FoldersName::default(),
                FoldersName::default(),
                FoldersName::from_iter(["folder".into()]),
        )),
        HashMap::from_iter([(
            "folder".to_string(),
            vec![
                FolderSyncHunk::Cache("folder".into(), SyncDestination::Left),
                FolderSyncHunk::Create("folder".into(), SyncDestination::Left),
                FolderSyncHunk::Cache("folder".into(), SyncDestination::Right)
            ]
        )])
    );

    // 0010
    assert_eq!(
        HashMap::<String, Vec<FolderSyncHunk>>::from_iter(build_patch(
                FoldersName::default(),
                FoldersName::default(),
                FoldersName::from_iter(["folder".into()]),
                FoldersName::default(),
        )),
        HashMap::from_iter([(
            "folder".to_string(),
            vec![
                FolderSyncHunk::Uncache("folder".into(), SyncDestination::Right)
            ]
        )])
    );

    // 0011
    assert_eq!(
        HashMap::<String, Vec<FolderSyncHunk>>::from_iter(build_patch(
                FoldersName::default(),
                FoldersName::default(),
                FoldersName::from_iter(["folder".into()]),
                FoldersName::from_iter(["folder".into()]),
        )),
        HashMap::from_iter([(
            "folder".to_string(),
            vec![
                FolderSyncHunk::Cache("folder".into(), SyncDestination::Left),
                FolderSyncHunk::Create("folder".into(), SyncDestination::Left)
            ]
        )])
    );

    // 0100
    assert_eq!(
        HashMap::<String, Vec<FolderSyncHunk>>::from_iter(build_patch(
                FoldersName::default(),
                FoldersName::from_iter(["folder".into()]),
                FoldersName::default(),
                FoldersName::default(),
        )),
        HashMap::from_iter([(
            "folder".to_string(),
            vec![
                FolderSyncHunk::Cache("folder".into(), SyncDestination::Left),
                FolderSyncHunk::Cache("folder".into(), SyncDestination::Right),
                FolderSyncHunk::Create("folder".into(), SyncDestination::Right)
            ]
        )])
    );

    // 0101
    assert_eq!(
        HashMap::<String, Vec<FolderSyncHunk>>::from_iter(build_patch(
                FoldersName::default(),
                FoldersName::from_iter(["folder".into()]),
                FoldersName::default(),
                FoldersName::from_iter(["folder".into()]),
        )),
        HashMap::from_iter([(
            "folder".to_string(),
            vec![
                FolderSyncHunk::Cache("folder".into(), SyncDestination::Left),
                FolderSyncHunk::Cache("folder".into(), SyncDestination::Right)
            ]
        )])
    );

    // 0110
    assert_eq!(
        HashMap::<String, Vec<FolderSyncHunk>>::from_iter(build_patch(
                FoldersName::default(),
                FoldersName::from_iter(["folder".into()]),
                FoldersName::from_iter(["folder".into()]),
                FoldersName::default(),
        )),
        HashMap::from_iter([(
            "folder".to_string(),
            vec![
                FolderSyncHunk::Cache("folder".into(), SyncDestination::Left),
                FolderSyncHunk::Create("folder".into(), SyncDestination::Right)
            ]
        )])
    );

    // 0111
    assert_eq!(
        HashMap::<String, Vec<FolderSyncHunk>>::from_iter(build_patch(
                FoldersName::default(),
                FoldersName::from_iter(["folder".into()]),
                FoldersName::from_iter(["folder".into()]),
                FoldersName::from_iter(["folder".into()]),
        )),
        HashMap::from_iter([(
            "folder".to_string(),
            vec![
                FolderSyncHunk::Cache("folder".into(), SyncDestination::Left)
            ]
        )])
    );

    // 1000
    assert_eq!(
        HashMap::<String, Vec<FolderSyncHunk>>::from_iter(build_patch(
                FoldersName::from_iter(["folder".into()]),
                FoldersName::default(),
                FoldersName::default(),
                FoldersName::default(),
        )),
        HashMap::from_iter([(
            "folder".to_string(),
            vec![
                FolderSyncHunk::Uncache("folder".into(), SyncDestination::Left)
            ]
        )])
    );

    // 1001
    assert_eq!(
        HashMap::<String, Vec<FolderSyncHunk>>::from_iter(build_patch(
                FoldersName::from_iter(["folder".into()]),
                FoldersName::default(),
                FoldersName::default(),
                FoldersName::from_iter(["folder".into()]),
        )),
        HashMap::from_iter([(
            "folder".to_string(),
            vec![
                FolderSyncHunk::Create("folder".into(), SyncDestination::Left),
                FolderSyncHunk::Cache("folder".into(), SyncDestination::Right)
            ]
        )])
    );

    // 1010
    assert_eq!(
        HashMap::<String, Vec<FolderSyncHunk>>::from_iter(build_patch(
                FoldersName::from_iter(["folder".into()]),
                FoldersName::default(),
                FoldersName::from_iter(["folder".into()]),
                FoldersName::default(),
        )),
        HashMap::from_iter([(
            "folder".to_string(),
            vec![
                FolderSyncHunk::Uncache("folder".into(), SyncDestination::Left),
                FolderSyncHunk::Uncache("folder".into(), SyncDestination::Right)
            ]
        )])
    );

    // 1011
    assert_eq!(
        HashMap::<String, Vec<FolderSyncHunk>>::from_iter(build_patch(
                FoldersName::from_iter(["folder".into()]),
                FoldersName::default(),
                FoldersName::from_iter(["folder".into()]),
                FoldersName::from_iter(["folder".into()]),
        )),
        HashMap::from_iter([(
            "folder".to_string(),
            vec![
                FolderSyncHunk::Uncache("folder".into(), SyncDestination::Left),
                FolderSyncHunk::Uncache("folder".into(), SyncDestination::Right),
                FolderSyncHunk::Delete("folder".into(), SyncDestination::Right)
            ]
        )])
    );

    // 1100
    assert_eq!(
        HashMap::<String, Vec<FolderSyncHunk>>::from_iter(build_patch(
                FoldersName::from_iter(["folder".into()]),
                FoldersName::from_iter(["folder".into()]),
                FoldersName::default(),
                FoldersName::default(),
        )),
        HashMap::from_iter([(
            "folder".to_string(),
            vec![
                FolderSyncHunk::Cache("folder".into(), SyncDestination::Right),
                FolderSyncHunk::Create("folder".into(), SyncDestination::Right)
            ]
        )])
    );

    // 1101
    assert_eq!(
        HashMap::<String, Vec<FolderSyncHunk>>::from_iter(build_patch(
                FoldersName::from_iter(["folder".into()]),
                FoldersName::from_iter(["folder".into()]),
                FoldersName::default(),
                FoldersName::from_iter(["folder".into()]),
        )),
        HashMap::from_iter([(
            "folder".to_string(),
            vec![
                FolderSyncHunk::Cache("folder".into(), SyncDestination::Right)
            ]
        )])
    );

    // 1110
    assert_eq!(
        HashMap::<String, Vec<FolderSyncHunk>>::from_iter(build_patch(
                FoldersName::from_iter(["folder".into()]),
                FoldersName::from_iter(["folder".into()]),
                FoldersName::from_iter(["folder".into()]),
                FoldersName::default(),
        )),
        HashMap::from_iter([(
            "folder".to_string(),
            vec![
                FolderSyncHunk::Uncache("folder".into(), SyncDestination::Left),
                FolderSyncHunk::Delete("folder".into(), SyncDestination::Left),
                FolderSyncHunk::Uncache("folder".into(), SyncDestination::Right)
            ]
        )])
    );

    // 1111
    assert_eq!(
        HashMap::<String, Vec<FolderSyncHunk>>::from_iter(build_patch(
                FoldersName::from_iter(["folder".into()]),
                FoldersName::from_iter(["folder".into()]),
                FoldersName::from_iter(["folder".into()]),
                FoldersName::from_iter(["folder".into()]),
        )),
        HashMap::from_iter([(
            "folder".to_string(),
            vec![
                
            ]
        )])
    );

}
