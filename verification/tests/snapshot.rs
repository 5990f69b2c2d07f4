use rustlua::codec::{compress_to_base64, CodecError};
use rustlua::listing::{ls_recursive, TreeEntry};
use rustlua::snapshot::{
    create_fs_image, import_fs_image, restore_file, FileData, FsImageEntry, RestoreError,
    RestoreFailure,
};

fn file_data(path: &str, data: &[u8]) -> FileData {
    FileData {
        path: path.to_string(),
        data: data.to_vec(),
    }
}

fn image_entry(path: &str, data: &[u8]) -> FsImageEntry {
    FsImageEntry {
        path: path.to_string(),
        data_base64: compress_to_base64(data).unwrap(),
    }
}

/// Writes a manifest as the text that travels, and reads it back.
fn through_json(image: &[FsImageEntry]) -> Vec<FsImageEntry> {
    let mut items = Vec::new();
    for entry in image {
        let mut object = serde_json::Map::new();
        object.insert(
            "p".to_string(),
            serde_json::Value::String(entry.path.clone()),
        );
        object.insert(
            "d".to_string(),
            serde_json::Value::String(entry.data_base64.clone()),
        );
        items.push(serde_json::Value::Object(object));
    }
    let text = serde_json::to_string(&serde_json::Value::Array(items)).unwrap();
    let parsed: serde_json::Value = serde_json::from_str(&text).unwrap();
    parsed
        .as_array()
        .unwrap()
        .iter()
        .map(|item| FsImageEntry {
            path: item["p"].as_str().unwrap().to_string(),
            data_base64: item["d"].as_str().unwrap().to_string(),
        })
        .collect()
}

#[test]
fn create_fs_image_of_no_file_is_empty() {
    assert_eq!(create_fs_image(&vec![]), Ok(vec![]));
    assert_eq!(import_fs_image(&vec![]), Ok(vec![]));
}

#[test]
fn create_fs_image_keeps_paths_and_order() {
    let files = vec![
        file_data("z.txt", b"last comes first"),
        file_data("a/b.txt", b"Hello!\n"),
        file_data("a/c/d.bin", &[0, 1, 2, 255]),
    ];
    let image = create_fs_image(&files).unwrap();
    assert_eq!(image.len(), 3);
    for (entry, file) in image.iter().zip(&files) {
        assert_eq!(entry.path, file.path);
        assert_eq!(
            Some(entry.data_base64.clone()),
            compress_to_base64(&file.data)
        );
    }
}

#[test]
fn create_fs_image_writes_text_that_needs_no_escape() {
    let files = vec![file_data("a", b"\"quoted\" \\ and = signs\n")];
    let image = create_fs_image(&files).unwrap();
    assert!(image[0]
        .data_base64
        .chars()
        .all(|c| c.is_ascii_alphanumeric() || c == '+' || c == '/'));
}

#[test]
fn snapshot_round_trips_one_file() {
    let files = vec![file_data("hello.txt", b"Hello!\n")];
    let image = create_fs_image(&files).unwrap();
    assert_eq!(import_fs_image(&image), Ok(files));
}

#[test]
fn snapshot_round_trips_many_nested_files() {
    let files = vec![
        file_data("hello.txt", b"Hello!\n"),
        file_data("a/b.txt", b""),
        file_data("a/c/d.bin", &[0u8; 4096]),
        file_data("a/c/e", &(0..=255u8).collect::<Vec<u8>>()),
        file_data("\u{65e5}\u{672c}/\u{8a9e}.txt", "caf\u{e9}".as_bytes()),
    ];
    let image = create_fs_image(&files).unwrap();
    assert_eq!(import_fs_image(&through_json(&image)), Ok(files));
}

#[test]
fn snapshot_of_a_walked_tree_restores_the_file() {
    let tree = Some(vec![TreeEntry::Dir {
        name: "a".to_string(),
        listing: Some(vec![TreeEntry::File {
            name: "b.txt".to_string(),
        }]),
    }]);
    let list = ls_recursive(&tree, true).unwrap();
    assert_eq!(list.len(), 1);
    let files: Vec<FileData> = list
        .into_iter()
        .map(|(path, _)| FileData {
            path,
            data: b"Hello!\n".to_vec(),
        })
        .collect();

    let image = create_fs_image(&files).unwrap();
    assert_eq!(image.len(), 1);
    assert_eq!(image[0].path, "a/b.txt");

    let restored = import_fs_image(&through_json(&image)).unwrap();
    assert_eq!(restored, vec![file_data("a/b.txt", b"Hello!\n")]);
}

#[test]
fn import_fs_image_refuses_a_path_that_climbs_out() {
    let image = vec![image_entry("../evil.txt", b"evil")];
    assert_eq!(
        import_fs_image(&image),
        Err(RestoreFailure {
            index: 0,
            error: RestoreError::PathTraversal,
            written: vec![],
        })
    );
}

#[test]
fn import_fs_image_refuses_a_marker_anywhere_in_the_path() {
    for path in ["..", "a/../../b", "a/b/..", "a/../b"] {
        let failure = import_fs_image(&vec![image_entry(path, b"x")]).unwrap_err();
        assert_eq!(failure.error, RestoreError::PathTraversal);
    }
}

#[test]
fn import_fs_image_stops_at_the_first_refused_entry() {
    let image = vec![
        image_entry("good.txt", b"good"),
        image_entry("also/good.txt", b"fine"),
        image_entry("a/../../evil.txt", b"evil"),
        image_entry("never/reached.txt", b"late"),
    ];
    let failure = import_fs_image(&image).unwrap_err();
    assert_eq!(failure.index, 2);
    assert_eq!(failure.error, RestoreError::PathTraversal);
    assert_eq!(
        failure.written,
        vec![
            file_data("good.txt", b"good"),
            file_data("also/good.txt", b"fine")
        ]
    );
    assert!(failure.written.iter().all(|f| !f.path.contains("..")));
}

#[test]
fn import_fs_image_judges_the_path_before_the_content() {
    let image = vec![FsImageEntry {
        path: "../evil.txt".to_string(),
        data_base64: "not base64!".to_string(),
    }];
    assert_eq!(
        import_fs_image(&image).unwrap_err().error,
        RestoreError::PathTraversal
    );
}

#[test]
fn import_fs_image_reports_text_that_is_no_base64() {
    let image = vec![
        image_entry("ok", b"ok"),
        FsImageEntry {
            path: "broken".to_string(),
            data_base64: "not base64!".to_string(),
        },
    ];
    assert_eq!(
        import_fs_image(&image),
        Err(RestoreFailure {
            index: 1,
            error: RestoreError::Codec(CodecError::InvalidText),
            written: vec![file_data("ok", b"ok")],
        })
    );
}

#[test]
fn import_fs_image_reports_a_stream_that_is_no_deflate() {
    let image = vec![FsImageEntry {
        path: "broken".to_string(),
        data_base64: "Bw".to_string(),
    }];
    assert_eq!(
        import_fs_image(&image),
        Err(RestoreFailure {
            index: 0,
            error: RestoreError::Codec(CodecError::InvalidStream),
            written: vec![],
        })
    );
}

#[test]
fn import_fs_image_reports_the_earlier_of_two_faults() {
    let image = vec![
        FsImageEntry {
            path: "broken".to_string(),
            data_base64: "Zg==".to_string(),
        },
        image_entry("../evil.txt", b"evil"),
    ];
    let failure = import_fs_image(&image).unwrap_err();
    assert_eq!(failure.index, 0);
    assert_eq!(failure.error, RestoreError::Codec(CodecError::InvalidText));
}

#[test]
fn restore_file_gives_the_file_for_a_path_that_stays_inside() {
    assert_eq!(
        restore_file("a/b.txt", Ok(b"Hello!\n".to_vec())),
        Ok(file_data("a/b.txt", b"Hello!\n"))
    );
    assert_eq!(restore_file("", Ok(vec![])), Ok(file_data("", b"")));
}

#[test]
fn restore_file_refuses_a_climbing_path_whatever_the_content() {
    assert_eq!(
        restore_file("../evil.txt", Ok(b"evil".to_vec())),
        Err(RestoreError::PathTraversal)
    );
    assert_eq!(
        restore_file("a/..", Err(CodecError::InvalidText)),
        Err(RestoreError::PathTraversal)
    );
    assert_eq!(
        restore_file("..", Err(CodecError::InvalidStream)),
        Err(RestoreError::PathTraversal)
    );
}

#[test]
fn restore_file_hands_on_the_error_of_the_decoder() {
    assert_eq!(
        restore_file("a", Err(CodecError::InvalidText)),
        Err(RestoreError::Codec(CodecError::InvalidText))
    );
    assert_eq!(
        restore_file("a", Err(CodecError::InvalidStream)),
        Err(RestoreError::Codec(CodecError::InvalidStream))
    );
}

#[test]
fn snapshot_leaves_out_an_empty_directory() {
    let tree = Some(vec![
        TreeEntry::Dir {
            name: "empty".to_string(),
            listing: Some(vec![]),
        },
        TreeEntry::File {
            name: "kept.txt".to_string(),
        },
    ]);
    let list = ls_recursive(&tree, true).unwrap();
    let files: Vec<FileData> = list
        .into_iter()
        .map(|(path, _)| FileData {
            path,
            data: b"x".to_vec(),
        })
        .collect();
    let image = create_fs_image(&files).unwrap();
    let restored = import_fs_image(&image).unwrap();
    assert_eq!(restored, vec![file_data("kept.txt", b"x")]);
}

#[test]
fn import_fs_image_refuses_an_absolute_path() {
    let image = vec![image_entry("/tmp/t/evil.txt", b"evil")];
    assert_eq!(
        import_fs_image(&image),
        Err(RestoreFailure {
            index: 0,
            error: RestoreError::PathTraversal,
            written: vec![],
        })
    );
    let image = vec![FsImageEntry {
        path: "/tmp/t/evil.txt".to_string(),
        data_base64: "AwA".to_string(),
    }];
    assert_eq!(
        import_fs_image(&through_json(&image)).unwrap_err().error,
        RestoreError::PathTraversal
    );
}

#[test]
fn import_fs_image_writes_nothing_outside_before_a_refusal() {
    let image = vec![
        image_entry("inside.txt", b"fine"),
        image_entry("/tmp/t/evil.txt", b"evil"),
        image_entry("../evil.txt", b"evil"),
    ];
    let failure = import_fs_image(&image).unwrap_err();
    assert_eq!(failure.index, 1);
    assert_eq!(failure.error, RestoreError::PathTraversal);
    assert_eq!(failure.written, vec![file_data("inside.txt", b"fine")]);
}

#[test]
fn restore_file_refuses_an_absolute_path_whatever_the_content() {
    assert_eq!(
        restore_file("/tmp/t/evil.txt", Ok(b"evil".to_vec())),
        Err(RestoreError::PathTraversal)
    );
    assert_eq!(
        restore_file("/", Err(CodecError::InvalidText)),
        Err(RestoreError::PathTraversal)
    );
}

#[test]
fn create_fs_image_writes_text_that_decodes_to_each_content() {
    let files = vec![
        file_data("/absolute", b"one"),
        file_data("../outside", b"two"),
        file_data("inside", b""),
    ];
    let image = create_fs_image(&files).unwrap();
    for (entry, file) in image.iter().zip(&files) {
        assert_eq!(
            rustlua::codec::decompress_from_base64(&entry.data_base64),
            Ok(file.data.clone())
        );
    }
}
