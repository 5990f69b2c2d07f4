use rustlua::listing::{ls, ls_rec_body, ls_recursive, EntryType, ListError, TreeEntry};

fn file(name: &str) -> TreeEntry {
    TreeEntry::File {
        name: name.to_string(),
    }
}

fn dir(name: &str, entries: Vec<TreeEntry>) -> TreeEntry {
    TreeEntry::Dir {
        name: name.to_string(),
        listing: Some(entries),
    }
}

fn closed_dir(name: &str) -> TreeEntry {
    TreeEntry::Dir {
        name: name.to_string(),
        listing: None,
    }
}

fn sample_tree() -> Option<Vec<TreeEntry>> {
    Some(vec![
        file("hello.txt"),
        TreeEntry::Unreadable,
        dir(
            "a",
            vec![
                file("b.txt"),
                dir("c", vec![file("d.bin")]),
                TreeEntry::Other {
                    name: "link".to_string(),
                },
                dir("empty", vec![]),
            ],
        ),
        closed_dir("locked"),
        file("z"),
    ])
}

fn entry(path: &str, kind: EntryType) -> (String, EntryType) {
    (path.to_string(), kind)
}

#[test]
fn ls_lists_one_level_in_order() {
    assert_eq!(
        ls(&sample_tree(), false),
        Ok(vec![
            entry("hello.txt", EntryType::FILE),
            entry("a", EntryType::DIR),
            entry("locked", EntryType::DIR),
            entry("z", EntryType::FILE),
        ])
    );
}

#[test]
fn ls_leaves_directories_out_on_request() {
    assert_eq!(
        ls(&sample_tree(), true),
        Ok(vec![
            entry("hello.txt", EntryType::FILE),
            entry("z", EntryType::FILE),
        ])
    );
}

#[test]
fn ls_fails_where_the_directory_cannot_be_opened() {
    assert_eq!(ls(&None, false), Err(ListError::Unreadable));
}

#[test]
fn ls_recursive_walks_depth_first_with_relative_paths() {
    assert_eq!(
        ls_recursive(&sample_tree(), false),
        Ok(vec![
            entry("hello.txt", EntryType::FILE),
            entry("a", EntryType::DIR),
            entry("a/b.txt", EntryType::FILE),
            entry("a/c", EntryType::DIR),
            entry("a/c/d.bin", EntryType::FILE),
            entry("a/empty", EntryType::DIR),
            entry("locked", EntryType::DIR),
            entry("z", EntryType::FILE),
        ])
    );
}

#[test]
fn ls_recursive_goes_into_directories_it_does_not_list() {
    assert_eq!(
        ls_recursive(&sample_tree(), true),
        Ok(vec![
            entry("hello.txt", EntryType::FILE),
            entry("a/b.txt", EntryType::FILE),
            entry("a/c/d.bin", EntryType::FILE),
            entry("z", EntryType::FILE),
        ])
    );
}

#[test]
fn ls_recursive_of_an_empty_directory_is_empty() {
    assert_eq!(ls_recursive(&Some(vec![]), false), Ok(vec![]));
}

#[test]
fn ls_recursive_passes_over_what_could_not_be_read() {
    let tree = Some(vec![
        TreeEntry::Unreadable,
        closed_dir("locked"),
        TreeEntry::Other {
            name: "socket".to_string(),
        },
    ]);
    assert_eq!(
        ls_recursive(&tree, false),
        Ok(vec![entry("locked", EntryType::DIR)])
    );
    assert_eq!(ls_recursive(&tree, true), Ok(vec![]));
}

#[test]
fn ls_recursive_fails_where_the_root_cannot_be_opened() {
    assert_eq!(ls_recursive(&None, false), Err(ListError::Unreadable));
    assert_eq!(ls_recursive(&None, true), Err(ListError::Unreadable));
}

#[test]
fn ls_rec_body_appends_under_the_given_path() {
    let mut res = vec![entry("first", EntryType::FILE)];
    let listing = Some(vec![file("x"), dir("y", vec![file("z")])]);
    assert_eq!(ls_rec_body(&mut res, &listing, "top/sub", false), Ok(()));
    assert_eq!(
        res,
        vec![
            entry("first", EntryType::FILE),
            entry("top/sub/x", EntryType::FILE),
            entry("top/sub/y", EntryType::DIR),
            entry("top/sub/y/z", EntryType::FILE),
        ]
    );
}

#[test]
fn ls_rec_body_leaves_the_list_alone_on_failure() {
    let mut res = vec![entry("first", EntryType::FILE)];
    assert_eq!(
        ls_rec_body(&mut res, &None, "top", false),
        Err(ListError::Unreadable)
    );
    assert_eq!(res, vec![entry("first", EntryType::FILE)]);
}
