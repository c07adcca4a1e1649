use delete::chunk::split_into_chunks;
use delete::walk::{partition_entries, Entry};

fn paths(names: &[&str]) -> Vec<String> {
    names.iter().map(|n| n.to_string()).collect()
}

#[test]
fn uneven_split_has_short_last_chunk() {
    let chunks = split_into_chunks(paths(&["a", "b", "c", "d", "e", "f", "g"]), 3);
    assert_eq!(
        chunks,
        vec![paths(&["a", "b", "c"]), paths(&["d", "e", "f"]), paths(&["g"])]
    );
}

#[test]
fn even_split_has_full_last_chunk() {
    let chunks = split_into_chunks(paths(&["a", "b", "c", "d", "e", "f"]), 3);
    assert_eq!(chunks, vec![paths(&["a", "b", "c"]), paths(&["d", "e", "f"])]);
}

#[test]
fn chunk_size_one_gives_one_task_per_path() {
    let chunks = split_into_chunks(paths(&["a", "b", "c"]), 1);
    assert_eq!(chunks, vec![paths(&["a"]), paths(&["b"]), paths(&["c"])]);
}

#[test]
fn chunk_size_beyond_length_gives_single_chunk() {
    let chunks = split_into_chunks(paths(&["a", "b"]), 350);
    assert_eq!(chunks, vec![paths(&["a", "b"])]);
}

#[test]
fn no_paths_gives_no_chunks() {
    let chunks = split_into_chunks(Vec::new(), 25);
    assert!(chunks.is_empty());
}

#[test]
fn chunk_count_is_rounded_up_division() {
    for (n, size, expected) in [(7usize, 3usize, 3usize), (6, 3, 2), (1, 350, 1), (0, 350, 0), (350, 350, 1), (351, 350, 2)] {
        let list: Vec<String> = (0..n).map(|i| format!("p{}", i)).collect();
        let chunks = split_into_chunks(list, size);
        assert_eq!(chunks.len(), expected, "n={} size={}", n, size);
    }
}

fn entry(path: &str, is_file: bool) -> Entry {
    Entry { path: path.to_string(), is_file }
}

#[test]
fn partition_splits_by_kind_in_order() {
    let entries = vec![
        entry("root", false),
        entry("root/a.txt", true),
        entry("root/sub", false),
        entry("root/sub/b.txt", true),
        entry("root/c.txt", true),
    ];
    let (files, folders) = partition_entries(entries);
    assert_eq!(files, paths(&["root/a.txt", "root/sub/b.txt", "root/c.txt"]));
    assert_eq!(folders, paths(&["root", "root/sub"]));
}

#[test]
fn partition_of_nothing_is_empty() {
    let (files, folders) = partition_entries(Vec::new());
    assert!(files.is_empty());
    assert!(folders.is_empty());
}

#[test]
fn partition_keeps_duplicate_paths() {
    let entries = vec![entry("x", true), entry("x", true), entry("x", false)];
    let (files, folders) = partition_entries(entries);
    assert_eq!(files, paths(&["x", "x"]));
    assert_eq!(folders, paths(&["x"]));
}
