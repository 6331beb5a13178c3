use incbackup::files::{
    CollectorFileHandler, CopyFileHandler, EntryKind, FileHandler, FileMeta, FileOp,
    LinkOrCopyFileHandler, TreeWalk, Visit,
};
use incbackup::path::{dest_dir_from_src_leaf_dir, FsPath};
use incbackup::time::FileTime;

/// An in-memory directory tree.
enum Node {
    Dir(&'static str, Vec<Node>),
    File(&'static str, u64, i64),
}

impl Node {
    fn name(&self) -> &'static str {
        match self {
            Node::Dir(n, _) => n,
            Node::File(n, _, _) => n,
        }
    }
}

/// What a run asked for, with paths written out.
#[derive(Debug, PartialEq)]
enum Done {
    MkDir(String),
    Copy(String, String, u64),
    Link(String, String),
}

fn abs(parts: &[&str]) -> FsPath {
    FsPath::new("/".to_string(), parts.iter().map(|p| p.to_string()).collect())
}

fn show(p: &FsPath) -> String {
    format!("{}{}", p.anchor, p.parts.join("/"))
}

fn children<'a>(root: &'a [Node], rel: &[String]) -> &'a [Node] {
    let mut here = root;
    for name in rel {
        here = here
            .iter()
            .find_map(|n| match n {
                Node::Dir(d, c) if d == name => Some(c.as_slice()),
                _ => None,
            })
            .unwrap();
    }
    here
}

fn find_file(root: &[Node], rel: &[String]) -> (u64, i64) {
    let (last, dirs) = rel.split_last().unwrap();
    children(root, dirs)
        .iter()
        .find_map(|n| match n {
            Node::File(f, len, t) if f == last => Some((*len, *t)),
            _ => None,
        })
        .unwrap()
}

/// Walks the tree `root` as the program walks a disk, letting `h` decide.
fn run<H: FileHandler>(root: &[Node], excluded: &[&str], h: &mut H) -> Vec<Done> {
    let excluded: Vec<String> = excluded.iter().map(|s| s.to_string()).collect();
    let mut walk = TreeWalk::new(&excluded);
    let mut out = Vec::new();
    while let Some(dir) = walk.next_dir() {
        for node in children(root, &dir) {
            let kind = match node {
                Node::Dir(..) => EntryKind::Dir,
                Node::File(..) => EntryKind::File,
            };
            match walk.visit(node.name().to_string(), kind) {
                Visit::Skip => {}
                Visit::Dir(p) => {
                    if let Some(d) = h.dir(&p) {
                        out.push(Done::MkDir(show(&d)));
                    }
                }
                Visit::File(p) => {
                    let (len, t) = find_file(root, &p);
                    let meta = FileMeta { len, modified: Some(FileTime::new(t, 0)) };
                    if let Some(op) = h.file(&p, &meta) {
                        match &op {
                            FileOp::Copy { from, to } => {
                                out.push(Done::Copy(show(from), show(to), len))
                            }
                            FileOp::Link { target, link } => {
                                out.push(Done::Link(show(target), show(link)))
                            }
                        }
                        let moved = if let FileOp::Copy { .. } = op { len } else { 0 };
                        assert!(h.done(&op, moved));
                    }
                }
            }
        }
    }
    out
}

fn first_run(src: &[Node], excluded: &[&str]) -> (Vec<Done>, CopyFileHandler) {
    let mut h = CopyFileHandler {
        src_base_dir: abs(&["home", "src"]),
        dest_dir: abs(&["backup", "gen1", "src"]),
        bytes_copied: 0,
        files_copied: 0,
    };
    let out = run(src, excluded, &mut h);
    (out, h)
}

/// The first generation as it lies on disk: the source tree under its leaf name.
fn as_generation(src: Vec<Node>) -> Vec<Node> {
    vec![Node::Dir("src", src)]
}

fn second_run(prev: &[Node], src: &[Node], excluded: &[&str]) -> (Vec<Done>, u64, u64) {
    let mut collector = CollectorFileHandler::new();
    assert!(run(prev, excluded, &mut collector).is_empty());
    let src_base = abs(&["home", "src"]);
    let mut prefix = FsPath::empty();
    assert_eq!(dest_dir_from_src_leaf_dir(&src_base, &FsPath::empty(), &mut prefix), Some(()));
    let mut h = LinkOrCopyFileHandler {
        prev_files: &collector.files,
        prev_key_prefix: prefix.parts,
        src_base_dir: src_base,
        dest_dir: abs(&["backup", "gen2", "src"]),
        prev_dir: abs(&["backup", "gen1", "src"]),
        min_diff_secs: 1,
        bytes_copied: 0,
        files_copied: 0,
        verbose: false,
    };
    let out = run(src, excluded, &mut h);
    (out, h.bytes_copied, h.files_copied)
}

const T: i64 = 1_700_000_000;

#[test]
fn first_run_copies_single_file() {
    let src = vec![Node::File("data.txt", 100, T)];
    let (out, h) = first_run(&src, &[]);
    assert_eq!(
        out,
        vec![Done::Copy(
            "/home/src/data.txt".to_string(),
            "/backup/gen1/src/data.txt".to_string(),
            100
        )]
    );
    assert_eq!(h.files_copied, 1);
    assert_eq!(h.bytes_copied, 100);
}

#[test]
fn unchanged_file_is_linked_to_previous_copy() {
    let prev = as_generation(vec![Node::File("data.txt", 100, T)]);
    let src = vec![Node::File("data.txt", 100, T)];
    let (out, bytes, files) = second_run(&prev, &src, &[]);
    assert_eq!(
        out,
        vec![Done::Link(
            "/backup/gen1/src/data.txt".to_string(),
            "/backup/gen2/src/data.txt".to_string()
        )]
    );
    assert_eq!(files, 0);
    assert_eq!(bytes, 0);
}

#[test]
fn grown_file_is_copied() {
    let prev = as_generation(vec![Node::File("data.txt", 100, T)]);
    let src = vec![Node::File("data.txt", 150, T + 60)];
    let (out, bytes, files) = second_run(&prev, &src, &[]);
    assert_eq!(
        out,
        vec![Done::Copy(
            "/home/src/data.txt".to_string(),
            "/backup/gen2/src/data.txt".to_string(),
            150
        )]
    );
    assert_eq!(files, 1);
    assert_eq!(bytes, 150);
}

#[test]
fn resized_file_with_same_time_is_copied() {
    let prev = as_generation(vec![Node::File("data.txt", 100, T)]);
    let src = vec![Node::File("data.txt", 99, T)];
    let (out, bytes, files) = second_run(&prev, &src, &[]);
    assert!(matches!(out[0], Done::Copy(..)));
    assert_eq!((bytes, files), (99, 1));
}

#[test]
fn touched_file_is_copied() {
    let prev = as_generation(vec![Node::File("data.txt", 100, T)]);
    let src = vec![Node::File("data.txt", 100, T - 1)];
    let (out, _, files) = second_run(&prev, &src, &[]);
    assert!(matches!(out[0], Done::Copy(..)));
    assert_eq!(files, 1);
}

#[test]
fn new_file_is_copied_beside_linked_one() {
    let prev = as_generation(vec![Node::File("data.txt", 100, T)]);
    let src = vec![Node::File("data.txt", 100, T), Node::File("new.txt", 50, T)];
    let (out, bytes, files) = second_run(&prev, &src, &[]);
    assert_eq!(
        out,
        vec![
            Done::Link(
                "/backup/gen1/src/data.txt".to_string(),
                "/backup/gen2/src/data.txt".to_string()
            ),
            Done::Copy(
                "/home/src/new.txt".to_string(),
                "/backup/gen2/src/new.txt".to_string(),
                50
            ),
        ]
    );
    assert_eq!((bytes, files), (50, 1));
}

#[test]
fn excluded_directory_is_absent_at_any_depth() {
    let src = vec![
        Node::File("keep.txt", 1, T),
        Node::Dir(
            "tmp",
            vec![Node::File("a", 5, T), Node::Dir("deeper", vec![Node::File("b", 6, T)])],
        ),
        Node::Dir("docs", vec![Node::Dir("tmp", vec![Node::File("c", 7, T)])]),
    ];
    let (out, h) = first_run(&src, &["tmp"]);
    assert_eq!(
        out,
        vec![
            Done::Copy(
                "/home/src/keep.txt".to_string(),
                "/backup/gen1/src/keep.txt".to_string(),
                1
            ),
            Done::MkDir("/backup/gen1/src/docs".to_string()),
        ]
    );
    assert_eq!((h.bytes_copied, h.files_copied), (1, 1));
}

#[test]
fn directory_structure_is_mirrored() {
    let src = vec![Node::Dir(
        "a",
        vec![Node::Dir("b", vec![Node::File("f", 3, T)]), Node::Dir("c", vec![])],
    )];
    let (out, _) = first_run(&src, &[]);
    assert_eq!(
        out,
        vec![
            Done::MkDir("/backup/gen1/src/a".to_string()),
            Done::MkDir("/backup/gen1/src/a/b".to_string()),
            Done::MkDir("/backup/gen1/src/a/c".to_string()),
            Done::Copy("/home/src/a/b/f".to_string(), "/backup/gen1/src/a/b/f".to_string(), 3),
        ]
    );
}

#[test]
fn second_run_mirrors_directories_and_links_nested_files() {
    let prev = as_generation(vec![Node::Dir("a", vec![Node::File("f", 3, T)])]);
    let src = vec![Node::Dir("a", vec![Node::File("f", 3, T)])];
    let (out, bytes, files) = second_run(&prev, &src, &[]);
    assert_eq!(
        out,
        vec![
            Done::MkDir("/backup/gen2/src/a".to_string()),
            Done::Link("/backup/gen1/src/a/f".to_string(), "/backup/gen2/src/a/f".to_string()),
        ]
    );
    assert_eq!((bytes, files), (0, 0));
}

#[test]
fn empty_source_does_nothing() {
    let (out, h) = first_run(&[], &[]);
    assert!(out.is_empty());
    assert_eq!((h.bytes_copied, h.files_copied), (0, 0));
}
