use compact_path_tree::Component;
use compact_path_tree::CompactPathTree;
use compact_path_tree::DefaultVisitor;
use compact_path_tree::EntryKind;
use compact_path_tree::ErrorKind;
use compact_path_tree::PathVisitor;
use compact_path_tree::RecordOutcome;
use compact_path_tree::ScreenOutcome;
use compact_path_tree::TreeBuilder;
use compact_path_tree::TreeError;
use compact_path_tree::screen_entry;

fn s(x: &str) -> String {
    x.to_string()
}

fn path(components: &[&str]) -> Vec<String> {
    components.iter().map(|c| s(c)).collect()
}

fn collect_paths(tree: &CompactPathTree) -> Vec<Vec<String>> {
    let mut out = Vec::new();
    let mut it = tree.iter();
    while let Some(p) = it.next() {
        out.push(p);
    }
    out
}

/// Scenario: the root directory contains a single file `a`.  The encoded
/// buffer is exactly `[Name("a"), Up]` and iteration yields `root/a` alone.
#[test]
fn scenario_single_file() {
    let mut visitor = DefaultVisitor;
    let mut builder = TreeBuilder::new();
    let dir = path(&["root"]);

    assert_eq!(
        screen_entry(&mut visitor, &dir, &s("a")),
        ScreenOutcome::Accepted
    );
    assert_eq!(
        builder.record_entry(&s("a"), Ok(EntryKind::File)),
        RecordOutcome::File
    );
    assert_eq!(builder.depth(), 0);

    let tree = builder.finish(path(&["root"]));
    assert_eq!(
        tree.inner(),
        &vec![Component::Name(s("a")), Component::Up]
    );
    assert_eq!(tree.root(), &path(&["root"]));
    assert_eq!(collect_paths(&tree), vec![path(&["root", "a"])]);
}

/// Scenario: the root contains directory `d`, which contains file `b`.
/// The buffer is `[Name("d"), Name("b"), Up, Up]` and iteration yields
/// `root/d` then `root/d/b`, the parent strictly first.
#[test]
fn scenario_nested_directory() {
    let mut visitor = DefaultVisitor;
    let mut builder = TreeBuilder::new();
    let root_dir = path(&["root"]);

    assert_eq!(
        screen_entry(&mut visitor, &root_dir, &s("d")),
        ScreenOutcome::Accepted
    );
    assert_eq!(
        builder.record_entry(&s("d"), Ok(EntryKind::Directory)),
        RecordOutcome::Descend
    );
    assert_eq!(builder.depth(), 1);

    let inner_dir = path(&["root", "d"]);
    assert_eq!(
        screen_entry(&mut visitor, &inner_dir, &s("b")),
        ScreenOutcome::Accepted
    );
    assert_eq!(
        builder.record_entry(&s("b"), Ok(EntryKind::File)),
        RecordOutcome::File
    );
    builder.ascend();
    assert_eq!(builder.depth(), 0);

    let tree = builder.finish(path(&["root"]));
    assert_eq!(
        tree.inner(),
        &vec![
            Component::Name(s("d")),
            Component::Name(s("b")),
            Component::Up,
            Component::Up,
        ]
    );
    assert_eq!(
        collect_paths(&tree),
        vec![path(&["root", "d"]), path(&["root", "d", "b"])]
    );
}

/// Scenario: a file's type query fails with a permission-denied error under
/// the default policy.  The error handler's verdict is to ignore, so the entry
/// is skipped — absent from the buffer and from iteration — and
/// construction otherwise succeeds.
#[test]
fn scenario_permission_denied_type_query() {
    let mut visitor = DefaultVisitor;
    let mut builder = TreeBuilder::new();
    let dir = path(&["root"]);

    assert_eq!(
        screen_entry(&mut visitor, &dir, &s("locked")),
        ScreenOutcome::Accepted
    );
    let denied = TreeError::new(ErrorKind::PermissionDenied, s("permission denied"));
    let verdict = visitor.handle_error(denied, &dir, Some(&s("locked")));
    assert_eq!(verdict, None);
    assert_eq!(
        builder.record_entry(&s("locked"), Err(verdict)),
        RecordOutcome::Skipped
    );

    assert_eq!(
        screen_entry(&mut visitor, &dir, &s("open")),
        ScreenOutcome::Accepted
    );
    assert_eq!(
        builder.record_entry(&s("open"), Ok(EntryKind::File)),
        RecordOutcome::File
    );

    let tree = builder.finish(path(&["root"]));
    assert_eq!(
        tree.inner(),
        &vec![Component::Name(s("open")), Component::Up]
    );
    assert_eq!(collect_paths(&tree), vec![path(&["root", "open"])]);
}

/// Scenario: a file's type query fails with any other error under the
/// default policy.  The error handler's verdict is fatal; the builder hands
/// back exactly that error, the buffer is left untouched, and the build is
/// abandoned with the error — no tree is produced.
#[test]
fn scenario_fatal_type_query() {
    let mut visitor = DefaultVisitor;
    let mut builder = TreeBuilder::new();
    let dir = path(&["root"]);

    let gone = TreeError::new(ErrorKind::NotFound, s("no such file"));
    let verdict = visitor.handle_error(gone.clone(), &dir, Some(&s("ghost")));
    assert_eq!(verdict, Some(gone.clone()));
    match builder.record_entry(&s("ghost"), Err(verdict)) {
        RecordOutcome::Fatal(e) => assert_eq!(e, gone),
        other => panic!("expected a fatal verdict, got {:?}", other),
    }
    assert_eq!(builder.depth(), 0);
    let tree = builder.finish(path(&["root"]));
    assert_eq!(tree.inner(), &Vec::<Component>::new());
}

/// An empty build encodes an empty buffer and iterates over nothing.
#[test]
fn empty_tree() {
    let builder = TreeBuilder::new();
    let tree = builder.finish(path(&["root"]));
    assert_eq!(tree.inner(), &Vec::<Component>::new());
    assert_eq!(collect_paths(&tree), Vec::<Vec<String>>::new());
}

/// The buffer holds exactly two components per included entry, and
/// iteration yields exactly one path per included entry.
#[test]
fn one_path_per_entry_twice_as_many_components() {
    let mut builder = TreeBuilder::new();

    builder.record_entry(&s("d"), Ok(EntryKind::Directory));
    builder.record_entry(&s("x"), Ok(EntryKind::File));
    builder.record_entry(&s("y"), Ok(EntryKind::File));
    builder.ascend();
    builder.record_entry(&s("z"), Ok(EntryKind::Symlink));

    let tree = builder.finish(path(&["base"]));
    let yielded = collect_paths(&tree);
    assert_eq!(yielded.len(), 4);
    assert_eq!(tree.inner().len(), 2 * yielded.len());
}

/// A symbolic link is recorded like a file: stored in the tree, never
/// descended into.
#[test]
fn symlink_recorded_not_followed() {
    let mut builder = TreeBuilder::new();
    assert_eq!(
        builder.record_entry(&s("link"), Ok(EntryKind::Symlink)),
        RecordOutcome::File
    );
    assert_eq!(
        builder.record_entry(&s("dev"), Ok(EntryKind::Other)),
        RecordOutcome::File
    );
    let tree = builder.finish(path(&["root"]));
    assert_eq!(
        collect_paths(&tree),
        vec![path(&["root", "link"]), path(&["root", "dev"])]
    );
}

/// A fresh call to `iter` makes an independent cursor: two decodes of one
/// tree yield the same sequence.
#[test]
fn iteration_restarts_independently() {
    let mut builder = TreeBuilder::new();
    builder.record_entry(&s("d"), Ok(EntryKind::Directory));
    builder.record_entry(&s("f"), Ok(EntryKind::File));
    builder.ascend();
    let tree = builder.finish(path(&["r"]));

    let first = collect_paths(&tree);
    let second = collect_paths(&tree);
    assert_eq!(first, second);
    assert_eq!(first.len(), 2);
}
