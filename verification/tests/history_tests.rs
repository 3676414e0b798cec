use slappyshot::history::{AnnotationEntry, History};

fn shape(id: u64) -> AnnotationEntry {
    AnnotationEntry { id, marker: None }
}

fn ids(h: &History) -> Vec<u64> {
    h.annotations().iter().map(|e| e.id).collect()
}

#[test]
fn undo_reverts_commit_and_redo_restores() {
    let mut h = History::new();
    h.commit(shape(1));
    h.commit(shape(2));
    assert_eq!(ids(&h), vec![1, 2]);
    h.undo();
    assert_eq!(ids(&h), vec![1]);
    assert!(h.can_redo());
    h.redo();
    assert_eq!(ids(&h), vec![1, 2]);
    assert!(!h.can_redo());
}

#[test]
fn commit_clears_redo() {
    let mut h = History::new();
    h.commit(shape(1));
    h.undo();
    assert!(h.can_redo());
    h.commit(shape(3));
    assert!(!h.can_redo());
    h.redo();
    assert_eq!(ids(&h), vec![3]);
}

#[test]
fn undo_and_redo_on_empty_stacks() {
    let mut h = History::new();
    h.undo();
    h.redo();
    assert!(h.annotations().is_empty());
    assert_eq!(h.marker_counter(), 1);
}

#[test]
fn markers_are_numbered_and_resynced() {
    let mut h = History::new();
    h.add_marker(1);
    h.add_marker(2);
    h.add_marker(3);
    let numbers: Vec<Option<u16>> = h.annotations().iter().map(|e| e.marker).collect();
    assert_eq!(numbers, vec![Some(1), Some(2), Some(3)]);
    assert_eq!(h.marker_counter(), 4);
    h.undo();
    assert_eq!(h.marker_counter(), 3);
    h.undo();
    h.undo();
    assert_eq!(h.marker_counter(), 1);
    h.redo();
    assert_eq!(h.marker_counter(), 2);
}

#[test]
fn reset_marker_counter() {
    let mut h = History::new();
    h.add_marker(1);
    h.reset_marker_counter();
    assert_eq!(h.marker_counter(), 1);
    h.sync_marker_counter();
    assert_eq!(h.marker_counter(), 2);
}

#[test]
fn relabel_keeps_markers_and_stacks() {
    let mut h = History::new();
    h.commit(shape(1));
    h.add_marker(2);
    h.relabel(&vec![10, 20]);
    assert_eq!(ids(&h), vec![10, 20]);
    assert_eq!(h.annotations()[1].marker, Some(1));
    h.undo();
    assert_eq!(ids(&h), vec![1]);
}

#[test]
fn remove_and_replace_can_be_undone() {
    let mut h = History::new();
    h.commit(shape(1));
    h.commit(shape(2));
    h.commit(shape(3));
    h.remove(1);
    assert_eq!(ids(&h), vec![1, 3]);
    h.replace(0, 7);
    assert_eq!(ids(&h), vec![7, 3]);
    h.undo();
    assert_eq!(ids(&h), vec![1, 3]);
    h.undo();
    assert_eq!(ids(&h), vec![1, 2, 3]);
}
