use bat::annotate::{compute_line_changes, Hunk, LineChange};

#[test]
fn added_hunk_marks_new_range() {
    let hunks = vec![Hunk { old_start: 3, old_lines: 0, new_start: 5, new_lines: 2 }];
    let changes = compute_line_changes(&hunks);
    assert_eq!(changes.get(&5), Some(&LineChange::Added));
    assert_eq!(changes.get(&6), Some(&LineChange::Added));
    assert_eq!(changes.get(&4), None);
    assert_eq!(changes.get(&7), None);
    assert_eq!(changes.len(), 2);
}

#[test]
fn deletion_at_top_marks_line_one() {
    let hunks = vec![Hunk { old_start: 1, old_lines: 3, new_start: 0, new_lines: 0 }];
    let changes = compute_line_changes(&hunks);
    assert_eq!(changes.get(&1), Some(&LineChange::RemovedAbove));
    assert_eq!(changes.len(), 1);
}

#[test]
fn deletion_below_marks_surviving_line() {
    let hunks = vec![Hunk { old_start: 5, old_lines: 2, new_start: 4, new_lines: 0 }];
    let changes = compute_line_changes(&hunks);
    assert_eq!(changes.get(&4), Some(&LineChange::RemovedBelow));
    assert_eq!(changes.len(), 1);
}

#[test]
fn mixed_hunk_marks_modified() {
    let hunks = vec![Hunk { old_start: 10, old_lines: 2, new_start: 10, new_lines: 2 }];
    let changes = compute_line_changes(&hunks);
    assert_eq!(changes.get(&10), Some(&LineChange::Modified));
    assert_eq!(changes.get(&11), Some(&LineChange::Modified));
    assert_eq!(changes.len(), 2);
}

#[test]
fn later_hunk_wins_on_overlap() {
    let added = Hunk { old_start: 4, old_lines: 0, new_start: 5, new_lines: 2 };
    let modified = Hunk { old_start: 5, old_lines: 1, new_start: 5, new_lines: 1 };
    let changes = compute_line_changes(&vec![added, modified]);
    assert_eq!(changes.get(&5), Some(&LineChange::Modified));
    assert_eq!(changes.get(&6), Some(&LineChange::Added));

    let changes = compute_line_changes(&vec![modified, added]);
    assert_eq!(changes.get(&5), Some(&LineChange::Added));
    assert_eq!(changes.get(&6), Some(&LineChange::Added));
}

#[test]
fn no_hunks_leave_no_changes() {
    let changes = compute_line_changes(&Vec::new());
    assert!(changes.is_empty());
}

#[test]
fn empty_hunk_marks_nothing() {
    let hunks = vec![Hunk { old_start: 0, old_lines: 0, new_start: 3, new_lines: 0 }];
    let changes = compute_line_changes(&hunks);
    assert!(changes.is_empty());
}

#[test]
fn hunks_at_the_largest_line_numbers() {
    let hunks = vec![Hunk { old_start: 1, old_lines: 0, new_start: u32::MAX, new_lines: 1 }];
    let changes = compute_line_changes(&hunks);
    assert_eq!(changes.get(&u32::MAX), Some(&LineChange::Added));
    assert_eq!(changes.len(), 1);
}
