use multi_progressbar::TaskProgress;
use multi_progressbar::TaskSnapshot;
use multi_progressbar::ProgressBar;
use multi_progressbar::bar::block::BlockProgressBar;
use multi_progressbar::bar::classic::ClassicProgressBar;

fn snap(current: u64, total: u64, before: Option<&str>, after: Option<&str>) -> TaskSnapshot {
    TaskSnapshot {
        current,
        total,
        before: before.map(String::from),
        after: after.map(String::from),
    }
}

#[test]
fn classic_half_with_before_label() {
    let bar = ClassicProgressBar::new();
    let line = bar.format_line(&snap(5, 10, Some("A"), None), 20);
    assert_eq!(line, "A[========         ]");
    assert_eq!(line.chars().count(), 20);
}

#[test]
fn classic_zero_progress_is_empty_bar() {
    let bar = ClassicProgressBar::new();
    assert_eq!(bar.format_line(&snap(0, 10, None, None), 10), "[        ]");
}

#[test]
fn classic_complete_is_full_bar() {
    let bar = ClassicProgressBar::new();
    assert_eq!(bar.format_line(&snap(10, 10, None, None), 10), "[========]");
}

#[test]
fn classic_past_total_clamps_to_full_bar() {
    let bar = ClassicProgressBar::new();
    assert_eq!(bar.format_line(&snap(99, 10, None, None), 10), "[========]");
}

#[test]
fn unknown_total_renders_blank() {
    let classic = ClassicProgressBar::new();
    let block = BlockProgressBar::new();
    let task = snap(7, 0, Some("abc"), Some("d"));
    assert_eq!(classic.format_line(&task, 10), "          ");
    assert_eq!(block.format_line(&task, 10), "          ");
}

#[test]
fn labels_wider_than_line_render_blank() {
    let classic = ClassicProgressBar::new();
    let block = BlockProgressBar::new();
    let task = snap(5, 10, Some("aaaaaaaaa"), Some("bbbbbbbbb"));
    assert_eq!(classic.format_line(&task, 10), "          ");
    assert_eq!(block.format_line(&task, 10), "          ");
}

#[test]
fn zero_width_renders_empty_string() {
    let classic = ClassicProgressBar::new();
    let block = BlockProgressBar::new();
    let task = snap(5, 10, None, None);
    assert_eq!(classic.format_line(&task, 0), "");
    assert_eq!(block.format_line(&task, 0), "");
}

#[test]
fn block_whole_columns_without_partial() {
    let bar = BlockProgressBar::new();
    assert_eq!(bar.format_line(&snap(5, 10, None, None), 12), "[█████     ]");
}

#[test]
fn block_partial_glyph_from_ramp() {
    // bar width 10, progress 1/3: 3 whole columns, remainder 1/3 of a
    // column, ramp index floor(1/3 * 8) = 2, then 6 spaces.
    let bar = BlockProgressBar::new();
    let line = bar.format_line(&snap(1, 3, None, None), 12);
    assert_eq!(line, "[███▎      ]");
    assert_eq!(line.chars().count(), 12);
}

#[test]
fn block_zero_progress_is_empty_bar() {
    let bar = BlockProgressBar::new();
    assert_eq!(bar.format_line(&snap(0, 10, None, None), 12), "[          ]");
}

#[test]
fn block_past_total_clamps_to_full_bar() {
    let bar = BlockProgressBar::new();
    assert_eq!(bar.format_line(&snap(20, 10, None, None), 12), "[██████████]");
}

#[test]
fn labels_measured_in_characters() {
    // The label is one character but three bytes; two columns remain for
    // the bar body.
    let classic = ClassicProgressBar::new();
    assert_eq!(classic.format_line(&snap(1, 2, Some("█"), None), 5), "█[= ]");
    let block = BlockProgressBar::new();
    assert_eq!(block.format_line(&snap(1, 2, Some("█"), None), 5), "█[█ ]");
}

#[test]
fn snapshot_reports_its_fields() {
    let task = snap(3, 9, Some("a"), Some("b"));
    assert_eq!(task.progress(), (3, 9));
    assert_eq!(task.before(), Some(String::from("a")));
    assert_eq!(task.after(), Some(String::from("b")));
    let bare = snap(0, 0, None, None);
    assert_eq!(bare.before(), None);
    assert_eq!(bare.after(), None);
}
