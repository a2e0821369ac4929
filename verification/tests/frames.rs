use multi_progressbar::MultiProgressBar;
use multi_progressbar::TaskSnapshot;
use multi_progressbar::TermCommand;
use multi_progressbar::bar::classic::ClassicProgressBar;

fn renderer() -> MultiProgressBar<ClassicProgressBar<TaskSnapshot>> {
    MultiProgressBar::new(ClassicProgressBar::new())
}

fn plain(current: u64, total: u64) -> TaskSnapshot {
    TaskSnapshot { current, total, before: None, after: None }
}

#[test]
fn log_pads_message_to_terminal_width() {
    let mp = renderer();
    let cmds = mp.log_commands("hi", 2, 5, 10);
    assert_eq!(
        cmds,
        vec![
            TermCommand::MoveToRow(7),
            TermCommand::MoveToColumn(0),
            TermCommand::ScrollUp(1),
            TermCommand::Write(String::from("hi   ")),
        ]
    );
}

#[test]
fn log_keeps_long_message_unchanged() {
    let mp = renderer();
    let cmds = mp.log_commands("hello", 0, 3, 4);
    assert_eq!(cmds[3], TermCommand::Write(String::from("hello")));
}

#[test]
fn draw_paints_one_row_per_task_in_order() {
    let mp = renderer();
    let tasks = vec![plain(0, 10), plain(10, 10)];
    let cmds = mp.draw_commands(&tasks, 10, 10);
    assert_eq!(
        cmds,
        vec![
            TermCommand::BeginSync,
            TermCommand::MoveToColumn(0),
            TermCommand::MoveToRow(7),
            TermCommand::MoveToColumn(0),
            TermCommand::MoveDown(1),
            TermCommand::Write(String::from("[        ]")),
            TermCommand::MoveToColumn(0),
            TermCommand::MoveDown(1),
            TermCommand::Write(String::from("[========]")),
            TermCommand::EndSync,
            TermCommand::MoveToColumn(0),
        ]
    );
}

#[test]
fn draw_with_no_tasks_only_frames_the_region() {
    let mp = renderer();
    let tasks: Vec<TaskSnapshot> = Vec::new();
    let cmds = mp.draw_commands(&tasks, 10, 5);
    assert_eq!(
        cmds,
        vec![
            TermCommand::BeginSync,
            TermCommand::MoveToColumn(0),
            TermCommand::MoveToRow(4),
            TermCommand::EndSync,
            TermCommand::MoveToColumn(0),
        ]
    );
}

#[test]
fn draw_twice_emits_identical_frames() {
    let mp = renderer();
    let tasks = vec![plain(3, 7), plain(7, 7), plain(0, 0)];
    let first = mp.draw_commands(&tasks, 24, 30);
    let second = mp.draw_commands(&tasks, 24, 30);
    assert_eq!(first, second);
}
