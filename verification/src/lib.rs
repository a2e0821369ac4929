//! A library for showing several progress bars, together with log output, in
//! a terminal.
//!
//! A task is anything that implements [`TaskProgress`]; [`TaskSnapshot`] is a
//! ready-made implementation holding plain values. A [`ProgressBar`] style
//! turns one task and an available width into a line of exactly that many
//! characters. [`MultiProgressBar`] plans whole frames: it turns a sequence of
//! tasks (or a log message) and the terminal geometry into the exact sequence
//! of terminal commands that paints the bottom of the screen, leaving the
//! region above free to scroll.

use vstd::prelude::*;

pub mod bar;
pub mod text;

use crate::text::opt_view;
use crate::text::pad_line;
use crate::text::pad_right;

verus! {

/// The mathematical snapshot of one task: its two counters and the optional
/// labels shown to the left and right of the bar.
#[verifier::ext_equal]
pub ghost struct TaskView {
    /// Progress made so far.
    pub current: u64,
    /// The amount of work that counts as complete; zero means unknown.
    pub total: u64,
    /// Label shown to the left of the bar.
    pub before: Option<Seq<char>>,
    /// Label shown to the right of the bar.
    pub after: Option<Seq<char>>,
}

/// One unit of running work: a pair of progress counters plus optional labels
/// around the bar.
pub trait TaskProgress: Sized {
    /// The mathematical snapshot: the counters and labels that the three
    /// accessor methods return.
    spec fn task_view(&self) -> TaskView;

    /// Returns the current progress and the total progress.
    fn progress(&self) -> (r: (u64, u64))
        ensures
            r.0 == self.task_view().current,
            r.1 == self.task_view().total,
    ;

    /// Returns the message to show before the progress bar.
    fn before(&self) -> (r: Option<String>)
        ensures
            opt_view(r) == self.task_view().before,
    ;

    /// Returns the message to show after the progress bar.
    fn after(&self) -> (r: Option<String>)
        ensures
            opt_view(r) == self.task_view().after,
    ;
}

/// A task snapshot held as plain values.
pub struct TaskSnapshot {
    /// Progress made so far.
    pub current: u64,
    /// The amount of work that counts as complete; zero means unknown.
    pub total: u64,
    /// Label shown to the left of the bar.
    pub before: Option<String>,
    /// Label shown to the right of the bar.
    pub after: Option<String>,
}

impl TaskProgress for TaskSnapshot {
    open spec fn task_view(&self) -> TaskView {
        TaskView {
            current: self.current,
            total: self.total,
            before: opt_view(self.before),
            after: opt_view(self.after),
        }
    }

    fn progress(&self) -> (r: (u64, u64)) {
        (self.current, self.total)
    }

    fn before(&self) -> (r: Option<String>) {
        match &self.before {
            Some(s) => Some(s.clone()),
            None => None,
        }
    }

    fn after(&self) -> (r: Option<String>) {
        match &self.after {
            Some(s) => Some(s.clone()),
            None => None,
        }
    }
}

/// The appearance of a progress bar: a style that renders one task as a line
/// of exactly the requested width.
pub trait ProgressBar: Sized {
    /// The task type this style renders.
    type Task: TaskProgress;

    /// The exact line this style renders for snapshot `t` at width `w`.
    spec fn line_spec(&self, t: TaskView, w: int) -> Seq<char>;

    /// Every rendered line is exactly `w` characters, for every snapshot.
    proof fn lemma_line_len(&self, t: TaskView, w: int)
        requires
            w >= 0,
        ensures
            self.line_spec(t, w).len() == w,
    ;

    /// Formats one line of a progress bar to show in the terminal.
    fn format_line(&self, progress: &Self::Task, width: usize) -> (r: String)
        ensures
            r@ == self.line_spec(progress.task_view(), width as int),
            r@.len() == width,
    ;
}

/// One terminal command of a planned frame. Executing the commands of a
/// frame in order, against a terminal backend, paints that frame.
#[derive(Debug, PartialEq, Eq)]
pub enum TermCommand {
    /// Move the cursor to an absolute row (counted from 0 at the top).
    MoveToRow(u16),
    /// Move the cursor to an absolute column (counted from 0 at the left).
    MoveToColumn(u16),
    /// Move the cursor down by the given number of rows.
    MoveDown(u16),
    /// Scroll the visible region up by the given number of lines.
    ScrollUp(u16),
    /// Begin an atomic update batch, so that no partial frame is shown.
    BeginSync,
    /// End the atomic update batch.
    EndSync,
    /// Write text at the cursor position.
    Write(String),
}

/// The mathematical view of one terminal command.
#[verifier::ext_equal]
pub ghost enum CmdView {
    /// Move the cursor to an absolute row.
    MoveToRow(u16),
    /// Move the cursor to an absolute column.
    MoveToColumn(u16),
    /// Move the cursor down by the given number of rows.
    MoveDown(u16),
    /// Scroll the visible region up by the given number of lines.
    ScrollUp(u16),
    /// Begin an atomic update batch.
    BeginSync,
    /// End the atomic update batch.
    EndSync,
    /// Write the given characters at the cursor position.
    Write(Seq<char>),
}

impl View for TermCommand {
    type V = CmdView;

    open spec fn view(&self) -> CmdView {
        match self {
            TermCommand::MoveToRow(r) => CmdView::MoveToRow(*r),
            TermCommand::MoveToColumn(c) => CmdView::MoveToColumn(*c),
            TermCommand::MoveDown(n) => CmdView::MoveDown(*n),
            TermCommand::ScrollUp(n) => CmdView::ScrollUp(*n),
            TermCommand::BeginSync => CmdView::BeginSync,
            TermCommand::EndSync => CmdView::EndSync,
            TermCommand::Write(s) => CmdView::Write(s@),
        }
    }
}

/// The views of a planned command sequence, in order.
pub open spec fn cmds_view(s: Seq<TermCommand>) -> Seq<CmdView> {
    s.map_values(|c: TermCommand| c@)
}

/// The snapshots of a sequence of tasks, in order.
pub open spec fn views_of<T: TaskProgress>(tasks: Seq<T>) -> Seq<TaskView> {
    tasks.map_values(|t: T| t.task_view())
}

/// The three commands that paint one progress row per task, in task order:
/// return to the left edge, step one row down, write the formatted line.
pub open spec fn task_rows<P: ProgressBar>(bar: P, tasks: Seq<TaskView>, width: u16) -> Seq<
    CmdView,
>
    decreases tasks.len(),
{
    if tasks.len() == 0 {
        Seq::empty()
    } else {
        task_rows(bar, tasks.drop_last(), width) + seq![
            CmdView::MoveToColumn(0),
            CmdView::MoveDown(1),
            CmdView::Write(bar.line_spec(tasks.last(), width as int)),
        ]
    }
}

/// The whole frame that draws the progress region: position the cursor just
/// above the bottom `tasks.len()` rows, paint one row per task, all inside
/// one atomic batch.
pub open spec fn draw_frame<P: ProgressBar>(
    bar: P,
    tasks: Seq<TaskView>,
    width: u16,
    height: u16,
) -> Seq<CmdView> {
    seq![
        CmdView::BeginSync,
        CmdView::MoveToColumn(0),
        CmdView::MoveToRow((height - tasks.len() - 1) as u16),
    ] + task_rows(bar, tasks, width) + seq![CmdView::EndSync, CmdView::MoveToColumn(0)]
}

/// The commands that write one log line: move to the scroll anchor row just
/// above the progress region, open a row by scrolling the region above, and
/// write the message padded to the full terminal width.
pub open spec fn log_frame(msg: Seq<char>, ntasks: int, width: u16, height: u16) -> Seq<CmdView> {
    seq![
        CmdView::MoveToRow((height - ntasks - 1) as u16),
        CmdView::MoveToColumn(0),
        CmdView::ScrollUp(1),
        CmdView::Write(pad_right(msg, width as int)),
    ]
}

/// Planned frames are a function of the snapshots and the geometry alone:
/// drawing twice with unchanged tasks and an unchanged terminal size emits
/// byte-identical command sequences.
pub proof fn lemma_draw_idempotent<P: ProgressBar>(
    bar: P,
    tasks: Seq<TaskView>,
    width: u16,
    height: u16,
    frame1: Seq<CmdView>,
    frame2: Seq<CmdView>,
)
    requires
        frame1 == draw_frame(bar, tasks, width, height),
        frame2 == draw_frame(bar, tasks, width, height),
    ensures
        frame1 == frame2,
{
}

/// A frame paints three commands per task.
pub proof fn lemma_task_rows_len<P: ProgressBar>(bar: P, tasks: Seq<TaskView>, width: u16)
    ensures
        task_rows(bar, tasks, width).len() == 3 * tasks.len(),
    decreases tasks.len(),
{
    if tasks.len() > 0 {
        lemma_task_rows_len(bar, tasks.drop_last(), width);
    }
}

/// Row assignment is positional: a planned frame holds three commands per
/// task between its three-command prologue and two-command epilogue, and the
/// line written in the row triple of position `i` is the line of the `i`-th
/// task of the snapshot sequence, whatever identity that task had in an
/// earlier frame.
pub proof fn lemma_draw_frame_rows<P: ProgressBar>(
    bar: P,
    tasks: Seq<TaskView>,
    width: u16,
    height: u16,
    i: int,
)
    requires
        0 <= i < tasks.len(),
    ensures
        draw_frame(bar, tasks, width, height).len() == 5 + 3 * tasks.len(),
        draw_frame(bar, tasks, width, height)[3 + 3 * i + 2] == CmdView::Write(
            bar.line_spec(tasks[i], width as int),
        ),
{
    lemma_task_rows_len(bar, tasks, width);
    lemma_task_rows_index(bar, tasks, width, i);
}

/// The row triple of position `i` ends with the line of task `i`.
proof fn lemma_task_rows_index<P: ProgressBar>(bar: P, tasks: Seq<TaskView>, width: u16, i: int)
    requires
        0 <= i < tasks.len(),
    ensures
        task_rows(bar, tasks, width)[3 * i + 2] == CmdView::Write(
            bar.line_spec(tasks[i], width as int),
        ),
    decreases tasks.len(),
{
    lemma_task_rows_len(bar, tasks.drop_last(), width);
    if i < tasks.len() - 1 {
        lemma_task_rows_index(bar, tasks.drop_last(), width, i);
        assert(tasks.drop_last()[i] == tasks[i]);
    }
}

/// The main struct of this library: it plans the drawing of progress bars
/// and of log output as terminal command sequences.
pub struct MultiProgressBar<P: ProgressBar> {
    progress_bar: P,
}

impl<P: ProgressBar> MultiProgressBar<P> {
    /// The style this renderer draws with.
    pub closed spec fn style(&self) -> P {
        self.progress_bar
    }

    /// Creates a new MultiProgressBar with the given ProgressBar style.
    pub fn new(progress_bar: P) -> (r: Self)
        ensures
            r.style() == progress_bar,
    {
        MultiProgressBar { progress_bar }
    }

    /// Plans the commands that log a message in the row just above the
    /// `ntasks` pinned progress rows, padded to the terminal width.
    pub fn log_commands(&self, msg: &str, ntasks: usize, width: u16, height: u16) -> (r: Vec<
        TermCommand,
    >)
        requires
            ntasks + 1 <= height,
        ensures
            cmds_view(r@) == log_frame(msg@, ntasks as int, width, height),
    {
        let mut cmds: Vec<TermCommand> = Vec::new();
        cmds.push(TermCommand::MoveToRow(height - (ntasks as u16) - 1));
        cmds.push(TermCommand::MoveToColumn(0));
        cmds.push(TermCommand::ScrollUp(1));
        cmds.push(TermCommand::Write(pad_line(msg, width as usize)));
        proof {
            assert(cmds_view(cmds@) =~= log_frame(msg@, ntasks as int, width, height));
        }
        cmds
    }

    /// Plans the frame that draws one progress row per task in the bottom
    /// `tasks.len()` rows of the terminal, in task order, as one atomic
    /// batch.
    pub fn draw_commands(&self, tasks: &Vec<P::Task>, width: u16, height: u16) -> (r: Vec<
        TermCommand,
    >)
        requires
            tasks@.len() + 1 <= height,
        ensures
            cmds_view(r@) == draw_frame(self.style(), views_of(tasks@), width, height),
    {
        let n: usize = tasks.len();
        let ghost views = views_of(tasks@);
        let ghost prefix = seq![
            CmdView::BeginSync,
            CmdView::MoveToColumn(0),
            CmdView::MoveToRow((height - n - 1) as u16),
        ];
        let mut cmds: Vec<TermCommand> = Vec::new();
        cmds.push(TermCommand::BeginSync);
        cmds.push(TermCommand::MoveToColumn(0));
        cmds.push(TermCommand::MoveToRow(height - (n as u16) - 1));
        proof {
            assert(cmds_view(cmds@) =~= prefix + task_rows(self.style(), views.take(0), width));
        }
        let mut i: usize = 0;
        while i < n
            invariant
                i <= n,
                n == tasks@.len(),
                views == views_of(tasks@),
                prefix == seq![
                    CmdView::BeginSync,
                    CmdView::MoveToColumn(0),
                    CmdView::MoveToRow((height - n - 1) as u16),
                ],
                cmds_view(cmds@) == prefix + task_rows(self.style(), views.take(i as int), width),
            decreases n - i,
        {
            let line = self.progress_bar.format_line(&tasks[i], width as usize);
            let ghost prev = cmds@;
            cmds.push(TermCommand::MoveToColumn(0));
            cmds.push(TermCommand::MoveDown(1));
            cmds.push(TermCommand::Write(line));
            proof {
                let ghost step = seq![
                    CmdView::MoveToColumn(0),
                    CmdView::MoveDown(1),
                    CmdView::Write(line@),
                ];
                assert(cmds_view(cmds@) =~= cmds_view(prev) + step);
                assert(views.take(i + 1).drop_last() =~= views.take(i as int));
                assert(views.take(i + 1).last() == views[i as int]);
                assert(views[i as int] == tasks@[i as int].task_view());
                assert(task_rows(self.style(), views.take(i + 1), width) == task_rows(
                    self.style(),
                    views.take(i as int),
                    width,
                ) + step);
                assert(cmds_view(cmds@) =~= prefix + task_rows(
                    self.style(),
                    views.take(i + 1),
                    width,
                ));
            }
            i = i + 1;
        }
        cmds.push(TermCommand::EndSync);
        cmds.push(TermCommand::MoveToColumn(0));
        proof {
            assert(views.take(n as int) =~= views);
            assert(cmds_view(cmds@) =~= draw_frame(self.style(), views, width, height));
        }
        cmds
    }
}

} // verus!
