//! The diff-based display update layer: retains the last rendered content of
//! the two fixed-width lines and, on each render, computes the maximal
//! contiguous runs of changed characters so that only those runs travel over
//! the bus.

use crate::lcd_interface;
use crate::lcd_interface::BusOp;
use vstd::prelude::*;
use vstd::slice::slice_to_vec;

verus! {

/// Width of one display line in characters.
pub const LINE_WIDTH: usize = 39;

/// Which screen is shown: the status screen or the material-selection menu.
#[derive(Clone, Copy, Debug, PartialEq, Eq, Structural)]
pub enum DisplayState {
    Idle,
    Menu,
}

/// The diffing layer's retained frame: the two lines as last rendered, each
/// exactly [`LINE_WIDTH`] bytes of ASCII text.
pub struct Display {
    pub state: DisplayState,
    pub line1_chars: Vec<u8>,
    pub line2_chars: Vec<u8>,
}

impl Display {
    /// Both retained lines hold exactly one full row of characters.
    pub open spec fn wf(self) -> bool {
        self.line1_chars@.len() == LINE_WIDTH && self.line2_chars@.len() == LINE_WIDTH
    }

    /// A fresh driver: status screen, both lines blank.
    pub fn new() -> (r: Self)
        ensures
            r.wf(),
            r.state == DisplayState::Idle,
            r.line1_chars@ =~= Seq::new(LINE_WIDTH as nat, |i: int| 32u8),
            r.line2_chars@ =~= Seq::new(LINE_WIDTH as nat, |i: int| 32u8),
    {
        Self { state: DisplayState::Idle, line1_chars: blank_line(), line2_chars: blank_line() }
    }
}

/// One maximal run of changed characters: the column where it starts and the
/// new text of exactly the changed positions.
pub struct DiffRun {
    pub idx: u8,
    pub text: Vec<u8>,
}

/// `r` is a well-formed run of changes of `curr` against `prev`: nonempty,
/// inside the line, copying `curr`, and covering only changed positions.
pub open spec fn run_matches(prev: Seq<u8>, curr: Seq<u8>, r: DiffRun) -> bool {
    &&& r.text@.len() >= 1
    &&& r.idx + r.text@.len() <= curr.len()
    &&& forall|j: int|
        0 <= j < r.text@.len() ==> r.text@[j] == curr[r.idx + j] && curr[r.idx + j] != prev[r.idx
            + j]
}

/// Position `i` lies inside one of the runs.
pub open spec fn covered(runs: Seq<DiffRun>, i: int) -> bool {
    exists|k: int|
        0 <= k < runs.len() && (#[trigger] runs[k]).idx <= i < runs[k].idx + runs[k].text@.len()
}

/// The runs are exactly the maximal contiguous changed regions of `curr`
/// against `prev`, in order of position: every run is well formed, successive
/// runs are separated by at least one unchanged position (so no run could be
/// merged with or extended into a neighbour), and every changed position lies
/// in some run.
pub open spec fn is_diff_of(prev: Seq<u8>, curr: Seq<u8>, runs: Seq<DiffRun>) -> bool {
    &&& forall|k: int| 0 <= k < runs.len() ==> run_matches(prev, curr, #[trigger] runs[k])
    &&& forall|k: int|
        #![trigger runs[k], runs[k + 1]]
        0 <= k < runs.len() - 1 ==> runs[k].idx + runs[k].text@.len() < runs[k + 1].idx
    &&& forall|i: int| 0 <= i < curr.len() && curr[i] != prev[i] ==> covered(runs, i)
}

/// Unchanged lines have no changed position, so the only correct run list is
/// the empty one.
pub proof fn lemma_identical_lines_no_runs(line: Seq<u8>, runs: Seq<DiffRun>)
    requires
        is_diff_of(line, line, runs),
    ensures
        runs.len() == 0,
{
    if runs.len() > 0 {
        let r = runs[0];
        assert(run_matches(line, line, r));
        assert(r.text@[0] == line[r.idx as int]);
        assert(false);
    }
}

/// In a correct run list the separation of neighbours extends to any pair:
/// an earlier run ends strictly before a later run begins.
pub proof fn lemma_runs_ordered(prev: Seq<u8>, curr: Seq<u8>, runs: Seq<DiffRun>, k: int, l: int)
    requires
        is_diff_of(prev, curr, runs),
        0 <= k < l < runs.len(),
    ensures
        runs[k].idx + runs[k].text@.len() < runs[l].idx,
    decreases l - k,
{
    if l == k + 1 {
    } else {
        lemma_runs_ordered(prev, curr, runs, k, l - 1);
        let j = l - 1;
        assert(run_matches(prev, curr, runs[j]));
        assert(runs[j].idx + runs[j].text@.len() < runs[j + 1].idx);
    }
}

/// When every position changed, the only correct run list is a single run
/// that starts at the first column and carries the whole new line.
pub proof fn lemma_all_changed_single_run(prev: Seq<u8>, curr: Seq<u8>, runs: Seq<DiffRun>)
    requires
        prev.len() == curr.len(),
        curr.len() > 0,
        forall|i: int| 0 <= i < curr.len() ==> curr[i] != prev[i],
        is_diff_of(prev, curr, runs),
    ensures
        runs.len() == 1,
        runs[0].idx == 0,
        runs[0].text@ =~= curr,
{
    // Position 0 changed, so some run covers it; that run can only be the
    // first one, and it must start at column 0.
    assert(covered(runs, 0));
    let k0 = choose|k: int|
        0 <= k < runs.len() && (#[trigger] runs[k]).idx <= 0 < runs[k].idx + runs[k].text@.len();
    assert(runs[k0].idx == 0);
    if k0 > 0 {
        lemma_runs_ordered(prev, curr, runs, 0, k0);
        assert(run_matches(prev, curr, runs[0]));
        assert(false);
    }
    // The first run reaches the end of the line: a position just past it
    // would have changed too, yet no run could cover it.
    let end = runs[0].idx + runs[0].text@.len();
    if end < curr.len() {
        assert(covered(runs, end));
        let k1 = choose|k: int|
            0 <= k < runs.len() && (#[trigger] runs[k]).idx <= end < runs[k].idx
                + runs[k].text@.len();
        if k1 > 0 {
            lemma_runs_ordered(prev, curr, runs, 0, k1);
        }
        assert(false);
    }
    // No second run fits after a run that already spans the whole line.
    if runs.len() > 1 {
        lemma_runs_ordered(prev, curr, runs, 0, 1);
        assert(run_matches(prev, curr, runs[1]));
        assert(false);
    }
    assert(run_matches(prev, curr, runs[0]));
}

/// Computes the maximal contiguous runs of positions where `curr` differs
/// from `prev`, scanning left to right and closing a run at each unchanged
/// position.
pub fn diff_runs(prev: &[u8], curr: &[u8]) -> (runs: Vec<DiffRun>)
    requires
        prev@.len() == curr@.len(),
        curr@.len() <= 256,
    ensures
        is_diff_of(prev@, curr@, runs@),
{
    let n = curr.len();
    let mut runs: Vec<DiffRun> = Vec::new();
    let mut text: Vec<u8> = Vec::new();
    let mut writing: bool = false;
    let mut start: u8 = 0;
    let mut i: usize = 0;
    while i < n
        invariant
            n == curr@.len(),
            prev@.len() == curr@.len(),
            curr@.len() <= 256,
            i <= n,
            writing ==> start + text@.len() == i && run_matches(
                prev@,
                curr@,
                (DiffRun { idx: start, text: text }),
            ),
            !writing ==> text@.len() == 0,
            forall|k: int| 0 <= k < runs@.len() ==> run_matches(prev@, curr@, #[trigger] runs@[k]),
            forall|k: int|
                #![trigger runs@[k], runs@[k + 1]]
                0 <= k < runs@.len() - 1 ==> runs@[k].idx + runs@[k].text@.len() < runs@[k + 1].idx,
            runs@.len() > 0 && !writing ==> runs@.last().idx + runs@.last().text@.len() < i,
            runs@.len() > 0 && writing ==> runs@.last().idx + runs@.last().text@.len()
                < start as int,
            forall|p: int|
                0 <= p < i && curr@[p] != prev@[p] ==> covered(runs@, p) || (writing && start <= p),
            forall|p: int| 0 <= p < i && curr@[p] == prev@[p] ==> !(writing && start <= p),
        decreases n - i,
    {
        if curr[i] != prev[i] {
            if !writing {
                writing = true;
                start = i as u8;
            }
            text.push(curr[i]);
        } else {
            if writing {
                writing = false;
                let ghost old_runs = runs@;
                runs.push(DiffRun { idx: start, text });
                text = Vec::new();
                proof {
                    assert forall|p: int|
                        0 <= p < i + 1 && curr@[p] != prev@[p] implies covered(runs@, p) by {
                        if covered(old_runs, p) {
                            let k = choose|k: int|
                                0 <= k < old_runs.len() && (#[trigger] old_runs[k]).idx <= p
                                    < old_runs[k].idx + old_runs[k].text@.len();
                            assert(runs@[k].idx <= p < runs@[k].idx + runs@[k].text@.len());
                        } else {
                            let k = runs@.len() - 1;
                            assert(runs@[k].idx <= p < runs@[k].idx + runs@[k].text@.len());
                        }
                    }
                }
            }
        }
        i += 1;
    }
    if writing {
        let ghost old_runs = runs@;
        runs.push(DiffRun { idx: start, text });
        proof {
            assert forall|p: int|
                0 <= p < curr@.len() && curr@[p] != prev@[p] implies covered(runs@, p) by {
                if covered(old_runs, p) {
                    let k = choose|k: int|
                        0 <= k < old_runs.len() && (#[trigger] old_runs[k]).idx <= p
                            < old_runs[k].idx + old_runs[k].text@.len();
                    assert(runs@[k].idx <= p < runs@[k].idx + runs@[k].text@.len());
                } else {
                    let k = runs@.len() - 1;
                    assert(runs@[k].idx <= p < runs@[k].idx + runs@[k].text@.len());
                }
            }
        }
    }
    runs
}

/// The bus steps that repaint one run on one row: move the cursor to the
/// run's start column, then print exactly the changed text.
pub open spec fn run_ops_spec(r: DiffRun, row: u8) -> Seq<BusOp> {
    lcd_interface::command_spec(lcd_interface::cursor_command_spec(r.idx, row))
        + lcd_interface::print_spec(r.text@)
}

/// The bus steps that repaint a list of runs on one row, in order.
pub open spec fn runs_ops_spec(runs: Seq<DiffRun>, row: u8) -> Seq<BusOp>
    decreases runs.len(),
{
    if runs.len() == 0 {
        Seq::empty()
    } else {
        runs_ops_spec(runs.drop_last(), row) + run_ops_spec(runs.last(), row)
    }
}

/// Appends the repaint steps of every run on one row.
fn emit_runs(ops: &mut Vec<BusOp>, runs: &Vec<DiffRun>, row: u8)
    requires
        row < 2,
        forall|k: int|
            0 <= k < runs@.len() ==> (#[trigger] runs@[k]).idx + runs@[k].text@.len() <= LINE_WIDTH
                && runs@[k].text@.len() >= 1,
    ensures
        final(ops)@ == old(ops)@ + runs_ops_spec(runs@, row),
{
    let mut k: usize = 0;
    while k < runs.len()
        invariant
            row < 2,
            k <= runs@.len(),
            forall|k2: int|
                0 <= k2 < runs@.len() ==> (#[trigger] runs@[k2]).idx + runs@[k2].text@.len()
                    <= LINE_WIDTH && runs@[k2].text@.len() >= 1,
            ops@ == old(ops)@ + runs_ops_spec(runs@.take(k as int), row),
        decreases runs@.len() - k,
    {
        let r = &runs[k];
        let mut cursor_ops = lcd_interface::set_cursor(r.idx, row);
        ops.append(&mut cursor_ops);
        let mut print_ops = lcd_interface::print(r.text.as_slice());
        ops.append(&mut print_ops);
        proof {
            assert(runs@.take(k + 1).drop_last() =~= runs@.take(k as int));
            assert(runs@.take(k + 1).last() == runs@[k as int]);
            assert(ops@ =~= old(ops)@ + runs_ops_spec(runs@.take(k + 1), row));
        }
        k += 1;
    }
    proof {
        assert(runs@.take(runs@.len() as int) =~= runs@);
    }
}

impl Display {
    /// Renders a new frame: computes the changed runs of each line against
    /// the retained frame, emits repaint steps for exactly those runs — the
    /// first line's first, then the second line's — and retains the new
    /// frame. Characters outside the changed runs are not re-transmitted.
    pub fn update(&mut self, line1: &[u8], line2: &[u8]) -> (ops: Vec<BusOp>)
        requires
            old(self).wf(),
            line1@.len() == LINE_WIDTH,
            line2@.len() == LINE_WIDTH,
        ensures
            final(self).wf(),
            final(self).state == old(self).state,
            final(self).line1_chars@ == line1@,
            final(self).line2_chars@ == line2@,
            exists|r1: Seq<DiffRun>, r2: Seq<DiffRun>|
                {
                    &&& is_diff_of(old(self).line1_chars@, line1@, r1)
                    &&& is_diff_of(old(self).line2_chars@, line2@, r2)
                    &&& ops@ == runs_ops_spec(r1, 0) + runs_ops_spec(r2, 1)
                },
    {
        let runs1 = diff_runs(self.line1_chars.as_slice(), line1);
        let runs2 = diff_runs(self.line2_chars.as_slice(), line2);
        proof {
            assert forall|k: int| 0 <= k < runs1@.len() implies (#[trigger] runs1@[k]).idx
                + runs1@[k].text@.len() <= LINE_WIDTH && runs1@[k].text@.len() >= 1 by {
                assert(run_matches(old(self).line1_chars@, line1@, runs1@[k]));
            }
            assert forall|k: int| 0 <= k < runs2@.len() implies (#[trigger] runs2@[k]).idx
                + runs2@[k].text@.len() <= LINE_WIDTH && runs2@[k].text@.len() >= 1 by {
                assert(run_matches(old(self).line2_chars@, line2@, runs2@[k]));
            }
        }
        let mut ops: Vec<BusOp> = Vec::new();
        emit_runs(&mut ops, &runs1, 0);
        emit_runs(&mut ops, &runs2, 1);
        self.line1_chars = slice_to_vec(line1);
        self.line2_chars = slice_to_vec(line2);
        proof {
            assert(ops@ =~= runs_ops_spec(runs1@, 0) + runs_ops_spec(runs2@, 1));
        }
        ops
    }
}

/// A line padded with trailing spaces, or cut, to exactly one display row.
pub open spec fn pad_line_spec(line: Seq<u8>) -> Seq<u8> {
    if line.len() >= LINE_WIDTH {
        line.take(LINE_WIDTH as int)
    } else {
        line + Seq::new((LINE_WIDTH - line.len()) as nat, |i: int| 32u8)
    }
}

/// Pads or cuts a line to exactly one display row.
pub fn pad_line(line: Vec<u8>) -> (r: Vec<u8>)
    ensures
        r@ == pad_line_spec(line@),
        r@.len() == LINE_WIDTH,
{
    let mut v = line;
    if v.len() >= LINE_WIDTH {
        v.truncate(LINE_WIDTH);
        proof {
            assert(v@ =~= pad_line_spec(line@));
        }
        v
    } else {
        proof {
            assert(v@ =~= line@ + Seq::new((v@.len() - line@.len()) as nat, |i: int| 32u8));
        }
        while v.len() < LINE_WIDTH
            invariant
                line@.len() <= v@.len() <= LINE_WIDTH,
                v@ == line@ + Seq::new((v@.len() - line@.len()) as nat, |i: int| 32u8),
            decreases LINE_WIDTH - v@.len(),
        {
            v.push(32);
            proof {
                assert(v@ =~= line@ + Seq::new((v@.len() - line@.len()) as nat, |i: int| 32u8));
            }
        }
        v
    }
}

/// One full line of space characters.
fn blank_line() -> (r: Vec<u8>)
    ensures
        r@ =~= Seq::new(LINE_WIDTH as nat, |i: int| 32u8),
{
    let mut v: Vec<u8> = Vec::new();
    let mut i: usize = 0;
    while i < LINE_WIDTH
        invariant
            i <= LINE_WIDTH,
            v@.len() == i,
            forall|j: int| 0 <= j < i ==> v@[j] == 32u8,
        decreases LINE_WIDTH - i,
    {
        v.push(32);
        i += 1;
    }
    v
}

} // verus!
