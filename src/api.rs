//! The callbacks a plugin may call while it runs, and the timeline of drawing
//! actions they record.
use vstd::prelude::*;

verus! {

/// A position as the plugin sees it: `(column, row)`, row 0 at the top.
pub type Pos = (u32, u32);

/// An RGB color, one byte per channel.
pub type Color = (u8, u8, u8);

/// One drawing action recorded while a plugin runs.
#[derive(Debug, Clone, Copy, PartialEq, Eq)]
pub enum TimelineAction {
    Tile { pos: Pos, color: Color },
    Line { start: Pos, end: Pos, color: Color },
    Arrow { start: Pos, end: Pos, color: Color },
}

/// Color of the lines that `output` records.
pub open spec fn path_color() -> Color {
    (0u8, 200u8, 0u8)
}

/// The host side of a running plugin: every callback appends one action to
/// `timeline`, in call order.
pub struct WasmRunner {
    pub timeline: Vec<TimelineAction>,
}

impl Default for WasmRunner {
    fn default() -> (r: Self)
        ensures
            r.timeline@ == Seq::<TimelineAction>::empty(),
    {
        WasmRunner { timeline: Vec::new() }
    }
}

impl WasmRunner {
    /// Records a color for one tile.
    pub fn tile(&mut self, pos: Pos, color: Color)
        ensures
            final(self).timeline@ == old(self).timeline@.push(TimelineAction::Tile { pos, color }),
    {
        self.timeline.push(TimelineAction::Tile { pos, color });
    }

    /// Records a line segment between two positions.
    pub fn line(&mut self, start: Pos, end: Pos, color: Color)
        ensures
            final(self).timeline@ == old(self).timeline@.push(
                TimelineAction::Line { start, end, color },
            ),
    {
        self.timeline.push(TimelineAction::Line { start, end, color });
    }

    /// Records an arrow from `start` to `end`.
    pub fn arrow(&mut self, start: Pos, end: Pos, color: Color)
        ensures
            final(self).timeline@ == old(self).timeline@.push(
                TimelineAction::Arrow { start, end, color },
            ),
    {
        self.timeline.push(TimelineAction::Arrow { start, end, color });
    }

    /// Records a path: one green line between each two consecutive positions,
    /// in order. The host always accepts the path.
    pub fn output(&mut self, path: Vec<Pos>) -> (r: bool)
        ensures
            r,
            final(self).timeline@ == old(self).timeline@ + path_lines(path@),
    {
        let n = path.len();
        if n == 0 {
            assert(path_lines(path@) =~= Seq::<TimelineAction>::empty());
            assert(self.timeline@ + path_lines(path@) =~= self.timeline@);
            return true;
        }
        let mut i: usize = 1;
        assert(path_lines(path@.take(1)) =~= Seq::<TimelineAction>::empty());
        assert(self.timeline@ + path_lines(path@.take(1)) =~= self.timeline@);
        while i < n
            invariant
                n == path@.len(),
                1 <= i <= n,
                self.timeline@ == old(self).timeline@ + path_lines(path@.take(i as int)),
            decreases n - i,
        {
            proof {
                lemma_path_lines_push(path@.take(i as int), path@[i as int]);
                assert(path@.take(i as int).push(path@[i as int]) =~= path@.take(i + 1));
            }
            self.line(path[i - 1], path[i], (0, 200, 0));
            i = i + 1;
        }
        assert(path@.take(n as int) =~= path@);
        true
    }

    /// Empties the timeline before a new run.
    pub fn clear(&mut self)
        ensures
            final(self).timeline@ == Seq::<TimelineAction>::empty(),
    {
        self.timeline.clear();
    }

    /// Hands out everything recorded so far, in order, and leaves the timeline
    /// empty.
    pub fn drain(&mut self) -> (r: Vec<TimelineAction>)
        ensures
            r@ == old(self).timeline@,
            final(self).timeline@ == Seq::<TimelineAction>::empty(),
    {
        let mut r: Vec<TimelineAction> = Vec::new();
        std::mem::swap(&mut r, &mut self.timeline);
        r
    }
}

/// The lines that `output` records for `path`: one for each two consecutive
/// positions.
pub open spec fn path_lines(path: Seq<Pos>) -> Seq<TimelineAction> {
    Seq::new(
        if path.len() == 0 { 0 } else { (path.len() - 1) as nat },
        |i: int| TimelineAction::Line { start: path[i], end: path[i + 1], color: path_color() },
    )
}

/// For a path of `n >= 1` positions, `output` records exactly `n - 1` lines,
/// the `i`-th from position `i` to position `i + 1`, all in the path color.
pub proof fn lemma_output_lines(path: Seq<Pos>)
    requires
        path.len() >= 1,
    ensures
        path_lines(path).len() == path.len() - 1,
        forall|i: int|
            0 <= i < path.len() - 1 ==> #[trigger] path_lines(path)[i] == (TimelineAction::Line {
                start: path[i],
                end: path[i + 1],
                color: path_color(),
            }),
{
}

proof fn lemma_path_lines_push(path: Seq<Pos>, p: Pos)
    requires
        path.len() >= 1,
    ensures
        path_lines(path.push(p)) == path_lines(path).push(
            TimelineAction::Line { start: path.last(), end: p, color: path_color() },
        ),
{
    assert(path_lines(path.push(p)) =~= path_lines(path).push(
        TimelineAction::Line { start: path.last(), end: p, color: path_color() },
    ));
}

} // verus!
