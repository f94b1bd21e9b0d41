//! Running a plugin: the checks on what it is handed, the replay of what it
//! recorded, and the state machine that decides when it runs and reloads.
use vstd::prelude::*;

use crate::api::{Color, Pos, TimelineAction, WasmRunner};
use crate::map::{
    has_size, rows_view, snapshot_of, with_tile, Grid, MapPos, MapSize, TileInfo,
};

verus! {

/// Where the plugin runner stands.
#[derive(Debug, Clone, PartialEq, Eq, Hash)]
pub enum WasmState {
    Run,
    Error(String),
    Idle,
}

impl Default for WasmState {
    fn default() -> (r: Self)
        ensures
            r is Idle,
    {
        WasmState::Idle
    }
}

/// The state is `Error` with the given message.
pub open spec fn shows_error(state: WasmState, msg: Seq<char>) -> bool {
    match state {
        WasmState::Error(m) => m@ == msg,
        _ => false,
    }
}

/// Why a plugin file could not be loaded.
#[derive(Debug, Clone, PartialEq, Eq)]
pub enum LoadError {
    /// The file could not be read.
    Io(String),
    /// The file is not a valid module.
    Compile(String),
    /// The module asks for something the host does not give.
    Link(String),
    /// The module has no entry point of the agreed shape.
    MissingExport(String),
}

impl LoadError {
    pub open spec fn message_spec(&self) -> Seq<char> {
        match self {
            LoadError::Io(m) => m@,
            LoadError::Compile(m) => m@,
            LoadError::Link(m) => m@,
            LoadError::MissingExport(m) => m@,
        }
    }

    /// The text that came with the error.
    pub fn message(&self) -> (r: String)
        ensures
            r@ == self.message_spec(),
    {
        match self {
            LoadError::Io(m) => m.clone(),
            LoadError::Compile(m) => m.clone(),
            LoadError::Link(m) => m.clone(),
            LoadError::MissingExport(m) => m.clone(),
        }
    }
}

/// How a run of the plugin's entry point failed.
#[derive(Debug, Clone, PartialEq, Eq)]
pub enum RuntimeError {
    /// The plugin trapped: an illegal operation, a limit, a panic.
    Trapped(String),
}

/// What is wrong with the input of a run, found before the plugin is called.
#[derive(Debug, Clone, Copy, PartialEq, Eq, Structural)]
pub enum ContractViolation {
    /// The grid has no rows or no columns.
    EmptyGrid,
    /// The rows do not all have the grid's width.
    RaggedRows,
    /// The start lies outside the grid.
    StartOutOfRange,
    /// The goal lies outside the grid.
    GoalOutOfRange,
}

impl ContractViolation {
    pub open spec fn message_spec(self) -> Seq<char> {
        match self {
            ContractViolation::EmptyGrid => "the grid has no tiles"@,
            ContractViolation::RaggedRows => "the grid's rows differ in length"@,
            ContractViolation::StartOutOfRange => "the start lies outside the grid"@,
            ContractViolation::GoalOutOfRange => "the goal lies outside the grid"@,
        }
    }

    /// A sentence that says what is wrong.
    pub fn message(self) -> (r: String)
        ensures
            r@ == self.message_spec(),
    {
        match self {
            ContractViolation::EmptyGrid => "the grid has no tiles".to_owned(),
            ContractViolation::RaggedRows => "the grid's rows differ in length".to_owned(),
            ContractViolation::StartOutOfRange => "the start lies outside the grid".to_owned(),
            ContractViolation::GoalOutOfRange => "the goal lies outside the grid".to_owned(),
        }
    }
}

/// What is wrong with a snapshot and the positions handed with it, if
/// anything: the grid first, then the start, then the goal.
pub open spec fn snapshot_violation(s: Seq<Seq<bool>>, start: Pos, goal: Pos) -> Option<
    ContractViolation,
> {
    if s.len() == 0 || s[0].len() == 0 {
        Some(ContractViolation::EmptyGrid)
    } else if !has_size(s, s[0].len() as int, s.len() as int) {
        Some(ContractViolation::RaggedRows)
    } else if start.0 >= s[0].len() || start.1 >= s.len() {
        Some(ContractViolation::StartOutOfRange)
    } else if goal.0 >= s[0].len() || goal.1 >= s.len() {
        Some(ContractViolation::GoalOutOfRange)
    } else {
        None
    }
}

/// Checks what a plugin is about to be handed: a rectangular, non-empty grid
/// of flags and a start and a goal inside it, as `(column, row)`.
pub fn check_snapshot(tiles: &Vec<Vec<bool>>, start: Pos, goal: Pos) -> (r: Result<
    (),
    ContractViolation,
>)
    ensures
        r == (match snapshot_violation(rows_view(tiles), start, goal) {
            Some(v) => Err::<(), ContractViolation>(v),
            None => Ok(()),
        }),
{
    let ghost s = rows_view(tiles);
    let h = tiles.len();
    if h == 0 {
        return Err(ContractViolation::EmptyGrid);
    }
    let w = tiles[0].len();
    assert(s[0] == tiles@[0]@);
    if w == 0 {
        return Err(ContractViolation::EmptyGrid);
    }
    let mut y: usize = 0;
    while y < h
        invariant
            h == s.len(),
            w == s[0].len(),
            w > 0,
            s == rows_view(tiles),
            y <= h,
            forall|k: int| 0 <= k < y ==> #[trigger] s[k].len() == w,
        decreases h - y,
    {
        assert(s[y as int] == tiles@[y as int]@);
        if tiles[y].len() != w {
            assert(s[y as int].len() != s[0].len());
            return Err(ContractViolation::RaggedRows);
        }
        y = y + 1;
    }
    if start.0 as usize >= w || start.1 as usize >= h {
        return Err(ContractViolation::StartOutOfRange);
    }
    if goal.0 as usize >= w || goal.1 as usize >= h {
        return Err(ContractViolation::GoalOutOfRange);
    }
    Ok(())
}

/// Readies the recorder for one run of the entry point: refuses the input
/// exactly as `check_snapshot` does, leaving the recorder as it was, and
/// otherwise empties it, so that it ends up holding this run's actions alone.
pub fn begin_invocation(runner: &mut WasmRunner, tiles: &Vec<Vec<bool>>, start: Pos, goal: Pos) -> (r:
    Result<(), ContractViolation>)
    ensures
        r == (match snapshot_violation(rows_view(tiles), start, goal) {
            Some(v) => Err::<(), ContractViolation>(v),
            None => Ok(()),
        }),
        r is Ok ==> final(runner).timeline@ == Seq::<TimelineAction>::empty(),
        r is Err ==> final(runner).timeline@ == old(runner).timeline@,
{
    let checked = check_snapshot(tiles, start, goal);
    if checked.is_ok() {
        runner.clear();
    }
    checked
}

/// Everything one run of a plugin is handed, in the plugin's coordinates.
pub struct Invocation {
    pub tiles: Vec<Vec<bool>>,
    pub start: Pos,
    pub goal: Pos,
}

/// What is wrong with running a plugin on a grid of the given size, if
/// anything.
pub open spec fn grid_violation(g: Seq<Seq<TileInfo>>, size: MapSize, start: MapPos, goal: MapPos) -> Option<
    ContractViolation,
> {
    if !size.non_empty() {
        Some(ContractViolation::EmptyGrid)
    } else if !has_size(g, size.width as int, size.height as int) {
        Some(ContractViolation::RaggedRows)
    } else if !size.contains(start) {
        Some(ContractViolation::StartOutOfRange)
    } else if !size.contains(goal) {
        Some(ContractViolation::GoalOutOfRange)
    } else {
        None
    }
}

/// Builds the input of a run: the grid's snapshot and the start and goal,
/// all flipped into the plugin's coordinates. Refuses a grid that does not
/// have the given size, an empty size, and a start or goal outside the grid.
pub fn prepare_invocation(grid: &Grid, size: &MapSize, start: MapPos, goal: MapPos) -> (r: Result<
    Invocation,
    ContractViolation,
>)
    ensures
        match grid_violation(grid@, *size, start, goal) {
            Some(v) => r == Err::<Invocation, ContractViolation>(v),
            None => r matches Ok(inv) && rows_view(&inv.tiles) == snapshot_of(grid@)
                && inv.start == start.to_array_spec(*size) && inv.goal == goal.to_array_spec(
                *size,
            ),
        },
{
    if size.width == 0 || size.height == 0 {
        return Err(ContractViolation::EmptyGrid);
    }
    if !grid.has_size(size) {
        return Err(ContractViolation::RaggedRows);
    }
    if start.x >= size.width || start.y >= size.height {
        return Err(ContractViolation::StartOutOfRange);
    }
    if goal.x >= size.width || goal.y >= size.height {
        return Err(ContractViolation::GoalOutOfRange);
    }
    let tiles = grid.to_pathfinding_map();
    Ok(Invocation { tiles, start: start.to_array(size), goal: goal.to_array(size) })
}

/// The two kinds of drawn overlay.
#[derive(Debug, Clone, Copy, PartialEq, Eq, Structural)]
pub enum OverlayKind {
    Line,
    Arrow,
}

/// A line or arrow to draw over the grid, between two host positions.
#[derive(Debug, Clone, Copy, PartialEq, Eq)]
pub struct Overlay {
    pub kind: OverlayKind,
    pub start: MapPos,
    pub end: MapPos,
    pub color: Color,
}

/// The grid after one recorded action: a tile action inside the grid paints
/// its tile, keeping the tile's kind; every other action leaves it as it is.
pub open spec fn replay_step(g: Seq<Seq<TileInfo>>, size: MapSize, a: TimelineAction) -> Seq<
    Seq<TileInfo>,
> {
    match a {
        TimelineAction::Tile { pos, color } => match MapPos::from_array_spec(pos, size) {
            Some(p) => with_tile(
                g,
                p,
                TileInfo { tile_type: g[p.y as int][p.x as int].tile_type, color },
            ),
            None => g,
        },
        _ => g,
    }
}

/// The grid after a whole timeline, in order.
pub open spec fn replayed(g: Seq<Seq<TileInfo>>, size: MapSize, s: Seq<TimelineAction>) -> Seq<
    Seq<TileInfo>,
>
    decreases s.len(),
{
    if s.len() == 0 {
        g
    } else {
        replay_step(replayed(g, size, s.drop_last()), size, s.last())
    }
}

/// The overlay a recorded line or arrow stands for, when both its ends lie in
/// the grid.
pub open spec fn overlay_of(size: MapSize, a: TimelineAction) -> Option<Overlay> {
    match a {
        TimelineAction::Line { start, end, color } => match (
            MapPos::from_array_spec(start, size),
            MapPos::from_array_spec(end, size),
        ) {
            (Some(s), Some(e)) => Some(Overlay { kind: OverlayKind::Line, start: s, end: e, color }),
            _ => None,
        },
        TimelineAction::Arrow { start, end, color } => match (
            MapPos::from_array_spec(start, size),
            MapPos::from_array_spec(end, size),
        ) {
            (Some(s), Some(e)) => Some(Overlay { kind: OverlayKind::Arrow, start: s, end: e, color }),
            _ => None,
        },
        TimelineAction::Tile { .. } => None,
    }
}

/// The overlays of a timeline, in order.
pub open spec fn overlays(size: MapSize, s: Seq<TimelineAction>) -> Seq<Overlay>
    decreases s.len(),
{
    if s.len() == 0 {
        Seq::empty()
    } else {
        match overlay_of(size, s.last()) {
            Some(o) => overlays(size, s.drop_last()).push(o),
            None => overlays(size, s.drop_last()),
        }
    }
}

fn overlay_between(kind: OverlayKind, start: Pos, end: Pos, color: Color, size: &MapSize) -> (r:
    Option<Overlay>)
    ensures
        r == (match (MapPos::from_array_spec(start, *size), MapPos::from_array_spec(end, *size)) {
            (Some(s), Some(e)) => Some(Overlay { kind, start: s, end: e, color }),
            _ => None,
        }),
{
    match (MapPos::from_array(start, size), MapPos::from_array(end, size)) {
        (Some(s), Some(e)) => Some(Overlay { kind, start: s, end: e, color }),
        _ => None,
    }
}

/// Replays a drained timeline: paints the tiles it names, in order, and
/// returns the lines and arrows to draw, in order, in host positions. Actions
/// that reach outside the grid are left out.
pub fn show_wasm_actions(grid: &mut Grid, size: &MapSize, timeline: &Vec<TimelineAction>) -> (r: Vec<
    Overlay,
>)
    requires
        old(grid).wf(*size),
    ensures
        final(grid)@ == replayed(old(grid)@, *size, timeline@),
        final(grid).wf(*size),
        r@ == overlays(*size, timeline@),
{
    let n = timeline.len();
    let mut out: Vec<Overlay> = Vec::new();
    let mut i: usize = 0;
    while i < n
        invariant
            n == timeline@.len(),
            i <= n,
            grid.wf(*size),
            grid@ == replayed(old(grid)@, *size, timeline@.take(i as int)),
            out@ == overlays(*size, timeline@.take(i as int)),
        decreases n - i,
    {
        assert(timeline@.take(i + 1).drop_last() =~= timeline@.take(i as int));
        assert(timeline@.take(i + 1).last() == timeline@[i as int]);
        match timeline[i] {
            TimelineAction::Tile { pos, color } => {
                match MapPos::from_array(pos, size) {
                    Some(p) => {
                        let tile = grid.get_tile_mut(&p);
                        tile.color = color;
                    },
                    None => {},
                }
            },
            TimelineAction::Line { start, end, color } => {
                match overlay_between(OverlayKind::Line, start, end, color, size) {
                    Some(o) => out.push(o),
                    None => {},
                }
            },
            TimelineAction::Arrow { start, end, color } => {
                match overlay_between(OverlayKind::Arrow, start, end, color, size) {
                    Some(o) => out.push(o),
                    None => {},
                }
            },
        }
        i = i + 1;
    }
    assert(timeline@.take(n as int) =~= timeline@);
    out
}

/// Whether the plugin is loaded again when its file changes.
#[derive(Debug, Clone, Copy, PartialEq, Eq, Structural)]
pub struct WasmHotReloading(pub bool);

/// How often the plugin's file is looked at, in milliseconds.
pub const RELOAD_POLL_MS: u64 = 1000;

/// A file changed less than this many milliseconds ago counts as changed.
pub const RECENT_CHANGE_MS: u64 = 1000;

/// Why a run ended without anything to replay.
#[derive(Debug, Clone, PartialEq, Eq)]
pub enum InvokeError {
    /// The input was refused before the plugin was called.
    Rejected(ContractViolation),
    /// The plugin failed while it ran.
    Runtime(RuntimeError),
}

impl InvokeError {
    pub open spec fn message_spec(&self) -> Seq<char> {
        match self {
            InvokeError::Rejected(v) => v.message_spec(),
            InvokeError::Runtime(RuntimeError::Trapped(m)) => m@,
        }
    }

    /// The text shown for the failure.
    pub fn message(&self) -> (r: String)
        ensures
            r@ == self.message_spec(),
    {
        match self {
            InvokeError::Rejected(v) => v.message(),
            InvokeError::Runtime(RuntimeError::Trapped(m)) => m.clone(),
        }
    }
}

/// Owns the loaded plugin and decides when it runs and when it is replaced.
/// At most one run is under way at a time, and a reload never replaces the
/// plugin during a run.
pub struct ReloadCoordinator<H> {
    pub state: WasmState,
    pub hot_reloading: WasmHotReloading,
    pub handle: Option<H>,
}

impl<H> ReloadCoordinator<H> {
    /// Whether a run may start now: a plugin is loaded and none is running.
    pub open spec fn can_start(&self) -> bool {
        self.handle is Some && !(self.state is Run)
    }

    /// Whether a file change `age_ms` milliseconds ago calls for a reload.
    pub open spec fn reload_due(&self, age_ms: u64) -> bool {
        self.hot_reloading.0 && self.handle is Some && !(self.state is Run) && age_ms
            < RECENT_CHANGE_MS
    }

    /// Nothing loaded, nothing running, no hot reloading.
    pub fn new() -> (r: Self)
        ensures
            r.state is Idle,
            !r.hot_reloading.0,
            r.handle is None,
    {
        ReloadCoordinator {
            state: WasmState::Idle,
            hot_reloading: WasmHotReloading(false),
            handle: None,
        }
    }

    /// Turns hot reloading on or off.
    pub fn set_hot_reloading(&mut self, on: bool)
        ensures
            final(self).hot_reloading.0 == on,
            final(self).state == old(self).state,
            final(self).handle == old(self).handle,
    {
        self.hot_reloading = WasmHotReloading(on);
    }

    /// Takes the result of loading a plugin. A new plugin replaces the old one
    /// and a run is due (`true`); a failed load keeps the old plugin and shows
    /// the error. While a run is under way the result is dropped.
    pub fn install(&mut self, loaded: Result<H, LoadError>) -> (run: bool)
        ensures
            old(self).state is Run ==> !run && *final(self) == *old(self),
            !(old(self).state is Run) ==> match loaded {
                Ok(h) => run && final(self).handle == Some(h) && final(self).state is Run,
                Err(e) => !run && final(self).handle == old(self).handle && shows_error(
                    final(self).state,
                    e.message_spec(),
                ),
            },
            final(self).hot_reloading == old(self).hot_reloading,
    {
        if matches!(self.state, WasmState::Run) {
            return false;
        }
        match loaded {
            Ok(h) => {
                self.handle = Some(h);
                self.state = WasmState::Run;
                true
            },
            Err(e) => {
                self.state = WasmState::Error(e.message());
                false
            },
        }
    }

    /// Asks to run the loaded plugin. Refused while a run is under way or
    /// when nothing is loaded.
    pub fn start_run(&mut self) -> (r: bool)
        ensures
            r == old(self).can_start(),
            r ==> final(self).state is Run,
            !r ==> final(self).state == old(self).state,
            final(self).handle == old(self).handle,
            final(self).hot_reloading == old(self).hot_reloading,
    {
        if self.handle.is_none() || matches!(self.state, WasmState::Run) {
            return false;
        }
        self.state = WasmState::Run;
        true
    }

    /// Takes the outcome of a run. A successful run ends in `Idle` and its
    /// timeline is due for replay (`true`); a failed one ends in `Error` with
    /// its message, and nothing is replayed. Outside a run nothing changes.
    pub fn finish_run(&mut self, outcome: Result<(), InvokeError>) -> (replay: bool)
        ensures
            old(self).state is Run ==> match outcome {
                Ok(_) => replay && final(self).state is Idle,
                Err(e) => !replay && shows_error(final(self).state, e.message_spec()),
            },
            !(old(self).state is Run) ==> !replay && final(self).state == old(self).state,
            final(self).handle == old(self).handle,
            final(self).hot_reloading == old(self).hot_reloading,
    {
        if !matches!(self.state, WasmState::Run) {
            return false;
        }
        match outcome {
            Ok(()) => {
                self.state = WasmState::Idle;
                true
            },
            Err(e) => {
                self.state = WasmState::Error(e.message());
                false
            },
        }
    }

    /// Whether the plugin should be loaded again, its file having changed
    /// `age_ms` milliseconds ago.
    pub fn should_reload(&self, age_ms: u64) -> (r: bool)
        ensures
            r == self.reload_due(age_ms),
    {
        self.hot_reloading.0 && self.handle.is_some() && !matches!(self.state, WasmState::Run)
            && age_ms < RECENT_CHANGE_MS
    }
}

/// The recorder was drained and its timeline replayed: it is empty, the grid
/// shows the timeline's tiles and `drawn` holds its overlays.
pub open spec fn replay_done(
    timeline: Seq<TimelineAction>,
    after: Seq<TimelineAction>,
    before_grid: Seq<Seq<TileInfo>>,
    after_grid: Seq<Seq<TileInfo>>,
    size: MapSize,
    drawn: Seq<Overlay>,
) -> bool {
    &&& after == Seq::<TimelineAction>::empty()
    &&& after_grid == replayed(before_grid, size, timeline)
    &&& drawn == overlays(size, timeline)
}

/// Ends a run: hands its outcome to the coordinator and, only when the run
/// succeeded, drains the recorder and replays it on the grid, returning the
/// overlays to draw. After a failed run, or outside a run, the recorder and
/// the grid are left exactly as they are and nothing is drawn.
pub fn conclude_run<H>(
    coordinator: &mut ReloadCoordinator<H>,
    outcome: Result<(), InvokeError>,
    runner: &mut WasmRunner,
    grid: &mut Grid,
    size: &MapSize,
) -> (r: Vec<Overlay>)
    requires
        old(grid).wf(*size),
    ensures
        old(coordinator).state is Run ==> match outcome {
            Ok(_) => final(coordinator).state is Idle,
            Err(e) => shows_error(final(coordinator).state, e.message_spec()),
        },
        !(old(coordinator).state is Run) ==> final(coordinator).state == old(coordinator).state,
        final(coordinator).handle == old(coordinator).handle,
        final(coordinator).hot_reloading == old(coordinator).hot_reloading,
        (old(coordinator).state is Run && outcome is Ok) ==> replay_done(
            old(runner).timeline@,
            final(runner).timeline@,
            old(grid)@,
            final(grid)@,
            *size,
            r@,
        ),
        !(old(coordinator).state is Run && outcome is Ok) ==> final(runner).timeline@ == old(runner).timeline@,
        !(old(coordinator).state is Run && outcome is Ok) ==> final(grid)@ == old(grid)@,
        !(old(coordinator).state is Run && outcome is Ok) ==> r@ == Seq::<Overlay>::empty(),
        final(grid).wf(*size),
{
    if coordinator.finish_run(outcome) {
        let timeline = runner.drain();
        show_wasm_actions(grid, size, &timeline)
    } else {
        Vec::new()
    }
}

/// While a run is under way, no second run starts and no reload is due, for
/// any file age.
pub proof fn lemma_single_flight<H>(c: ReloadCoordinator<H>, age_ms: u64)
    requires
        c.state is Run,
    ensures
        !c.can_start(),
        !c.reload_due(age_ms),
{
}

} // verus!
