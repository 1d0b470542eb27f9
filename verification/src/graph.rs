//! The memoized computation graph of one compilation: one cell per kind of
//! task, filled at most once.

use std::sync::Arc;
use vstd::prelude::*;
use crate::document::PagedDocument;
use crate::error::ExportError;
use crate::project::{ExportConfig, ProjectTask};
use crate::timing::CompileSnapshot;

verus! {

/// The kinds of task that a graph holds a cell for.
#[derive(Clone, Copy, Debug, PartialEq, Eq, Structural)]
pub enum TaskKind {
    /// The task of the project.
    ProjectConfig,
    /// The settings of the portable-document export.
    PdfConfig,
    /// The settings of the vector-graphics export.
    SvgConfig,
    /// The settings of the page-image export.
    PngConfig,
    /// The settings of the markdown export.
    MarkdownConfig,
    /// The settings of the text export.
    TextConfig,
    /// Whether the pages must be compiled.
    PagedCompilationFlag,
    /// The compiled pages, if the compilation gave any.
    PagedDocument,
    /// The diagnostics of the compilation.
    Diagnostics,
    /// The pass that decides on the compilation of pages.
    ProjectCompilation,
    /// The export of the project.
    ProjectExport,
    /// The conversion to markdown.
    MarkdownExport,
}

/// The number of kinds of task.
pub const TASK_KINDS: usize = 12;

impl TaskKind {
    /// The index of the cell of this kind.
    pub open spec fn slot_spec(self) -> int {
        match self {
            TaskKind::ProjectConfig => 0,
            TaskKind::PdfConfig => 1,
            TaskKind::SvgConfig => 2,
            TaskKind::PngConfig => 3,
            TaskKind::MarkdownConfig => 4,
            TaskKind::TextConfig => 5,
            TaskKind::PagedCompilationFlag => 6,
            TaskKind::PagedDocument => 7,
            TaskKind::Diagnostics => 8,
            TaskKind::ProjectCompilation => 9,
            TaskKind::ProjectExport => 10,
            TaskKind::MarkdownExport => 11,
        }
    }

    /// The index of the cell of this kind.
    pub fn slot(self) -> (i: usize)
        ensures
            i == self.slot_spec(),
            i < TASK_KINDS,
    {
        match self {
            TaskKind::ProjectConfig => 0,
            TaskKind::PdfConfig => 1,
            TaskKind::SvgConfig => 2,
            TaskKind::PngConfig => 3,
            TaskKind::MarkdownConfig => 4,
            TaskKind::TextConfig => 5,
            TaskKind::PagedCompilationFlag => 6,
            TaskKind::PagedDocument => 7,
            TaskKind::Diagnostics => 8,
            TaskKind::ProjectCompilation => 9,
            TaskKind::ProjectExport => 10,
            TaskKind::MarkdownExport => 11,
        }
    }
}

/// Two kinds with the same cell are the same kind.
pub proof fn lemma_slot_injective(a: TaskKind, b: TaskKind)
    ensures
        0 <= a.slot_spec() < TASK_KINDS,
        a.slot_spec() == b.slot_spec() <==> a == b,
{
}

/// What a task gives.
#[derive(Debug, PartialEq, Eq)]
pub enum TaskOutput {
    /// The task of the project.
    Project(ProjectTask),
    /// The settings of one export.
    Export(ExportConfig),
    /// A flag.
    Flag(bool),
    /// The compiled pages, if there are any.
    Document(Option<PagedDocument>),
    /// A text, if one was produced.
    Text(Option<String>),
    /// Nothing but the fact that the task ran.
    Done,
}

/// The result of a task as the graph keeps it and hands it out.
pub type Cached = Result<Arc<TaskOutput>, ExportError>;

/// The cell of one kind of task.
#[derive(Debug)]
pub enum Cell {
    /// Nothing was computed or provided yet.
    Empty,
    /// The computation was started and has not returned.
    Running,
    /// The result, kept for every later request.
    Filled(Cached),
}

/// `Arc::clone`: a second handle on the value that `value` points to.
#[verifier::external_body]
fn share<T>(value: &Arc<T>) -> (r: Arc<T>)
    ensures
        r == *value,
{
    Arc::clone(value)
}

/// A copy of a cached result.
fn copy_cached(value: &Cached) -> (r: Cached)
    ensures
        r == *value,
{
    match value {
        Ok(output) => Ok(share(output)),
        Err(error) => Err(error.duplicate()),
    }
}

/// A cached result as a plain value.
pub open spec fn plain(value: Cached) -> Result<TaskOutput, ExportError> {
    match value {
        Ok(output) => Ok(*output),
        Err(error) => Err(error),
    }
}

/// The graph of one compilation.
pub struct WorldComputeGraph {
    snap: CompileSnapshot,
    cells: Vec<Cell>,
    runs: Ghost<Seq<nat>>,
}

/// What `provide` does: an empty cell is filled with the value and nothing
/// else changes; any other cell is left as it is and the call fails with
/// `AlreadyProvided`. No computation is started either way.
pub open spec fn provided(
    before: WorldComputeGraph,
    after: WorldComputeGraph,
    kind: TaskKind,
    value: Result<TaskOutput, ExportError>,
    r: Result<(), ExportError>,
) -> bool {
    &&& after.extends(before)
    &&& after.same_but(before, kind)
    &&& after.runs(kind) == before.runs(kind)
    &&& r == provide_result(before, kind)
    &&& if before.cell(kind) is Empty {
        after.result(kind) == Some(value)
    } else {
        after.cell(kind) == before.cell(kind)
    }
}

/// What `provide` returns on a graph for a kind.
pub open spec fn provide_result(before: WorldComputeGraph, kind: TaskKind) -> Result<
    (),
    ExportError,
> {
    if before.cell(kind) is Empty {
        Ok(())
    } else {
        Err(ExportError::AlreadyProvided(kind))
    }
}

/// What `compute` does: a filled cell gives its result and the graph stays
/// as it is; a cell whose computation is running gives `CyclicTask` and the
/// graph stays as it is; for an empty cell the computation is started, once,
/// and its result fills the cell.
pub open spec fn computed(
    before: WorldComputeGraph,
    after: WorldComputeGraph,
    kind: TaskKind,
    out: Result<TaskOutput, ExportError>,
) -> bool {
    &&& after.extends(before)
    &&& match before.cell(kind) {
        Cell::Filled(value) => out == plain(value) && after == before,
        Cell::Running => out == Err::<TaskOutput, ExportError>(ExportError::CyclicTask(kind))
            && after == before,
        Cell::Empty => after.result(kind) == Some(out) && after.runs(kind) == 1,
    }
}

/// The result that a request for a kind gives, read from the graph before
/// and after it.
pub open spec fn outcome(
    before: WorldComputeGraph,
    after: WorldComputeGraph,
    kind: TaskKind,
) -> Result<TaskOutput, ExportError> {
    match before.cell(kind) {
        Cell::Running => Err(ExportError::CyclicTask(kind)),
        _ => match after.result(kind) {
            Some(value) => value,
            None => Err(ExportError::MissingTask(kind)),
        },
    }
}

/// A computation that the graph can run and keep the result of.
pub trait WorldComputable {
    /// What the computation can give. A computation that says nothing of
    /// its result can give anything.
    open spec fn yields(&self, out: Result<TaskOutput, ExportError>) -> bool {
        true
    }

    /// Runs the computation. It may ask the graph for other tasks; it
    /// leaves every filled cell as it is.
    fn compute(&self, graph: &mut WorldComputeGraph) -> (out: Result<TaskOutput, ExportError>)
        requires
            old(graph).wf(),
        ensures
            final(graph).wf(),
            final(graph).extends(*old(graph)),
            self.yields(out),
    ;
}

impl WorldComputeGraph {
    /// Whether the graph is well formed: it has one cell for each kind, a
    /// computation was started at most once for each, and never for an
    /// empty cell.
    pub closed spec fn wf(&self) -> bool {
        &&& self.cells@.len() == TASK_KINDS
        &&& self.runs@.len() == TASK_KINDS
        &&& forall|i: int|
            0 <= i < TASK_KINDS ==> match #[trigger] self.cells@[i] {
                Cell::Empty => self.runs@[i] == 0,
                Cell::Running => self.runs@[i] == 1,
                Cell::Filled(_) => self.runs@[i] <= 1,
            }
    }

    /// The snapshot that the tasks work on.
    pub closed spec fn snapshot(&self) -> CompileSnapshot {
        self.snap
    }

    /// The cell of a kind.
    pub closed spec fn cell(&self, kind: TaskKind) -> Cell {
        self.cells@[kind.slot_spec()]
    }

    /// How often the computation of a kind was started on this graph.
    pub closed spec fn runs(&self, kind: TaskKind) -> nat {
        self.runs@[kind.slot_spec()]
    }

    /// The result kept for a kind, if there is one.
    pub open spec fn cached(&self, kind: TaskKind) -> Option<Cached> {
        match self.cell(kind) {
            Cell::Filled(value) => Some(value),
            _ => None,
        }
    }

    /// The result kept for a kind, if there is one, as a plain value.
    pub open spec fn result(&self, kind: TaskKind) -> Option<Result<TaskOutput, ExportError>> {
        match self.cell(kind) {
            Cell::Filled(value) => Some(plain(value)),
            _ => None,
        }
    }

    /// Whether this graph differs from `earlier` in the cell of `kind` at
    /// most.
    pub open spec fn same_but(&self, earlier: Self, kind: TaskKind) -> bool {
        &&& self.snapshot() == earlier.snapshot()
        &&& forall|other: TaskKind|
            other != kind ==> #[trigger] self.cell(other) == earlier.cell(other)
        &&& forall|other: TaskKind|
            other != kind ==> #[trigger] self.runs(other) == earlier.runs(other)
    }

    /// Whether this graph is a later state of `earlier`: the same snapshot,
    /// every filled cell as it was, every running computation still
    /// running, and no computation forgotten.
    pub open spec fn extends(&self, earlier: Self) -> bool {
        &&& self.snapshot() == earlier.snapshot()
        &&& forall|kind: TaskKind|
            {
                &&& earlier.cell(kind) is Filled ==> #[trigger] self.cell(kind) == earlier.cell(
                    kind,
                )
                &&& earlier.cell(kind) is Running ==> self.cell(kind) is Running
            }
        &&& forall|kind: TaskKind| earlier.runs(kind) <= #[trigger] self.runs(kind)
    }

    /// A graph over a snapshot, with every cell empty.
    pub fn new(snap: CompileSnapshot) -> (graph: Self)
        ensures
            graph.wf(),
            graph.snapshot() == snap,
            forall|kind: TaskKind| #[trigger] graph.cell(kind) is Empty,
            forall|kind: TaskKind| #[trigger] graph.runs(kind) == 0,
    {
        let mut cells: Vec<Cell> = Vec::new();
        let mut i: usize = 0;
        while i < TASK_KINDS
            invariant
                i <= TASK_KINDS,
                cells@.len() == i,
                forall|j: int| 0 <= j < i ==> cells@[j] is Empty,
            decreases TASK_KINDS - i,
        {
            cells.push(Cell::Empty);
            i += 1;
        }
        let graph = WorldComputeGraph {
            snap,
            cells,
            runs: Ghost(Seq::new(TASK_KINDS as nat, |i: int| 0nat)),
        };
        proof {
            assert forall|kind: TaskKind| #[trigger] graph.cell(kind) is Empty by {
                lemma_slot_injective(kind, kind);
            }
            assert forall|kind: TaskKind| #[trigger] graph.runs(kind) == 0 by {
                lemma_slot_injective(kind, kind);
            }
        }
        graph
    }

    /// The snapshot that the tasks work on.
    pub fn snap(&self) -> (snap: &CompileSnapshot)
        ensures
            *snap == self.snapshot(),
    {
        &self.snap
    }

    /// The result kept for a kind, if there is one. Nothing is computed.
    pub fn get(&self, kind: TaskKind) -> (r: Option<Cached>)
        requires
            self.wf(),
        ensures
            r == self.cached(kind),
    {
        match &self.cells[kind.slot()] {
            Cell::Filled(value) => Some(copy_cached(value)),
            _ => None,
        }
    }

    /// The result kept for a kind; where there is none, the error
    /// `MissingTask`. Nothing is computed.
    pub fn must_get(&self, kind: TaskKind) -> (r: Cached)
        requires
            self.wf(),
        ensures
            match self.cached(kind) {
                Some(value) => r == value,
                None => r == Err::<Arc<TaskOutput>, ExportError>(ExportError::MissingTask(kind)),
            },
    {
        match self.get(kind) {
            Some(value) => value,
            None => Err(ExportError::MissingTask(kind)),
        }
    }

    /// Fills the empty cell of a kind with a value that was computed
    /// elsewhere. A cell that is filled, or whose computation is running,
    /// is left as it is, and the error `AlreadyProvided` is returned.
    pub fn provide(&mut self, kind: TaskKind, value: Result<TaskOutput, ExportError>) -> (r: Result<
        (),
        ExportError,
    >)
        requires
            old(self).wf(),
        ensures
            final(self).wf(),
            provided(*old(self), *final(self), kind, value, r),
    {
        let slot = kind.slot();
        match &self.cells[slot] {
            Cell::Empty => {},
            _ => {
                return Err(ExportError::AlreadyProvided(kind));
            },
        }
        let cached: Cached = match value {
            Ok(output) => Ok(Arc::new(output)),
            Err(error) => Err(error),
        };
        self.cells.set(slot, Cell::Filled(cached));
        proof {
            assert forall|other: TaskKind| other != kind implies #[trigger] self.cell(other)
                == old(self).cell(other) by {
                lemma_slot_injective(other, kind);
            }
        }
        Ok(())
    }

    /// The result of a kind: the one kept, if there is one; else the result
    /// of running `task` now, which is kept for every later request. A
    /// computation that asks for its own kind gets the error `CyclicTask`.
    pub fn compute<T: WorldComputable>(&mut self, kind: TaskKind, task: &T) -> (out: Cached)
        requires
            old(self).wf(),
        ensures
            final(self).wf(),
            computed(*old(self), *final(self), kind, plain(out)),
            plain(out) == outcome(*old(self), *final(self), kind),
            old(self).cell(kind) is Empty ==> task.yields(plain(out)),
    {
        let slot = kind.slot();
        match &self.cells[slot] {
            Cell::Filled(value) => {
                return copy_cached(value);
            },
            Cell::Running => {
                return Err(ExportError::CyclicTask(kind));
            },
            Cell::Empty => {},
        }
        self.cells.set(slot, Cell::Running);
        proof {
            self.runs@ = self.runs@.update(slot as int, 1nat);
        }
        let ghost marked = *self;
        proof {
            assert forall|other: TaskKind| other != kind implies #[trigger] marked.cell(other)
                == old(self).cell(other) && marked.runs(other) == old(self).runs(other) by {
                lemma_slot_injective(other, kind);
            }
        }
        let computed = task.compute(self);
        let ghost after = *self;
        assert(after.cell(kind) is Running);
        let cached: Cached = match computed {
            Ok(output) => Ok(Arc::new(output)),
            Err(error) => Err(error),
        };
        let out = copy_cached(&cached);
        self.cells.set(slot, Cell::Filled(cached));
        proof {
            assert forall|other: TaskKind| other != kind implies #[trigger] self.cell(other)
                == after.cell(other) by {
                lemma_slot_injective(other, kind);
            }
            assert(self.runs(kind) == 1);
            assert forall|other: TaskKind|
                old(self).cell(other) is Filled implies #[trigger] self.cell(other) == old(
                self,
            ).cell(other) by {
                lemma_slot_injective(other, kind);
                assert(marked.cell(other) == old(self).cell(other));
                assert(after.cell(other) == marked.cell(other));
            }
            assert forall|other: TaskKind|
                old(self).cell(other) is Running implies #[trigger] self.cell(other) is Running by {
                lemma_slot_injective(other, kind);
                assert(marked.cell(other) is Running);
                assert(after.cell(other) is Running);
            }
            assert forall|other: TaskKind| old(self).runs(other) <= #[trigger] self.runs(
                other,
            ) by {
                lemma_slot_injective(other, kind);
                assert(old(self).runs(other) <= marked.runs(other));
                assert(marked.runs(other) <= after.runs(other));
            }
        }
        out
    }
}

/// A later state of a later state is a later state.
pub proof fn lemma_extends_transitive(
    first: WorldComputeGraph,
    second: WorldComputeGraph,
    third: WorldComputeGraph,
)
    requires
        second.extends(first),
        third.extends(second),
    ensures
        third.extends(first),
{
    assert forall|kind: TaskKind| first.cell(kind) is Filled implies #[trigger] third.cell(kind)
        == first.cell(kind) by {
        assert(second.cell(kind) == first.cell(kind));
    }
    assert forall|kind: TaskKind| first.cell(kind) is Running implies #[trigger] third.cell(
        kind,
    ) is Running by {
        assert(second.cell(kind) is Running);
    }
    assert forall|kind: TaskKind| first.runs(kind) <= #[trigger] third.runs(kind) by {
        assert(first.runs(kind) <= second.runs(kind));
    }
}

/// On a well-formed graph the computation of a kind was started at most
/// once, and never for a cell that is still empty.
pub proof fn lemma_runs_at_most_once(graph: WorldComputeGraph, kind: TaskKind)
    requires
        graph.wf(),
    ensures
        graph.runs(kind) <= 1,
        graph.cell(kind) is Empty ==> graph.runs(kind) == 0,
        graph.cell(kind) is Running ==> graph.runs(kind) == 1,
{
    lemma_slot_injective(kind, kind);
}

/// Two requests for one kind start its computation once: the second gets
/// the result of the first, be it a value or an error, and changes nothing.
pub proof fn lemma_compute_twice_runs_once(
    first: WorldComputeGraph,
    second: WorldComputeGraph,
    third: WorldComputeGraph,
    kind: TaskKind,
    out1: Result<TaskOutput, ExportError>,
    out2: Result<TaskOutput, ExportError>,
)
    requires
        first.wf(),
        second.wf(),
        computed(first, second, kind, out1),
        computed(second, third, kind, out2),
    ensures
        out2 == out1,
        third == second,
        third.runs(kind) <= 1,
        first.cell(kind) is Empty ==> third.runs(kind) == 1,
{
    lemma_runs_at_most_once(second, kind);
}

/// After a value was provided for an empty cell, a request for that kind
/// gets the value and starts no computation.
pub proof fn lemma_provide_then_compute(
    first: WorldComputeGraph,
    second: WorldComputeGraph,
    third: WorldComputeGraph,
    kind: TaskKind,
    value: Result<TaskOutput, ExportError>,
    r: Result<(), ExportError>,
    out: Result<TaskOutput, ExportError>,
)
    requires
        first.wf(),
        first.cell(kind) is Empty,
        provided(first, second, kind, value, r),
        computed(second, third, kind, out),
    ensures
        r is Ok,
        out == value,
        third == second,
        third.runs(kind) == 0,
{
    lemma_runs_at_most_once(first, kind);
}

/// A second value for one kind is refused and the first one stays.
pub proof fn lemma_provide_twice_keeps_first(
    first: WorldComputeGraph,
    second: WorldComputeGraph,
    third: WorldComputeGraph,
    kind: TaskKind,
    value1: Result<TaskOutput, ExportError>,
    value2: Result<TaskOutput, ExportError>,
    r1: Result<(), ExportError>,
    r2: Result<(), ExportError>,
)
    requires
        first.cell(kind) is Empty,
        provided(first, second, kind, value1, r1),
        provided(second, third, kind, value2, r2),
    ensures
        r1 is Ok,
        r2 == Err::<(), ExportError>(ExportError::AlreadyProvided(kind)),
        third.result(kind) == Some(value1),
{
}

} // verus!
