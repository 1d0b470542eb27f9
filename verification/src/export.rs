//! The passes over a graph: the one that decides whether pages must be
//! compiled, and the one that selects the configured export, gates it by
//! its policy and prepares the artifact.

use std::sync::Arc;
use vstd::prelude::*;
use vstd::utf8::encode_utf8;
use crate::document::PagedDocument;
use crate::error::ExportError;
use crate::graph::{
    computed, lemma_extends_transitive, outcome, provide_result, provided, TaskKind, TaskOutput,
    WorldComputable, WorldComputeGraph,
};
use crate::project::{ExportConfig, ProjectTask, ProjectTaskKind};
use crate::timing::{
    any_due_without_document, needs_run_spec, ExportSignal, ExportTimings, TaskWhen,
};

verus! {

/// The policy that the graph holds for one export: none where the settings
/// are absent, the error of the cell where it holds one.
pub open spec fn policy_of(graph: WorldComputeGraph, kind: TaskKind) -> Result<
    Option<TaskWhen>,
    ExportError,
> {
    match graph.result(kind) {
        Some(Ok(TaskOutput::Export(config))) => Ok(Some(config.when)),
        Some(Err(error)) => Err(error),
        _ => Ok(None),
    }
}

/// The policies that decide on the compilation of pages: the one of the
/// diagnostics, which follow every edit, and those of the exports. The
/// settings are read in the order portable document, vector graphics, page
/// images, markdown, text, and the first error among them is the result.
pub open spec fn configured_policies(graph: WorldComputeGraph) -> Result<
    Seq<Option<TaskWhen>>,
    ExportError,
> {
    let pdf = policy_of(graph, TaskKind::PdfConfig);
    let svg = policy_of(graph, TaskKind::SvgConfig);
    let png = policy_of(graph, TaskKind::PngConfig);
    let md = policy_of(graph, TaskKind::MarkdownConfig);
    let text = policy_of(graph, TaskKind::TextConfig);
    if pdf is Err {
        Err(pdf->Err_0)
    } else if svg is Err {
        Err(svg->Err_0)
    } else if png is Err {
        Err(png->Err_0)
    } else if md is Err {
        Err(md->Err_0)
    } else if text is Err {
        Err(text->Err_0)
    } else {
        Ok(
            seq![
                Some(TaskWhen::OnType),
                pdf->Ok_0,
                svg->Ok_0,
                png->Ok_0,
                text->Ok_0,
                md->Ok_0,
            ],
        )
    }
}

/// Whether the pages must be compiled for a graph whose settings hold no
/// error: whether one of the policies is due for its events, judged
/// without a previous document.
pub open spec fn needs_pages(graph: WorldComputeGraph) -> bool {
    any_due_without_document(graph.snapshot().signal, configured_policies(graph)->Ok_0)
}

/// Reads the policy that the graph holds for one export.
fn read_policy(graph: &WorldComputeGraph, kind: TaskKind) -> (r: Result<
    Option<TaskWhen>,
    ExportError,
>)
    requires
        graph.wf(),
    ensures
        r == policy_of(*graph, kind),
{
    match graph.get(kind) {
        None => Ok(None),
        Some(Err(error)) => Err(error),
        Some(Ok(output)) => match &*output {
            TaskOutput::Export(config) => Ok(Some(config.when)),
            _ => Ok(None),
        },
    }
}

/// The pass that decides, before anything is exported, whether the pages
/// must be compiled.
#[derive(Clone, Copy, Debug, Default)]
pub struct ProjectCompilation;

impl ProjectCompilation {
    /// Decides whether the pages must be compiled: whether the diagnostics
    /// or any configured export is due, judged without a previous document.
    /// The decision is provided to the graph as the flag of the page
    /// compilation; a flag that is already there stays. Fails, and leaves
    /// the graph as it is, where the settings of an export hold an error.
    pub fn preconfig_timings(graph: &mut WorldComputeGraph) -> (r: Result<bool, ExportError>)
        requires
            old(graph).wf(),
        ensures
            final(graph).wf(),
            match configured_policies(*old(graph)) {
                Err(error) => r == Err::<bool, ExportError>(error) && *final(graph) == *old(graph),
                Ok(_) => {
                    &&& r == Ok::<bool, ExportError>(needs_pages(*old(graph)))
                    &&& provided(
                        *old(graph),
                        *final(graph),
                        TaskKind::PagedCompilationFlag,
                        Ok(TaskOutput::Flag(needs_pages(*old(graph)))),
                        provide_result(*old(graph), TaskKind::PagedCompilationFlag),
                    )
                },
            },
    {
        let paged_diag = Some(TaskWhen::OnType);
        let pdf = match read_policy(graph, TaskKind::PdfConfig) {
            Ok(policy) => policy,
            Err(error) => {
                return Err(error);
            },
        };
        let svg = match read_policy(graph, TaskKind::SvgConfig) {
            Ok(policy) => policy,
            Err(error) => {
                return Err(error);
            },
        };
        let png = match read_policy(graph, TaskKind::PngConfig) {
            Ok(policy) => policy,
            Err(error) => {
                return Err(error);
            },
        };
        let md = match read_policy(graph, TaskKind::MarkdownConfig) {
            Ok(policy) => policy,
            Err(error) => {
                return Err(error);
            },
        };
        let text = match read_policy(graph, TaskKind::TextConfig) {
            Ok(policy) => policy,
            Err(error) => {
                return Err(error);
            },
        };
        let mut policies: Vec<Option<TaskWhen>> = Vec::new();
        policies.push(paged_diag);
        policies.push(pdf);
        policies.push(svg);
        policies.push(png);
        policies.push(text);
        policies.push(md);
        proof {
            assert(policies@ == configured_policies(*old(graph))->Ok_0);
        }
        let compile_paged = ExportTimings::any_needs_run(graph.snap(), &policies);
        let _ = graph.provide(TaskKind::PagedCompilationFlag, Ok(TaskOutput::Flag(compile_paged)));
        Ok(compile_paged)
    }

    /// Runs the pass: decides on the compilation of pages, then runs the
    /// diagnostics, whatever was decided. Fails with the error of the
    /// decision, before the diagnostics, or with that of the diagnostics.
    pub fn compute<D: WorldComputable>(graph: &mut WorldComputeGraph, diagnostics: &D) -> (r:
        Result<ProjectCompilation, ExportError>)
        requires
            old(graph).wf(),
        ensures
            final(graph).wf(),
            final(graph).extends(*old(graph)),
            match configured_policies(*old(graph)) {
                Err(error) => r == Err::<ProjectCompilation, ExportError>(error) && *final(graph)
                    == *old(graph),
                Ok(_) => if old(graph).cell(TaskKind::PagedCompilationFlag) is Empty {
                    final(graph).result(TaskKind::PagedCompilationFlag) == Some(
                        Ok::<TaskOutput, ExportError>(TaskOutput::Flag(needs_pages(*old(graph)))),
                    )
                } else {
                    final(graph).cell(TaskKind::PagedCompilationFlag) == old(graph).cell(
                        TaskKind::PagedCompilationFlag,
                    )
                },
            },
            configured_policies(*old(graph)) is Ok ==> exists|out: Result<TaskOutput, ExportError>|
                #[trigger] diagnostics.yields(out) && r == pass_result(out),
    {
        match Self::preconfig_timings(graph) {
            Ok(_) => {},
            Err(error) => {
                return Err(error);
            },
        }
        let ghost decided = *graph;
        assert(!(decided.cell(TaskKind::PagedCompilationFlag) is Empty));
        let diagnosed = diagnostics.compute(graph);
        assert(diagnostics.yields(diagnosed));
        match diagnosed {
            Ok(_) => {},
            Err(error) => {
                proof {
                    lemma_extends_transitive(*old(graph), decided, *graph);
                    assert(graph.cell(TaskKind::PagedCompilationFlag) == decided.cell(
                        TaskKind::PagedCompilationFlag,
                    ));
                }
                return Err(error);
            },
        }
        proof {
            lemma_extends_transitive(*old(graph), decided, *graph);
            assert(graph.cell(TaskKind::PagedCompilationFlag) == decided.cell(
                TaskKind::PagedCompilationFlag,
            ));
        }
        Ok(ProjectCompilation)
    }
}

/// The result of the pass for what the diagnostics gave: their error, or
/// the fact that the pass ran.
pub open spec fn pass_result(out: Result<TaskOutput, ExportError>) -> Result<
    ProjectCompilation,
    ExportError,
> {
    match out {
        Ok(_) => Ok(ProjectCompilation),
        Err(error) => Err(error),
    }
}

/// The pass that decides on the compilation of pages, as a task of the
/// graph, with the diagnostics that it runs.
pub struct CompilationPass<D> {
    pub diagnostics: D,
}

impl<D: WorldComputable> WorldComputable for CompilationPass<D> {
    /// Where the pass succeeds it gives nothing but the fact that it ran,
    /// and the diagnostics succeeded. Where it fails, the error is that of
    /// the settings or of the diagnostics.
    open spec fn yields(&self, out: Result<TaskOutput, ExportError>) -> bool {
        out is Ok ==> {
            &&& out->Ok_0 == TaskOutput::Done
            &&& exists|diagnosed: Result<TaskOutput, ExportError>|
                #[trigger] self.diagnostics.yields(diagnosed) && diagnosed is Ok
        }
    }

    /// Runs the pass as a task. Where the settings of an export hold an
    /// error, that error is the result and the graph stays as it is. Else
    /// the flag of the page compilation is decided, the diagnostics are
    /// run, and the result follows them: their error, or the fact that the
    /// pass ran.
    fn compute(&self, graph: &mut WorldComputeGraph) -> (out: Result<TaskOutput, ExportError>)
        ensures
            match configured_policies(*old(graph)) {
                Err(error) => out == Err::<TaskOutput, ExportError>(error) && *final(graph)
                    == *old(graph),
                Ok(_) => {
                    &&& flag_decided(*old(graph), *final(graph))
                    &&& exists|diagnosed: Result<TaskOutput, ExportError>|
                        #[trigger] self.diagnostics.yields(diagnosed) && out == pass_output(
                            diagnosed,
                        )
                },
            },
    {
        let r = ProjectCompilation::compute(graph, &self.diagnostics);
        proof {
            if configured_policies(*old(graph)) is Ok {
                let diagnosed = choose|diagnosed: Result<TaskOutput, ExportError>|
                    #[trigger] self.diagnostics.yields(diagnosed) && r == pass_result(diagnosed);
                assert(self.diagnostics.yields(diagnosed));
                assert(pass_output(diagnosed) is Ok <==> r is Ok);
                assert(r is Err ==> pass_output(diagnosed) == Err::<TaskOutput, ExportError>(
                    r->Err_0,
                ));
            }
        }
        match r {
            Ok(_) => Ok(TaskOutput::Done),
            Err(error) => Err(error),
        }
    }
}

/// The result of the pass as a task, for what the diagnostics gave: their
/// error, or the fact that the pass ran.
pub open spec fn pass_output(diagnosed: Result<TaskOutput, ExportError>) -> Result<
    TaskOutput,
    ExportError,
> {
    match diagnosed {
        Ok(_) => Ok(TaskOutput::Done),
        Err(error) => Err(error),
    }
}

/// Whether the flag of the page compilation is as the pass leaves it: an
/// empty cell holds the decision, any other cell is as it was.
pub open spec fn flag_decided(before: WorldComputeGraph, after: WorldComputeGraph) -> bool {
    if before.cell(TaskKind::PagedCompilationFlag) is Empty {
        after.result(TaskKind::PagedCompilationFlag) == Some(
            Ok::<TaskOutput, ExportError>(TaskOutput::Flag(needs_pages(before))),
        )
    } else {
        after.cell(TaskKind::PagedCompilationFlag) == before.cell(TaskKind::PagedCompilationFlag)
    }
}

/// With the diagnostics following every edit, pages are compiled whatever
/// the exports are set to.
pub proof fn lemma_pages_always_compiled(graph: WorldComputeGraph)
    requires
        configured_policies(graph) is Ok,
    ensures
        needs_pages(graph),
{
    let policies = configured_policies(graph)->Ok_0;
    assert(needs_run_spec(graph.snapshot().signal, policies[0], None));
}

/// An artifact that is ready to be written.
#[derive(Debug, PartialEq, Eq)]
pub struct Artifact {
    /// Where it goes.
    pub path: String,
    /// What is written there.
    pub bytes: Vec<u8>,
}

/// What remains to be done for an export.
#[derive(Debug, PartialEq, Eq)]
pub enum ExportStep {
    /// Nothing: there is no output path, the export is not due, or no
    /// document was compiled.
    Idle,
    /// The encoder of this kind of task must run on the compiled document;
    /// it gives bytes, which go to `path` as they are.
    EncodeBytes { kind: ProjectTaskKind, path: String },
    /// The encoder of this kind of task must run on the compiled document;
    /// it gives a text, which goes to `path` in UTF-8.
    EncodeString { kind: ProjectTaskKind, path: String },
    /// The converter to markdown must run on the snapshot; what it gives
    /// goes to `path` in UTF-8.
    ConvertMarkdown { path: String },
    /// The artifact is to be written.
    Write(Artifact),
}

/// An export step as a plain value.
pub enum ExportPlan {
    Idle,
    EncodeBytes { kind: ProjectTaskKind, path: String },
    EncodeString { kind: ProjectTaskKind, path: String },
    ConvertMarkdown { path: String },
    Write { path: String, bytes: Seq<u8> },
}

impl View for ExportStep {
    type V = ExportPlan;

    open spec fn view(&self) -> ExportPlan {
        match *self {
            ExportStep::Idle => ExportPlan::Idle,
            ExportStep::EncodeBytes { kind, path } => ExportPlan::EncodeBytes { kind, path },
            ExportStep::EncodeString { kind, path } => ExportPlan::EncodeString { kind, path },
            ExportStep::ConvertMarkdown { path } => ExportPlan::ConvertMarkdown { path },
            ExportStep::Write(artifact) => ExportPlan::Write {
                path: artifact.path,
                bytes: artifact.bytes@,
            },
        }
    }
}

/// The result of the export pass as a plain value.
pub open spec fn step_view(r: Result<ExportStep, ExportError>) -> Result<ExportPlan, ExportError> {
    match r {
        Ok(step) => Ok(step@),
        Err(error) => Err(error),
    }
}

/// The task that the graph holds for the project; `MissingTask` where it
/// holds none.
pub open spec fn project_task(graph: WorldComputeGraph) -> Result<ProjectTask, ExportError> {
    match graph.result(TaskKind::ProjectConfig) {
        Some(Ok(TaskOutput::Project(task))) => Ok(task),
        Some(Err(error)) => Err(error),
        _ => Err(ExportError::MissingTask(TaskKind::ProjectConfig)),
    }
}

/// The path that the artifact goes to: the resolved one, for a task that
/// has a pattern to resolve.
pub open spec fn output_path(task: ProjectTask, resolved: Option<String>) -> Option<String> {
    if task.output_spec().is_some() {
        resolved
    } else {
        None
    }
}

/// The kinds of task that have an export.
pub open spec fn has_export(kind: ProjectTaskKind) -> bool {
    kind == ProjectTaskKind::ExportPdf || kind == ProjectTaskKind::ExportPng || kind
        == ProjectTaskKind::ExportSvg || kind == ProjectTaskKind::ExportMd || kind
        == ProjectTaskKind::ExportText
}

/// The document that a request to the graph gave; `MissingTask` where the
/// cell holds something else.
pub open spec fn document_of(value: Result<TaskOutput, ExportError>) -> Result<
    Option<PagedDocument>,
    ExportError,
> {
    match value {
        Ok(TaskOutput::Document(doc)) => Ok(doc),
        Ok(_) => Err(ExportError::MissingTask(TaskKind::PagedDocument)),
        Err(error) => Err(error),
    }
}

/// Whether an export goes ahead: there is a document, and the policy is
/// due when judged by it.
pub open spec fn goes_ahead(
    signal: ExportSignal,
    timing: Option<TaskWhen>,
    doc: Option<PagedDocument>,
) -> bool {
    match doc {
        Some(d) => needs_run_spec(signal, timing, Some(d.has_title())),
        None => false,
    }
}

/// Whether the export pass asks the graph for the compiled document: the
/// task is there, it has an output path, and its kind has an export.
pub open spec fn asks_for_document(
    task: Result<ProjectTask, ExportError>,
    resolved: Option<String>,
) -> bool {
    match task {
        Ok(t) => output_path(t, resolved).is_some() && has_export(t.kind_spec()),
        Err(_) => false,
    }
}

/// What is done for an export that goes ahead: the text export gives its
/// artifact, the text of the document in UTF-8; the markdown export leaves
/// the conversion to be done; the others leave the encoding to be done,
/// to bytes for portable documents and page images, to a text for vector
/// graphics.
pub open spec fn due_plan(kind: ProjectTaskKind, path: String, doc: PagedDocument) -> ExportPlan {
    match kind {
        ProjectTaskKind::ExportText => ExportPlan::Write { path, bytes: encode_utf8(doc.text()) },
        ProjectTaskKind::ExportMd => ExportPlan::ConvertMarkdown { path },
        ProjectTaskKind::ExportSvg => ExportPlan::EncodeString { kind, path },
        _ => ExportPlan::EncodeBytes { kind, path },
    }
}

/// What the export pass decides, given the task of the project, the
/// resolved output path, the events of the snapshot and what the request
/// for the compiled document gave.
pub open spec fn export_spec(
    task: Result<ProjectTask, ExportError>,
    resolved: Option<String>,
    signal: ExportSignal,
    doc: Result<TaskOutput, ExportError>,
) -> Result<ExportPlan, ExportError> {
    match task {
        Err(error) => Err(error),
        Ok(t) => match output_path(t, resolved) {
            None => Ok(ExportPlan::Idle),
            Some(path) => if !has_export(t.kind_spec()) {
                Err(ExportError::Unimplemented(t.kind_spec()))
            } else {
                match document_of(doc) {
                    Err(error) => Err(error),
                    Ok(d) => if !goes_ahead(signal, t.when_spec(), d) {
                        Ok(ExportPlan::Idle)
                    } else {
                        Ok(due_plan(t.kind_spec(), path, d.unwrap()))
                    },
                }
            },
        },
    }
}

/// The export of the text of a document.
#[derive(Clone, Copy, Debug)]
pub struct TextExport;

impl TextExport {
    /// Extracts the full text of the document: every text run in document
    /// order, whatever its style. The settings are not read.
    pub fn run(_graph: &WorldComputeGraph, doc: &PagedDocument, _config: &ExportConfig) -> (r:
        Result<String, ExportError>)
        ensures
            r is Ok,
            r->Ok_0@ == doc.text(),
    {
        Ok(doc.full_text())
    }
}

/// The conversion of a project to markdown, with what the converter gave.
#[derive(Debug)]
pub struct TypliteMdExport(pub Option<Result<String, String>>);

impl TypliteMdExport {
    /// The text that precedes the cause in the error of a conversion.
    pub open spec fn failure_prefix() -> Seq<char> {
        "failed to convert to markdown: "@
    }

    /// Takes what the converter gave: the markdown, which is always
    /// content, or the cause of its failure, which is wrapped.
    pub fn run(converted: Result<String, String>) -> (r: Result<Option<String>, ExportError>)
        ensures
            match converted {
                Ok(markdown) => r == Ok::<Option<String>, ExportError>(Some(markdown)),
                Err(cause) => r is Err && r->Err_0 is Conversion && r->Err_0->Conversion_cause@
                    == Self::failure_prefix() + cause@,
            },
    {
        match converted {
            Ok(markdown) => Ok(Some(markdown)),
            Err(cause) => {
                let mut message = String::from_str("failed to convert to markdown: ");
                message.append(cause.as_str());
                Err(ExportError::Conversion { cause: message })
            },
        }
    }
}

impl WorldComputable for TypliteMdExport {
    /// The markdown of what the converter gave, or its wrapped failure; no
    /// text where the converter did not run.
    open spec fn yields(&self, out: Result<TaskOutput, ExportError>) -> bool {
        match self.0 {
            None => out == Ok::<TaskOutput, ExportError>(TaskOutput::Text(None)),
            Some(Ok(markdown)) => out == Ok::<TaskOutput, ExportError>(
                TaskOutput::Text(Some(markdown)),
            ),
            Some(Err(cause)) => out is Err && out->Err_0 is Conversion
                && out->Err_0->Conversion_cause@ == TypliteMdExport::failure_prefix() + cause@,
        }
    }

    /// Gives the markdown as the result of a task, and leaves the graph as
    /// it is.
    fn compute(&self, graph: &mut WorldComputeGraph) -> (out: Result<TaskOutput, ExportError>)
        ensures
            *final(graph) == *old(graph),
    {
        let converted = match &self.0 {
            None => {
                return Ok(TaskOutput::Text(None));
            },
            Some(Ok(markdown)) => Ok(markdown.clone()),
            Some(Err(cause)) => Err(cause.clone()),
        };
        match Self::run(converted) {
            Ok(markdown) => Ok(TaskOutput::Text(markdown)),
            Err(error) => Err(error),
        }
    }
}

/// The export of a project: the configured task, gated by its policy.
#[derive(Clone, Copy, Debug)]
pub struct ProjectExport;

impl ProjectExport {
    /// Prepares the artifact of an export whose encoder gave bytes.
    pub fn export_bytes(path: String, encoded: Result<Vec<u8>, ExportError>) -> (r: Result<
        Artifact,
        ExportError,
    >)
        ensures
            match encoded {
                Ok(bytes) => r == Ok::<Artifact, ExportError>(Artifact { path, bytes }),
                Err(error) => r == Err::<Artifact, ExportError>(error),
            },
    {
        match encoded {
            Ok(bytes) => Ok(Artifact { path, bytes }),
            Err(error) => Err(error),
        }
    }

    /// Prepares the artifact of an export whose encoder gave a text: the
    /// bytes are the text in UTF-8.
    pub fn export_string(path: String, encoded: Result<String, ExportError>) -> (r: Result<
        Artifact,
        ExportError,
    >)
        ensures
            match encoded {
                Ok(text) => r is Ok && r->Ok_0.path == path && r->Ok_0.bytes@ == encode_utf8(
                    text@,
                ),
                Err(error) => r == Err::<Artifact, ExportError>(error),
            },
    {
        match encoded {
            Ok(text) => Ok(Artifact { path, bytes: text.as_str().as_bytes_vec() }),
            Err(error) => Err(error),
        }
    }

    /// Prepares the artifact of the markdown export from what the converter
    /// gave: the markdown in UTF-8, or the wrapped cause of the failure.
    pub fn export_markdown(path: String, converted: Result<String, String>) -> (r: Result<
        Artifact,
        ExportError,
    >)
        ensures
            match converted {
                Ok(markdown) => r is Ok && r->Ok_0.path == path && r->Ok_0.bytes@ == encode_utf8(
                    markdown@,
                ),
                Err(cause) => r is Err && r->Err_0 is Conversion && r->Err_0->Conversion_cause@
                    == TypliteMdExport::failure_prefix() + cause@,
            },
    {
        match TypliteMdExport::run(converted) {
            Ok(Some(markdown)) => Self::export_string(path, Ok(markdown)),
            Ok(None) => Self::export_string(path, Ok(String::new())),
            Err(error) => Err(error),
        }
    }

    /// Closes an export after the artifact was handed to the file system:
    /// a failure to write becomes the error of the export and carries the
    /// path.
    pub fn written(path: String, outcome: Result<(), String>) -> (r: Result<
        ProjectExport,
        ExportError,
    >)
        ensures
            match outcome {
                Ok(_) => r is Ok,
                Err(cause) => r == Err::<ProjectExport, ExportError>(
                    ExportError::Io { path, cause },
                ),
            },
    {
        match outcome {
            Ok(_) => Ok(ProjectExport),
            Err(cause) => Err(ExportError::Io { path, cause }),
        }
    }

    /// Runs the export pass. `resolved` is the output path that the pattern
    /// of the task resolves to for the entry file of the project, if it
    /// resolves. `compiler` compiles the pages.
    ///
    /// Without a task the pass fails with the error of its cell. Without an
    /// output path nothing is done. A task without an export fails with
    /// `Unimplemented`. Else the compiled document is requested from the
    /// graph, and an error of that request is the error of the pass. The
    /// export goes ahead only where there is a document and the policy is
    /// due when judged by it: the text export gives the artifact at once,
    /// the others leave the encoding or the conversion to be done.
    pub fn compute<D: WorldComputable>(
        graph: &mut WorldComputeGraph,
        resolved: Option<String>,
        compiler: &D,
    ) -> (r: Result<ExportStep, ExportError>)
        requires
            old(graph).wf(),
        ensures
            final(graph).wf(),
            step_view(r) == export_spec(
                project_task(*old(graph)),
                resolved,
                old(graph).snapshot().signal,
                outcome(*old(graph), *final(graph), TaskKind::PagedDocument),
            ),
            if asks_for_document(project_task(*old(graph)), resolved) {
                &&& computed(
                    *old(graph),
                    *final(graph),
                    TaskKind::PagedDocument,
                    outcome(*old(graph), *final(graph), TaskKind::PagedDocument),
                )
                &&& old(graph).cell(TaskKind::PagedDocument) is Empty ==> compiler.yields(
                    outcome(*old(graph), *final(graph), TaskKind::PagedDocument),
                )
            } else {
                *final(graph) == *old(graph)
            },
    {
        let config = match graph.must_get(TaskKind::ProjectConfig) {
            Ok(config) => config,
            Err(error) => {
                return Err(error);
            },
        };
        let task: &ProjectTask = match &*config {
            TaskOutput::Project(task) => task,
            _ => {
                return Err(ExportError::MissingTask(TaskKind::ProjectConfig));
            },
        };
        let path = match (task.output_pattern(), resolved) {
            (Some(_), Some(path)) => path,
            _ => {
                return Ok(ExportStep::Idle);
            },
        };
        let policy = task.when();
        let kind = task.kind();
        match kind {
            ProjectTaskKind::Preview | ProjectTaskKind::ExportHtml | ProjectTaskKind::Query => {
                return Err(ExportError::Unimplemented(kind));
            },
            _ => {},
        }
        let compiled = match graph.compute(TaskKind::PagedDocument, compiler) {
            Ok(compiled) => compiled,
            Err(error) => {
                return Err(error);
            },
        };
        let doc: &PagedDocument = match &*compiled {
            TaskOutput::Document(Some(doc)) => doc,
            TaskOutput::Document(None) => {
                return Ok(ExportStep::Idle);
            },
            _ => {
                return Err(ExportError::MissingTask(TaskKind::PagedDocument));
            },
        };
        if !ExportTimings::needs_run(graph.snap(), policy, Some(doc)) {
            return Ok(ExportStep::Idle);
        }
        match task {
            ProjectTask::ExportText(config) => {
                let text = TextExport::run(graph, doc, config);
                match Self::export_string(path, text) {
                    Ok(artifact) => Ok(ExportStep::Write(artifact)),
                    Err(error) => Err(error),
                }
            },
            ProjectTask::ExportMd(_) => Ok(ExportStep::ConvertMarkdown { path }),
            ProjectTask::ExportSvg(_) => Ok(ExportStep::EncodeString { kind, path }),
            _ => Ok(ExportStep::EncodeBytes { kind, path }),
        }
    }
}

/// Without an output path the pass does nothing and does not fail,
/// whatever the kind of the task, the events and the document: no document
/// is requested and nothing is to be written.
pub proof fn lemma_no_output_path_is_idle(
    task: ProjectTask,
    resolved: Option<String>,
    signal: ExportSignal,
    doc: Result<TaskOutput, ExportError>,
)
    requires
        output_path(task, resolved).is_none(),
    ensures
        export_spec(Ok(task), resolved, signal, doc) == Ok::<ExportPlan, ExportError>(
            ExportPlan::Idle,
        ),
        !asks_for_document(Ok(task), resolved),
{
}

/// A preview has no output path, so it always does nothing.
pub proof fn lemma_preview_is_idle(
    resolved: Option<String>,
    signal: ExportSignal,
    doc: Result<TaskOutput, ExportError>,
)
    ensures
        export_spec(Ok(ProjectTask::Preview), resolved, signal, doc) == Ok::<
            ExportPlan,
            ExportError,
        >(ExportPlan::Idle),
{
}

/// A task without an export that has an output path fails with
/// `Unimplemented`, and no document is requested.
pub proof fn lemma_unimplemented_is_signalled(
    task: ProjectTask,
    resolved: Option<String>,
    signal: ExportSignal,
    doc: Result<TaskOutput, ExportError>,
)
    requires
        output_path(task, resolved).is_some(),
        !has_export(task.kind_spec()),
    ensures
        export_spec(Ok(task), resolved, signal, doc) == Err::<ExportPlan, ExportError>(
            ExportError::Unimplemented(task.kind_spec()),
        ),
        !asks_for_document(Ok(task), resolved),
{
}

/// Where no document was compiled the pass does nothing and does not fail,
/// whatever the policy.
pub proof fn lemma_no_document_is_idle(
    task: ProjectTask,
    resolved: Option<String>,
    signal: ExportSignal,
)
    requires
        has_export(task.kind_spec()),
    ensures
        export_spec(Ok(task), resolved, signal, Ok(TaskOutput::Document(None))) == Ok::<
            ExportPlan,
            ExportError,
        >(ExportPlan::Idle),
{
}

/// Where the policy is not due for the compiled document the pass does
/// nothing and does not fail.
pub proof fn lemma_not_due_is_idle(
    task: ProjectTask,
    resolved: Option<String>,
    signal: ExportSignal,
    doc: PagedDocument,
)
    requires
        has_export(task.kind_spec()),
        !needs_run_spec(signal, task.when_spec(), Some(doc.has_title())),
    ensures
        export_spec(Ok(task), resolved, signal, Ok(TaskOutput::Document(Some(doc)))) == Ok::<
            ExportPlan,
            ExportError,
        >(ExportPlan::Idle),
{
}

/// An error of the compilation is the error of the pass, for every task
/// that has an export and an output path.
pub proof fn lemma_upstream_error_is_passed_on(
    task: ProjectTask,
    resolved: Option<String>,
    signal: ExportSignal,
    error: ExportError,
)
    requires
        has_export(task.kind_spec()),
        output_path(task, resolved).is_some(),
    ensures
        export_spec(Ok(task), resolved, signal, Err(error)) == Err::<ExportPlan, ExportError>(
            error,
        ),
{
}

} // verus!
