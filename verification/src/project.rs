//! What a project asks for: one task, and for an export its policy and the
//! pattern of the path that the artifact goes to.

use vstd::prelude::*;
use crate::timing::TaskWhen;

verus! {

/// The settings that every export shares.
#[derive(Debug, PartialEq, Eq)]
pub struct ExportConfig {
    /// The policy under which the export runs again.
    pub when: TaskWhen,
    /// The pattern of the output path, with its substitution variables.
    pub output: Option<String>,
}

/// The task of a project.
#[derive(Debug, PartialEq, Eq)]
pub enum ProjectTask {
    /// Serve a live preview.
    Preview,
    /// Export a portable document.
    ExportPdf(ExportConfig),
    /// Export page images.
    ExportPng(ExportConfig),
    /// Export vector graphics.
    ExportSvg(ExportConfig),
    /// Export a web page.
    ExportHtml(ExportConfig),
    /// Export converted markdown.
    ExportMd(ExportConfig),
    /// Export the plain text.
    ExportText(ExportConfig),
    /// Query the document.
    Query(ExportConfig),
}

/// The kind of a project task, without its settings.
#[derive(Clone, Copy, Debug, PartialEq, Eq, Structural)]
pub enum ProjectTaskKind {
    Preview,
    ExportPdf,
    ExportPng,
    ExportSvg,
    ExportHtml,
    ExportMd,
    ExportText,
    Query,
}

impl ProjectTask {
    /// The export settings of the task; a preview has none.
    pub open spec fn export_spec(&self) -> Option<ExportConfig> {
        match *self {
            ProjectTask::Preview => None,
            ProjectTask::ExportPdf(config) => Some(config),
            ProjectTask::ExportPng(config) => Some(config),
            ProjectTask::ExportSvg(config) => Some(config),
            ProjectTask::ExportHtml(config) => Some(config),
            ProjectTask::ExportMd(config) => Some(config),
            ProjectTask::ExportText(config) => Some(config),
            ProjectTask::Query(config) => Some(config),
        }
    }

    /// The kind of the task.
    pub open spec fn kind_spec(&self) -> ProjectTaskKind {
        match *self {
            ProjectTask::Preview => ProjectTaskKind::Preview,
            ProjectTask::ExportPdf(_) => ProjectTaskKind::ExportPdf,
            ProjectTask::ExportPng(_) => ProjectTaskKind::ExportPng,
            ProjectTask::ExportSvg(_) => ProjectTaskKind::ExportSvg,
            ProjectTask::ExportHtml(_) => ProjectTaskKind::ExportHtml,
            ProjectTask::ExportMd(_) => ProjectTaskKind::ExportMd,
            ProjectTask::ExportText(_) => ProjectTaskKind::ExportText,
            ProjectTask::Query(_) => ProjectTaskKind::Query,
        }
    }

    /// The policy of the task; a preview has none.
    pub open spec fn when_spec(&self) -> Option<TaskWhen> {
        match self.export_spec() {
            Some(config) => Some(config.when),
            None => None,
        }
    }

    /// The pattern of the output path; none for a preview and for an export
    /// without one.
    pub open spec fn output_spec(&self) -> Option<String> {
        match self.export_spec() {
            Some(config) => config.output,
            None => None,
        }
    }

    /// The export settings of the task; a preview has none.
    pub fn as_export(&self) -> (r: Option<&ExportConfig>)
        ensures
            match r {
                Some(config) => self.export_spec() == Some(*config),
                None => self.export_spec().is_none(),
            },
    {
        match self {
            ProjectTask::Preview => None,
            ProjectTask::ExportPdf(config) => Some(config),
            ProjectTask::ExportPng(config) => Some(config),
            ProjectTask::ExportSvg(config) => Some(config),
            ProjectTask::ExportHtml(config) => Some(config),
            ProjectTask::ExportMd(config) => Some(config),
            ProjectTask::ExportText(config) => Some(config),
            ProjectTask::Query(config) => Some(config),
        }
    }

    /// The kind of the task.
    pub fn kind(&self) -> (r: ProjectTaskKind)
        ensures
            r == self.kind_spec(),
    {
        match self {
            ProjectTask::Preview => ProjectTaskKind::Preview,
            ProjectTask::ExportPdf(_) => ProjectTaskKind::ExportPdf,
            ProjectTask::ExportPng(_) => ProjectTaskKind::ExportPng,
            ProjectTask::ExportSvg(_) => ProjectTaskKind::ExportSvg,
            ProjectTask::ExportHtml(_) => ProjectTaskKind::ExportHtml,
            ProjectTask::ExportMd(_) => ProjectTaskKind::ExportMd,
            ProjectTask::ExportText(_) => ProjectTaskKind::ExportText,
            ProjectTask::Query(_) => ProjectTaskKind::Query,
        }
    }

    /// The policy of the task; a preview has none.
    pub fn when(&self) -> (r: Option<TaskWhen>)
        ensures
            r == self.when_spec(),
    {
        match self.as_export() {
            Some(config) => Some(config.when),
            None => None,
        }
    }

    /// The pattern of the output path; none for a preview and for an export
    /// without one.
    pub fn output_pattern(&self) -> (r: Option<&String>)
        ensures
            match r {
                Some(pattern) => self.output_spec() == Some(*pattern),
                None => self.output_spec().is_none(),
            },
    {
        match self.as_export() {
            Some(config) => config.output.as_ref(),
            None => None,
        }
    }
}

} // verus!
