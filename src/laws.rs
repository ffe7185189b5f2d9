use vstd::prelude::*;
use crate::capability::{format_supported, FeatureSupport};
use crate::outcome::{response_of, FormatResult};
use crate::pipeline::{advances, vcs_base_of, Action, Event, ManifestData, Pipeline, ProjectHandle, Stage};

verus! {

/// The project handle a stage holds, once the project is registered.
pub open spec fn stage_handle(s: Stage) -> Option<ProjectHandle> {
    match s {
        Stage::AwaitSettings { project } => Some(project),
        Stage::AwaitSupport { project } => Some(project),
        Stage::AwaitOpen { project } => Some(project),
        Stage::AwaitFormat { project } => Some(project),
        _ => None,
    }
}

/// The project handle an action is addressed to, if it is addressed to one.
pub open spec fn action_handle(a: Action) -> Option<ProjectHandle> {
    match a {
        Action::ApplySettings { project, .. } => Some(project),
        Action::CheckSupport { project, .. } => Some(project),
        Action::OpenFile { project, .. } => Some(project),
        Action::FormatFile { project, .. } => Some(project),
        _ => None,
    }
}

/// A file that the capability check does not clear for formatting (its type is not recognized,
/// an ignore rule matches it, or formatting is off) ends as `Ignored`, whatever its
/// content, and is never opened.
pub proof fn lemma_unsupported_file_is_ignored(
    pre: Pipeline,
    f: FeatureSupport,
    post: Pipeline,
    a: Action,
)
    requires
        pre.stage is AwaitSupport,
        !format_supported(f),
        advances(pre, Event::SupportReported(Ok(f)), post, a),
    ensures
        a == (Action::Finish { outcome: Ok(FormatResult::Ignored) }),
        post.stage is Finished,
{
}

/// With no configuration file found the request goes on with the default
/// configuration, and ignore rules are rooted at the working directory.
pub proof fn lemma_missing_configuration_goes_on(pre: Pipeline, post: Pipeline, a: Action)
    requires
        pre.stage is AwaitConfiguration,
        advances(pre, Event::ConfigurationLoaded(Ok(None)), post, a),
    ensures
        post.stage == (Stage::AwaitManifest { vcs_base: pre.working_dir }),
        a == (Action::ResolveManifest { dir: pre.working_dir }),
{
}

/// Manifest resolution never aborts the request: a manifest found is kept for the
/// settings update, and a failure to resolve one goes on without a manifest.
pub proof fn lemma_manifest_never_aborts(
    pre: Pipeline,
    r: Result<Option<ManifestData>, String>,
    post: Pipeline,
    a: Action,
)
    requires
        pre.stage is AwaitManifest,
        advances(pre, Event::ManifestResolved(r), post, a),
    ensures
        a == (Action::OpenProject { dir: pre.working_dir }),
        post.stage is AwaitProject,
        r matches Ok(m) ==> post.stage->manifest == m,
        r is Err ==> post.stage->manifest is None,
{
}

/// A manifest gathered before registration reaches the project in the settings update.
pub proof fn lemma_manifest_is_attached(pre: Pipeline, h: ProjectHandle, post: Pipeline, a: Action)
    requires
        pre.stage is AwaitProject,
        advances(pre, Event::ProjectOpened(Ok(h)), post, a),
    ensures
        a matches Action::ApplySettings { project, vcs_base, manifest, .. } && project == h
            && vcs_base == pre.stage->AwaitProject_vcs_base && manifest == pre.stage->manifest,
{
}

/// The text the engine formatted is the text of the `Success` outcome, unchanged.
pub proof fn lemma_formatted_text_unchanged(pre: Pipeline, t: String, post: Pipeline, a: Action)
    requires
        pre.stage is AwaitFormat,
        advances(pre, Event::Formatted(Ok(t)), post, a),
    ensures
        a matches Action::Finish { outcome: Ok(FormatResult::Success { formatted_content }) }
            && formatted_content == t,
{
}

/// An error of the engine on an eligible file is a structured `Error` outcome with
/// the engine's message, never a failure of the pipeline.
pub proof fn lemma_engine_error_is_structured(pre: Pipeline, m: String, post: Pipeline, a: Action)
    requires
        pre.stage is AwaitFormat,
        advances(pre, Event::Formatted(Err(m)), post, a),
    ensures
        a == (Action::Finish { outcome: Ok(FormatResult::Error { error: m }) }),
        !(a matches Action::Finish { outcome: Err(_) }),
{
}

/// A file is opened for formatting only right after the capability check cleared it, with its
/// content at version 0 in the project the check was asked about.
pub proof fn lemma_open_only_when_supported(pre: Pipeline, e: Event, post: Pipeline, a: Action)
    requires
        advances(pre, e, post, a),
        a is OpenFile,
    ensures
        pre.stage is AwaitSupport,
        e matches Event::SupportReported(Ok(f)) && format_supported(f),
        a == (Action::OpenFile {
            project: pre.stage->AwaitSupport_project,
            path: pre.target,
            content: pre.content,
            version: 0,
        }),
{
}

/// Once a project is registered, every later action is addressed to it, and the
/// stage keeps it until the request is over.
pub proof fn lemma_handle_is_kept(pre: Pipeline, e: Event, post: Pipeline, a: Action)
    requires
        advances(pre, e, post, a),
        stage_handle(pre.stage) is Some,
    ensures
        action_handle(a) is Some ==> action_handle(a) == stage_handle(pre.stage),
        stage_handle(post.stage) is Some ==> stage_handle(post.stage) == stage_handle(pre.stage),
{
}

/// Each step ends the request exactly when it hands out the outcome.
pub proof fn lemma_one_outcome(pre: Pipeline, e: Event, post: Pipeline, a: Action)
    requires
        advances(pre, e, post, a),
    ensures
        (a is Finish) == (post.stage is Finished),
{
}

/// Ignore rules are rooted at the directory the configuration was found in, else
/// at the working directory.
pub proof fn lemma_ignore_root_follows_configuration(
    pre: Pipeline,
    found: Option<String>,
    mid: Pipeline,
    a: Action,
)
    requires
        pre.stage is AwaitConfiguration,
        advances(pre, Event::ConfigurationLoaded(Ok(found)), mid, a),
    ensures
        mid.stage == (Stage::AwaitManifest { vcs_base: vcs_base_of(found, pre.working_dir) }),
{
}

/// A failure of the pipeline is never answered in the shape of a formatting result.
pub proof fn lemma_failure_stays_distinct(m: String, r: FormatResult)
    ensures
        response_of(Err(m))[0].0 != response_of(Ok(r))[0].0,
{
    reveal_strlit("plugin-panic");
    reveal_strlit("format-status");
    assert(response_of(Err(m))[0].0[0] != response_of(Ok(r))[0].0[0]);
}

} // verus!
