use vstd::prelude::*;
use vstd::utf8::{decode_utf8, valid_utf8};
use crate::capability::{format_supported, Capability, FeatureSupport};
use crate::outcome::FormatResult;

verus! {

/// The token of a project scope that the host registered for one request.
#[derive(Clone, Copy, Debug, PartialEq, Eq, Structural)]
pub struct ProjectHandle {
    pub id: u64,
}

/// A manifest found near the project root: its path and its raw text.
#[derive(Debug, PartialEq, Eq)]
pub struct ManifestData {
    pub path: String,
    pub content: String,
}

/// What the host is asked to do next.
#[derive(Debug, PartialEq, Eq)]
pub enum Action {
    /// Load and merge the configuration, searching from `dir` upwards.
    LoadConfiguration { dir: String },
    /// Search from `dir` upwards for a manifest and read it.
    ResolveManifest { dir: String },
    /// Open (or create, also without a configuration file) the project rooted at `dir`.
    OpenProject { dir: String },
    /// Push the loaded configuration, the ignore rules rooted at `vcs_base` and the
    /// manifest into the project scope, as one update.
    ApplySettings {
        project: ProjectHandle,
        vcs_base: String,
        working_dir: String,
        manifest: Option<ManifestData>,
    },
    /// Ask which of `capabilities` the project supports for the file at `path`.
    CheckSupport { project: ProjectHandle, path: String, capabilities: Vec<Capability> },
    /// Open `content` as the document `path` at `version` in the project scope.
    OpenFile { project: ProjectHandle, path: String, content: String, version: u32 },
    /// Format the document opened at `path`.
    FormatFile { project: ProjectHandle, path: String },
    /// The request is over; `Err` is a failure of the pipeline itself.
    Finish { outcome: Result<FormatResult, String> },
}

/// What the host reports back after performing an action.
#[derive(Debug)]
pub enum Event {
    /// `Ok` holds the directory the configuration file was found in, if one was.
    ConfigurationLoaded(Result<Option<String>, String>),
    ManifestResolved(Result<Option<ManifestData>, String>),
    ProjectOpened(Result<ProjectHandle, String>),
    SettingsApplied(Result<(), String>),
    SupportReported(Result<FeatureSupport, String>),
    FileOpened(Result<(), String>),
    Formatted(Result<String, String>),
}

/// The stage a request is in: which event it waits for, with what it gathered so far.
#[derive(Debug)]
pub enum Stage {
    AwaitConfiguration,
    AwaitManifest { vcs_base: String },
    AwaitProject { vcs_base: String, manifest: Option<ManifestData> },
    AwaitSettings { project: ProjectHandle },
    AwaitSupport { project: ProjectHandle },
    AwaitOpen { project: ProjectHandle },
    AwaitFormat { project: ProjectHandle },
    Finished,
}

/// One format request on its way through the stages.
#[derive(Debug)]
pub struct Pipeline {
    pub target: String,
    pub content: String,
    pub working_dir: String,
    pub stage: Stage,
}

/// Relies on String::from_utf8: it takes the bytes as text exactly when they are
/// valid UTF-8, and refuses them otherwise.
#[verifier::external_body]
fn text_of(b: Vec<u8>) -> (r: Option<String>)
    ensures
        r is Some <==> valid_utf8(b@),
        r matches Some(s) ==> s@ == decode_utf8(b@),
{
    String::from_utf8(b).ok()
}

/// Where ignore rules are rooted: the configuration's directory, else the working directory.
pub open spec fn vcs_base_of(found: Option<String>, working_dir: String) -> String {
    match found {
        Some(d) => d,
        None => working_dir,
    }
}

/// The request ends with the pipeline failure `m`.
pub open spec fn fails_with(post: Pipeline, a: Action, m: String) -> bool {
    &&& post.stage is Finished
    &&& a == (Action::Finish { outcome: Err(m) })
}

/// The request ends with a pipeline failure because the event does not fit the stage.
pub open spec fn refused(post: Pipeline, a: Action) -> bool {
    &&& post.stage is Finished
    &&& a matches Action::Finish { outcome: Err(m) }
    &&& m@ == "event does not fit the stage"@
}

/// The request ends with `r` as its outcome.
pub open spec fn ends_with(post: Pipeline, a: Action, r: FormatResult) -> bool {
    &&& post.stage is Finished
    &&& a == (Action::Finish { outcome: Ok(r) })
}

/// One step of the pipeline: from `pre`, on event `e`, to `post`, handing out `a`.
pub open spec fn advances(pre: Pipeline, e: Event, post: Pipeline, a: Action) -> bool {
    &&& post.target == pre.target
    &&& post.content == pre.content
    &&& post.working_dir == pre.working_dir
    &&& match pre.stage {
        Stage::AwaitConfiguration => match e {
            Event::ConfigurationLoaded(Ok(found)) => {
                &&& post.stage == (Stage::AwaitManifest {
                    vcs_base: vcs_base_of(found, pre.working_dir),
                })
                &&& a == (Action::ResolveManifest { dir: pre.working_dir })
            },
            Event::ConfigurationLoaded(Err(m)) => fails_with(post, a, m),
            _ => refused(post, a),
        },
        Stage::AwaitManifest { vcs_base } => match e {
            Event::ManifestResolved(r) => {
                &&& post.stage == (Stage::AwaitProject {
                    vcs_base,
                    manifest: match r {
                        Ok(m) => m,
                        Err(_) => None,
                    },
                })
                &&& a == (Action::OpenProject { dir: pre.working_dir })
            },
            _ => refused(post, a),
        },
        Stage::AwaitProject { vcs_base, manifest } => match e {
            Event::ProjectOpened(Ok(h)) => {
                &&& post.stage == (Stage::AwaitSettings { project: h })
                &&& a == (Action::ApplySettings {
                    project: h,
                    vcs_base,
                    working_dir: pre.working_dir,
                    manifest,
                })
            },
            Event::ProjectOpened(Err(m)) => fails_with(post, a, m),
            _ => refused(post, a),
        },
        Stage::AwaitSettings { project } => match e {
            Event::SettingsApplied(Ok(())) => {
                &&& post.stage == (Stage::AwaitSupport { project })
                &&& a matches Action::CheckSupport { project: p, path, capabilities }
                &&& p == project
                &&& path == pre.target
                &&& capabilities@ == seq![Capability::Format]
            },
            Event::SettingsApplied(Err(m)) => fails_with(post, a, m),
            _ => refused(post, a),
        },
        Stage::AwaitSupport { project } => match e {
            Event::SupportReported(Ok(f)) => if format_supported(f) {
                &&& post.stage == (Stage::AwaitOpen { project })
                &&& a == (Action::OpenFile {
                    project,
                    path: pre.target,
                    content: pre.content,
                    version: 0,
                })
            } else {
                ends_with(post, a, FormatResult::Ignored)
            },
            Event::SupportReported(Err(m)) => fails_with(post, a, m),
            _ => refused(post, a),
        },
        Stage::AwaitOpen { project } => match e {
            Event::FileOpened(Ok(())) => {
                &&& post.stage == (Stage::AwaitFormat { project })
                &&& a == (Action::FormatFile { project, path: pre.target })
            },
            Event::FileOpened(Err(m)) => fails_with(post, a, m),
            _ => refused(post, a),
        },
        Stage::AwaitFormat { project } => match e {
            Event::Formatted(Ok(t)) => ends_with(post, a, FormatResult::Success { formatted_content: t }),
            Event::Formatted(Err(m)) => ends_with(post, a, FormatResult::Error { error: m }),
            _ => refused(post, a),
        },
        Stage::Finished => false,
    }
}

fn refusal() -> (a: Action)
    ensures
        a matches Action::Finish { outcome: Err(m) } && m@ == "event does not fit the stage"@,
{
    Action::Finish { outcome: Err("event does not fit the stage".to_owned()) }
}

impl Pipeline {
    /// Starts a request for `target` with `content`, in the working directory whose
    /// path has the raw bytes `current_dir`. A directory that is not valid text ends
    /// the request at once with a pipeline failure.
    pub fn start(target: String, content: String, current_dir: Vec<u8>) -> (r: (Pipeline, Action))
        ensures
            r.0.target == target,
            r.0.content == content,
            valid_utf8(current_dir@) ==> {
                &&& r.0.working_dir@ == decode_utf8(current_dir@)
                &&& r.0.stage is AwaitConfiguration
                &&& r.1 == (Action::LoadConfiguration { dir: r.0.working_dir })
            },
            !valid_utf8(current_dir@) ==> {
                &&& r.0.stage is Finished
                &&& r.1 matches Action::Finish { outcome: Err(m) }
                &&& m@ == "Path contains invalid UTF-8"@
            },
    {
        match text_of(current_dir) {
            Some(dir) => {
                let a = Action::LoadConfiguration { dir: dir.clone() };
                (Pipeline { target, content, working_dir: dir, stage: Stage::AwaitConfiguration }, a)
            },
            None => {
                let a = Action::Finish { outcome: Err("Path contains invalid UTF-8".to_owned()) };
                (Pipeline { target, content, working_dir: String::new(), stage: Stage::Finished }, a)
            },
        }
    }

    /// Whether the request is over, so that no further event may be fed.
    pub fn is_finished(&self) -> (r: bool)
        ensures
            r == (self.stage is Finished),
    {
        match self.stage {
            Stage::Finished => true,
            _ => false,
        }
    }

    /// Takes the host's report on the last action and decides the next one.
    pub fn step(&mut self, e: Event) -> (a: Action)
        requires
            !(old(self).stage is Finished),
        ensures
            advances(*old(self), e, *final(self), a),
    {
        let mut stage = Stage::Finished;
        std::mem::swap(&mut stage, &mut self.stage);
        match stage {
            Stage::AwaitConfiguration => match e {
                Event::ConfigurationLoaded(Ok(found)) => {
                    let vcs_base = match found {
                        Some(d) => d,
                        None => self.working_dir.clone(),
                    };
                    self.stage = Stage::AwaitManifest { vcs_base };
                    Action::ResolveManifest { dir: self.working_dir.clone() }
                },
                Event::ConfigurationLoaded(Err(m)) => Action::Finish { outcome: Err(m) },
                _ => refusal(),
            },
            Stage::AwaitManifest { vcs_base } => match e {
                Event::ManifestResolved(r) => {
                    let manifest = match r {
                        Ok(m) => m,
                        Err(_) => None,
                    };
                    self.stage = Stage::AwaitProject { vcs_base, manifest };
                    Action::OpenProject { dir: self.working_dir.clone() }
                },
                _ => refusal(),
            },
            Stage::AwaitProject { vcs_base, manifest } => match e {
                Event::ProjectOpened(Ok(h)) => {
                    self.stage = Stage::AwaitSettings { project: h };
                    Action::ApplySettings {
                        project: h,
                        vcs_base,
                        working_dir: self.working_dir.clone(),
                        manifest,
                    }
                },
                Event::ProjectOpened(Err(m)) => Action::Finish { outcome: Err(m) },
                _ => refusal(),
            },
            Stage::AwaitSettings { project } => match e {
                Event::SettingsApplied(Ok(())) => {
                    self.stage = Stage::AwaitSupport { project };
                    let mut capabilities: Vec<Capability> = Vec::new();
                    capabilities.push(Capability::Format);
                    Action::CheckSupport { project, path: self.target.clone(), capabilities }
                },
                Event::SettingsApplied(Err(m)) => Action::Finish { outcome: Err(m) },
                _ => refusal(),
            },
            Stage::AwaitSupport { project } => match e {
                Event::SupportReported(Ok(f)) => {
                    if f.allows_format() {
                        self.stage = Stage::AwaitOpen { project };
                        Action::OpenFile {
                            project,
                            path: self.target.clone(),
                            content: self.content.clone(),
                            version: 0,
                        }
                    } else {
                        Action::Finish { outcome: Ok(FormatResult::Ignored) }
                    }
                },
                Event::SupportReported(Err(m)) => Action::Finish { outcome: Err(m) },
                _ => refusal(),
            },
            Stage::AwaitOpen { project } => match e {
                Event::FileOpened(Ok(())) => {
                    self.stage = Stage::AwaitFormat { project };
                    Action::FormatFile { project, path: self.target.clone() }
                },
                Event::FileOpened(Err(m)) => Action::Finish { outcome: Err(m) },
                _ => refusal(),
            },
            Stage::AwaitFormat { project: _ } => match e {
                Event::Formatted(Ok(t)) => Action::Finish {
                    outcome: Ok(FormatResult::Success { formatted_content: t }),
                },
                Event::Formatted(Err(m)) => Action::Finish {
                    outcome: Ok(FormatResult::Error { error: m }),
                },
                _ => refusal(),
            },
            Stage::Finished => refusal(),
        }
    }
}

} // verus!
