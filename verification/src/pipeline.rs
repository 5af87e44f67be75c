//! The order of a release: what is done, in which order, and what stops it.
//!
//! The pipeline itself touches nothing. It is told what happened (an `Event`) and says
//! what is to be done next (an `Action`); whoever drives it does the work.
//!
//! Every failure ends the run where it stands. Nothing is undone: when the build check
//! or a later step fails, the files that were written stay written, for the operator to
//! commit or to restore.

use crate::locator::{
    discover, located, tag_marker, tag_name, tag_named, text_view, versions_in, DiscoveryError,
};
use crate::text::same_text;
use crate::rewriter::{listing, outcome_at, plan, rewrite_all, RewriteError, SourceFile};
use crate::version::{rendered, Version, VersionIncrement, VersionView};
use vstd::prelude::*;
use vstd::string::*;

verus! {

/// What the operator asked for besides the new version.
#[derive(Debug, Clone, Copy, PartialEq, Eq, Structural)]
pub struct Requests {
    /// Commit the rewritten files.
    pub commit: bool,
    /// Tag the commit.
    pub tag: bool,
    /// Push the commit, and the tag if there is one.
    pub push: bool,
    /// Do not ask before writing.
    pub skip_confirm: bool,
}

/// A request that cannot be served, or a project that is not ready.
#[derive(Debug, Clone, Copy, PartialEq, Eq, Structural)]
pub enum UsageError {
    /// The working tree has uncommitted changes.
    DirtyTree,
    /// A tag was asked for, but no commit.
    TagWithoutCommit,
    /// A push was asked for, but no commit.
    PushWithoutCommit,
}

/// The outside tools whose failure ends a release.
#[derive(Debug, Clone, Copy, PartialEq, Eq, Structural)]
pub enum Tool {
    BuildCheck,
    Commit,
    PushBranch,
    CreateTag,
    PushTag,
}

/// Why a release was given up.
#[derive(Debug, Clone, Copy, PartialEq, Eq, Structural)]
pub enum Failure {
    Usage(UsageError),
    Discovery(DiscoveryError),
    /// The number to raise is the largest that a version can hold.
    Overflow,
    /// An outside tool reported failure.
    Tool(Tool),
    /// A file could not be read or written while the new version was written.
    Io,
    /// The driver reported something that the pipeline was not waiting for.
    Unexpected,
}

/// Where a release stands. Every stage but the first and the last three waits for the
/// outcome of one action.
#[derive(Debug, Clone, Copy, PartialEq, Eq, Structural)]
pub enum Stage {
    Start,
    CheckingTree,
    Discovering,
    Planning,
    Confirming,
    Applying,
    Validating,
    Committing,
    PushingBranch,
    Tagging,
    PushingTag,
    Succeeded,
    Declined,
    Failed(Failure),
}

/// What the driver is to do next.
#[derive(Debug, Clone, Copy, PartialEq, Eq, Structural)]
pub enum Action {
    /// Ask whether the working tree is clean.
    CheckTree,
    /// Read the well-known files and the most recent tag.
    Discover,
    /// List the files that mention the current version, without changing any.
    Plan,
    /// Show the plan and ask the operator.
    Confirm,
    /// Write the new version into the listed files.
    Apply,
    /// Run the build check.
    BuildCheck,
    Commit,
    PushBranch,
    CreateTag,
    PushTag,
    /// The release is done.
    Finish,
    /// The operator declined: nothing was changed and nothing is to be done.
    Stop,
    /// The release is given up, for the reason given.
    Abort(Failure),
}

/// What the driver reports.
#[derive(Debug)]
pub enum Event {
    /// The run begins.
    Begin,
    /// Whether the working tree is clean.
    TreeStatus(bool),
    /// What the well-known files that exist hold, in their order, and the most recent
    /// tag.
    Discovered(Vec<Vec<u8>>, Option<String>),
    /// The plan is made.
    Planned,
    /// The operator's answer.
    Answer(bool),
    /// Whether the action that was asked for succeeded.
    Finished(bool),
}

/// What an event means for the stage that receives it.
#[derive(Debug, Clone, Copy, PartialEq, Eq, Structural)]
pub enum Verdict {
    Proceed,
    Decline,
    Refuse(Failure),
}

/// The versions and the tag name that discovery settles.
pub struct Settled {
    pub current: VersionView,
    pub target: VersionView,
    pub tag: Seq<char>,
}

/// What a release will do, fixed before anything is written.
#[derive(Debug)]
pub struct ReleasePlan {
    /// The positions of the files that mention the current version, in increasing order.
    pub files: Vec<usize>,
    /// The text of the current version, which is how the files state it.
    pub current: String,
    /// The version that the files are to hold.
    pub target: Version,
    /// What follows the change of the files.
    pub requests: Requests,
}

/// The request that cannot be served, if there is one: a tag or a push without a commit.
pub open spec fn usage_error(requests: Requests) -> Option<UsageError> {
    if requests.tag && !requests.commit {
        Some(UsageError::TagWithoutCommit)
    } else if requests.push && !requests.commit {
        Some(UsageError::PushWithoutCommit)
    } else {
        None
    }
}

/// Whether a stage is one at which the run has ended.
pub open spec fn is_terminal(stage: Stage) -> bool {
    stage is Succeeded || stage is Declined || stage is Failed
}

/// The failure that an unsuccessful action means at a stage.
pub open spec fn failure_at(stage: Stage) -> Failure {
    match stage {
        Stage::Applying => Failure::Io,
        Stage::Validating => Failure::Tool(Tool::BuildCheck),
        Stage::Committing => Failure::Tool(Tool::Commit),
        Stage::PushingBranch => Failure::Tool(Tool::PushBranch),
        Stage::Tagging => Failure::Tool(Tool::CreateTag),
        Stage::PushingTag => Failure::Tool(Tool::PushTag),
        _ => Failure::Unexpected,
    }
}

/// What discovery settles, where it succeeds and the new version can be computed.
pub open spec fn settled(increment: VersionIncrement, stage: Stage, event: Event) -> Option<Settled> {
    match (stage, event) {
        (Stage::Discovering, Event::Discovered(found, last_tag)) => match located(
            versions_in(found@),
            text_view(last_tag),
        ) {
            Ok(v) => if increment.fits(v) {
                Some(
                    Settled {
                        current: v,
                        target: increment.next(v),
                        tag: tag_named(text_view(last_tag), increment.next(v)),
                    },
                )
            } else {
                None
            },
            Err(_) => None,
        },
        _ => None,
    }
}

/// What an event means at a stage.
pub open spec fn verdict(
    requests: Requests,
    increment: VersionIncrement,
    stage: Stage,
    event: Event,
) -> Verdict {
    match (stage, event) {
        (Stage::Start, Event::Begin) => match usage_error(requests) {
            Some(e) => Verdict::Refuse(Failure::Usage(e)),
            None => Verdict::Proceed,
        },
        (Stage::CheckingTree, Event::TreeStatus(clean)) => if clean {
            Verdict::Proceed
        } else {
            Verdict::Refuse(Failure::Usage(UsageError::DirtyTree))
        },
        (Stage::Discovering, Event::Discovered(found, last_tag)) => match located(
            versions_in(found@),
            text_view(last_tag),
        ) {
            Ok(v) => if increment.fits(v) {
                Verdict::Proceed
            } else {
                Verdict::Refuse(Failure::Overflow)
            },
            Err(e) => Verdict::Refuse(Failure::Discovery(e)),
        },
        (Stage::Planning, Event::Planned) => Verdict::Proceed,
        (Stage::Confirming, Event::Answer(yes)) => if yes {
            Verdict::Proceed
        } else {
            Verdict::Decline
        },
        (Stage::Applying, Event::Finished(ok)) | (Stage::Validating, Event::Finished(ok)) | (
            Stage::Committing,
            Event::Finished(ok),
        ) | (Stage::PushingBranch, Event::Finished(ok)) | (Stage::Tagging, Event::Finished(ok)) | (
            Stage::PushingTag,
            Event::Finished(ok),
        ) => if ok {
            Verdict::Proceed
        } else {
            Verdict::Refuse(failure_at(stage))
        },
        _ => Verdict::Refuse(Failure::Unexpected),
    }
}

/// The stage that follows a stage whose action succeeded.
pub open spec fn successor(requests: Requests, stage: Stage) -> Stage {
    match stage {
        Stage::Start => Stage::CheckingTree,
        Stage::CheckingTree => Stage::Discovering,
        Stage::Discovering => Stage::Planning,
        Stage::Planning => if requests.skip_confirm {
            Stage::Applying
        } else {
            Stage::Confirming
        },
        Stage::Confirming => Stage::Applying,
        Stage::Applying => Stage::Validating,
        Stage::Validating => if requests.commit {
            Stage::Committing
        } else {
            Stage::Succeeded
        },
        Stage::Committing => if requests.push {
            Stage::PushingBranch
        } else if requests.tag {
            Stage::Tagging
        } else {
            Stage::Succeeded
        },
        Stage::PushingBranch => if requests.tag {
            Stage::Tagging
        } else {
            Stage::Succeeded
        },
        Stage::Tagging => if requests.push {
            Stage::PushingTag
        } else {
            Stage::Succeeded
        },
        Stage::PushingTag => Stage::Succeeded,
        _ => stage,
    }
}

/// The stage that an event leads to. A run that has ended stays where it is.
pub open spec fn next_stage(
    requests: Requests,
    increment: VersionIncrement,
    stage: Stage,
    event: Event,
) -> Stage {
    if is_terminal(stage) {
        stage
    } else {
        match verdict(requests, increment, stage, event) {
            Verdict::Proceed => successor(requests, stage),
            Verdict::Decline => Stage::Declined,
            Verdict::Refuse(f) => Stage::Failed(f),
        }
    }
}

/// What the driver is to do when a stage has been reached. No event leads to `Start`,
/// so what stands for it is never asked of the driver.
pub open spec fn action_of(stage: Stage) -> Action {
    match stage {
        Stage::Start => Action::Abort(Failure::Unexpected),
        Stage::CheckingTree => Action::CheckTree,
        Stage::Discovering => Action::Discover,
        Stage::Planning => Action::Plan,
        Stage::Confirming => Action::Confirm,
        Stage::Applying => Action::Apply,
        Stage::Validating => Action::BuildCheck,
        Stage::Committing => Action::Commit,
        Stage::PushingBranch => Action::PushBranch,
        Stage::Tagging => Action::CreateTag,
        Stage::PushingTag => Action::PushTag,
        Stage::Succeeded => Action::Finish,
        Stage::Declined => Action::Stop,
        Stage::Failed(f) => Action::Abort(f),
    }
}

/// The stage that a run reaches from `stage` when the driver reports `events` in order.
pub open spec fn stage_after(
    requests: Requests,
    increment: VersionIncrement,
    stage: Stage,
    events: Seq<Event>,
) -> Stage
    decreases events.len(),
{
    if events.len() == 0 {
        stage
    } else {
        next_stage(
            requests,
            increment,
            stage_after(requests, increment, stage, events.drop_last()),
            events.last(),
        )
    }
}

/// Whether an action changes a file or the history of the project.
pub open spec fn changes_project(action: Action) -> bool {
    action is Apply || action is BuildCheck || action is Commit || action is PushBranch
        || action is CreateTag || action is PushTag
}

/// What is said after "The following files will be changed", naming what follows the
/// change.
pub open spec fn operations_named(requests: Requests) -> Seq<char> {
    if !requests.commit {
        Seq::<char>::empty()
    } else if requests.tag && requests.push {
        ", committed, tagged and pushed"@
    } else if requests.tag {
        ", committed and tagged"@
    } else if requests.push {
        ", committed and pushed"@
    } else {
        " and committed"@
    }
}

/// The line that tells the operator why a release was given up.
pub open spec fn message_of(failure: Failure) -> Seq<char> {
    match failure {
        Failure::Usage(UsageError::DirtyTree) => "uncommitted changes"@,
        Failure::Usage(UsageError::TagWithoutCommit) => {
            "Can't tag when -c / --commit is not enabled"@
        },
        Failure::Usage(UsageError::PushWithoutCommit) => {
            "Can't push when -c / --commit is not enabled"@
        },
        Failure::Discovery(DiscoveryError::NoVersionFound) => "no versions found"@,
        Failure::Discovery(DiscoveryError::InconsistentVersion) => {
            "no consistent version found"@
        },
        Failure::Discovery(DiscoveryError::InvalidVersion) => {
            "the version found is no semantic version"@
        },
        Failure::Discovery(DiscoveryError::UnsupportedBuildMetadata) => {
            "build suffix unsupported"@
        },
        Failure::Discovery(DiscoveryError::TagMismatch) => {
            "last git tag does not match the detected tag"@
        },
        Failure::Overflow => "the version cannot be raised any further"@,
        Failure::Tool(Tool::BuildCheck) => "cargo check failed"@,
        Failure::Tool(Tool::Commit) => "commit failed"@,
        Failure::Tool(Tool::PushBranch) => "push failed"@,
        Failure::Tool(Tool::CreateTag) => "tag failed"@,
        Failure::Tool(Tool::PushTag) => "push tag failed"@,
        Failure::Io => "a file could not be rewritten"@,
        Failure::Unexpected => "the release ran out of order"@,
    }
}

/// The message of the commit that records a new version.
pub open spec fn commit_message_of(target: VersionView) -> Seq<char> {
    "Version "@ + rendered(target)
}

impl Requests {
    /// Finds the request that cannot be served, if there is one.
    pub fn usage_error(&self) -> (r: Option<UsageError>)
        ensures
            r == usage_error(*self),
    {
        if self.tag && !self.commit {
            Some(UsageError::TagWithoutCommit)
        } else if self.push && !self.commit {
            Some(UsageError::PushWithoutCommit)
        } else {
            None
        }
    }

    /// Names what follows the change of the files.
    pub fn operations_text(&self) -> (r: String)
        ensures
            r@ == operations_named(*self),
    {
        if !self.commit {
            String::new()
        } else if self.tag && self.push {
            String::from_str(", committed, tagged and pushed")
        } else if self.tag {
            String::from_str(", committed and tagged")
        } else if self.push {
            String::from_str(", committed and pushed")
        } else {
            String::from_str(" and committed")
        }
    }
}

impl Failure {
    /// Names the failure in one line for the operator.
    pub fn describe(&self) -> (r: &'static str)
        ensures
            r@ == message_of(*self),
    {
        match self {
            Failure::Usage(UsageError::DirtyTree) => "uncommitted changes",
            Failure::Usage(UsageError::TagWithoutCommit) => {
                "Can't tag when -c / --commit is not enabled"
            },
            Failure::Usage(UsageError::PushWithoutCommit) => {
                "Can't push when -c / --commit is not enabled"
            },
            Failure::Discovery(DiscoveryError::NoVersionFound) => "no versions found",
            Failure::Discovery(DiscoveryError::InconsistentVersion) => {
                "no consistent version found"
            },
            Failure::Discovery(DiscoveryError::InvalidVersion) => {
                "the version found is no semantic version"
            },
            Failure::Discovery(DiscoveryError::UnsupportedBuildMetadata) => {
                "build suffix unsupported"
            },
            Failure::Discovery(DiscoveryError::TagMismatch) => {
                "last git tag does not match the detected tag"
            },
            Failure::Overflow => "the version cannot be raised any further",
            Failure::Tool(Tool::BuildCheck) => "cargo check failed",
            Failure::Tool(Tool::Commit) => "commit failed",
            Failure::Tool(Tool::PushBranch) => "push failed",
            Failure::Tool(Tool::CreateTag) => "tag failed",
            Failure::Tool(Tool::PushTag) => "push tag failed",
            Failure::Io => "a file could not be rewritten",
            Failure::Unexpected => "the release ran out of order",
        }
    }
}

/// Writes the message of the commit that records a new version.
pub fn commit_message(target: &Version) -> (r: String)
    ensures
        r@ == commit_message_of(target@),
{
    let mut r = String::from_str("Version ");
    r.append(target.render().as_str());
    r
}

/// Computes the stage that follows a stage whose action succeeded.
pub fn successor_stage(requests: Requests, stage: Stage) -> (r: Stage)
    ensures
        r == successor(requests, stage),
{
    match stage {
        Stage::Start => Stage::CheckingTree,
        Stage::CheckingTree => Stage::Discovering,
        Stage::Discovering => Stage::Planning,
        Stage::Planning => if requests.skip_confirm {
            Stage::Applying
        } else {
            Stage::Confirming
        },
        Stage::Confirming => Stage::Applying,
        Stage::Applying => Stage::Validating,
        Stage::Validating => if requests.commit {
            Stage::Committing
        } else {
            Stage::Succeeded
        },
        Stage::Committing => if requests.push {
            Stage::PushingBranch
        } else if requests.tag {
            Stage::Tagging
        } else {
            Stage::Succeeded
        },
        Stage::PushingBranch => if requests.tag {
            Stage::Tagging
        } else {
            Stage::Succeeded
        },
        Stage::Tagging => if requests.push {
            Stage::PushingTag
        } else {
            Stage::Succeeded
        },
        Stage::PushingTag => Stage::Succeeded,
        _ => stage,
    }
}

/// Says what the driver is to do when a stage has been reached.
pub fn action_for(stage: Stage) -> (r: Action)
    ensures
        r == action_of(stage),
{
    match stage {
        Stage::Start => Action::Abort(Failure::Unexpected),
        Stage::CheckingTree => Action::CheckTree,
        Stage::Discovering => Action::Discover,
        Stage::Planning => Action::Plan,
        Stage::Confirming => Action::Confirm,
        Stage::Applying => Action::Apply,
        Stage::Validating => Action::BuildCheck,
        Stage::Committing => Action::Commit,
        Stage::PushingBranch => Action::PushBranch,
        Stage::Tagging => Action::CreateTag,
        Stage::PushingTag => Action::PushTag,
        Stage::Succeeded => Action::Finish,
        Stage::Declined => Action::Stop,
        Stage::Failed(f) => Action::Abort(f),
    }
}

/// The failure that an unsuccessful action means at a stage.
pub fn failure_for(stage: Stage) -> (r: Failure)
    ensures
        r == failure_at(stage),
{
    match stage {
        Stage::Applying => Failure::Io,
        Stage::Validating => Failure::Tool(Tool::BuildCheck),
        Stage::Committing => Failure::Tool(Tool::Commit),
        Stage::PushingBranch => Failure::Tool(Tool::PushBranch),
        Stage::Tagging => Failure::Tool(Tool::CreateTag),
        Stage::PushingTag => Failure::Tool(Tool::PushTag),
        _ => Failure::Unexpected,
    }
}

/// One release, from the first check to the last push.
#[derive(Debug)]
pub struct Pipeline {
    pub requests: Requests,
    pub increment: VersionIncrement,
    pub stage: Stage,
    /// The version that the project has, once discovered.
    pub current: Option<Version>,
    /// The version that the project gets, once computed.
    pub target: Option<Version>,
    /// The name of the tag for the new version, once computed.
    pub tag: Option<String>,
}

/// Whether a stage is one that discovery has led to.
pub open spec fn needs_versions(stage: Stage) -> bool {
    stage is Planning || stage is Confirming || stage is Applying || stage is Validating
        || stage is Committing || stage is PushingBranch || stage is Tagging || stage is PushingTag
        || stage is Succeeded
}

/// Whether a tag name is the name of the tag for a version: its text, with or without
/// the marker.
pub open spec fn is_tag_for(name: Seq<char>, target: VersionView) -> bool {
    name == rendered(target) || name == seq![tag_marker()] + rendered(target)
}

impl Pipeline {
    /// Whether the pipeline is in order: the versions and the tag name are known from
    /// the stage on at which they are needed, and they are known together; the current
    /// version carries no build metadata, the target is what the strategy computes from
    /// it, and the tag is named after the target.
    pub open spec fn wf(&self) -> bool {
        &&& needs_versions(self.stage) ==> self.current is Some
        &&& (self.current is Some) == (self.target is Some)
        &&& (self.current is Some) == (self.tag is Some)
        &&& self.current matches Some(c) ==> {
            &&& c@.build.len() == 0
            &&& self.increment.fits(c@)
            &&& self.target->Some_0@ == self.increment.next(c@)
            &&& is_tag_for(self.tag->Some_0@, self.target->Some_0@)
        }
    }

    /// Tells whether the pipeline is in order.
    pub fn is_ready(&self) -> (r: bool)
        ensures
            r == self.wf(),
    {
        match (&self.current, &self.target, &self.tag) {
            (Some(current), Some(target), Some(name)) => {
                if current.has_build() || !self.increment.can_increment(current) {
                    return false;
                }
                if !self.increment.increment(current).identical(target) {
                    return false;
                }
                let bare = target.render();
                let marked = tag_name(&None, target);
                same_text(name.as_str(), bare.as_str()) || same_text(name.as_str(), marked.as_str())
            },
            (None, None, None) => match self.stage {
                Stage::Start | Stage::CheckingTree | Stage::Discovering | Stage::Declined
                | Stage::Failed(_) => true,
                _ => false,
            },
            _ => false,
        }
    }

    /// A release that has not begun.
    pub fn new(requests: Requests, increment: VersionIncrement) -> (r: Pipeline)
        ensures
            r.requests == requests,
            r.increment == increment,
            r.stage == Stage::Start,
            r.current is None,
            r.target is None,
            r.tag is None,
            r.wf(),
    {
        Pipeline {
            requests,
            increment,
            stage: Stage::Start,
            current: None,
            target: None,
            tag: None,
        }
    }

    /// Takes what the driver reports and says what is to be done next.
    ///
    /// The requests and the strategy never change. The versions and the tag name are
    /// set once, when discovery succeeds, and never after.
    pub fn step(&mut self, event: Event) -> (action: Action)
        requires
            old(self).wf(),
        ensures
            final(self).wf(),
            final(self).requests == old(self).requests,
            final(self).increment == old(self).increment,
            final(self).stage == next_stage(
                old(self).requests,
                old(self).increment,
                old(self).stage,
                event,
            ),
            action == action_of(final(self).stage),
            match settled(old(self).increment, old(self).stage, event) {
                Some(s) => {
                    &&& final(self).current matches Some(c) && c@ == s.current
                    &&& final(self).target matches Some(t) && t@ == s.target
                    &&& final(self).tag matches Some(n) && n@ == s.tag
                },
                None => {
                    &&& final(self).current == old(self).current
                    &&& final(self).target == old(self).target
                    &&& final(self).tag == old(self).tag
                },
            },
    {
        let stage = self.stage;
        let unexpected = Verdict::Refuse(Failure::Unexpected);
        let verdict: Verdict = match stage {
            Stage::Start => match event {
                Event::Begin => match self.requests.usage_error() {
                    Some(e) => Verdict::Refuse(Failure::Usage(e)),
                    None => Verdict::Proceed,
                },
                _ => unexpected,
            },
            Stage::CheckingTree => match event {
                Event::TreeStatus(clean) => if clean {
                    Verdict::Proceed
                } else {
                    Verdict::Refuse(Failure::Usage(UsageError::DirtyTree))
                },
                _ => unexpected,
            },
            Stage::Discovering => match event {
                Event::Discovered(found, last_tag) => match discover(&found, &last_tag) {
                    Ok(v) => if self.increment.can_increment(&v) {
                        let target = self.increment.increment(&v);
                        let name = tag_name(&last_tag, &target);
                        self.current = Some(v);
                        self.target = Some(target);
                        self.tag = Some(name);
                        Verdict::Proceed
                    } else {
                        Verdict::Refuse(Failure::Overflow)
                    },
                    Err(e) => Verdict::Refuse(Failure::Discovery(e)),
                },
                _ => unexpected,
            },
            Stage::Planning => match event {
                Event::Planned => Verdict::Proceed,
                _ => unexpected,
            },
            Stage::Confirming => match event {
                Event::Answer(yes) => if yes {
                    Verdict::Proceed
                } else {
                    Verdict::Decline
                },
                _ => unexpected,
            },
            Stage::Applying | Stage::Validating | Stage::Committing | Stage::PushingBranch
            | Stage::Tagging | Stage::PushingTag => match event {
                Event::Finished(ok) => if ok {
                    Verdict::Proceed
                } else {
                    Verdict::Refuse(failure_for(stage))
                },
                _ => unexpected,
            },
            _ => unexpected,
        };
        let next = match stage {
            Stage::Succeeded | Stage::Declined | Stage::Failed(_) => stage,
            _ => match verdict {
                Verdict::Proceed => successor_stage(self.requests, stage),
                Verdict::Decline => Stage::Declined,
                Verdict::Refuse(f) => Stage::Failed(f),
            },
        };
        self.stage = next;
        action_for(next)
    }
}

impl Pipeline {
    /// Makes the plan of the release over the files of the project, changing none of
    /// them. There is no plan before discovery has settled the versions.
    pub fn plan(&self, files: &Vec<SourceFile>) -> (r: Option<ReleasePlan>)
        ensures
            match (self.current, self.target) {
                (Some(current), Some(target)) => {
                    &&& r matches Some(p)
                    &&& p.current@ == rendered(current@)
                    &&& p.target@ == target@
                    &&& p.requests == self.requests
                    &&& listing(files@, rendered(current@), p.files@)
                },
                _ => r is None,
            },
    {
        match (&self.current, &self.target) {
            (Some(current), Some(target)) => {
                let text = current.render();
                Some(
                    ReleasePlan {
                        files: plan(files, text.as_str()),
                        current: text,
                        target: target.clone(),
                        requests: self.requests,
                    },
                )
            },
            _ => None,
        }
    }
}

impl ReleasePlan {
    /// Whether the plan changes no file. Such a release is legal, and worth a word to
    /// the operator.
    pub fn is_empty(&self) -> (r: bool)
        ensures
            r == (self.files@.len() == 0),
    {
        self.files.len() == 0
    }

    /// Computes what every planned file is to hold, in the order of the plan, without
    /// writing anything: the current version becomes the target wherever the file
    /// mentions it.
    pub fn apply(&self, files: &Vec<SourceFile>) -> (r: Result<Vec<Vec<u8>>, RewriteError>)
        ensures
            match r {
                Ok(out) => {
                    &&& out.len() == self.files.len()
                    &&& forall|k: int|
                        0 <= k < self.files.len() ==> outcome_at(
                            files@,
                            #[trigger] self.files[k],
                            self.current@,
                            rendered(self.target@),
                        ) == Ok::<_, RewriteError>(out[k]@)
                },
                Err(e) => exists|k: int|
                    {
                        &&& 0 <= k < self.files.len()
                        &&& outcome_at(
                            files@,
                            #[trigger] self.files[k],
                            self.current@,
                            rendered(self.target@),
                        ) == Err::<Seq<u8>, _>(e)
                        &&& forall|j: int|
                            0 <= j < k ==> outcome_at(
                                files@,
                                #[trigger] self.files[j],
                                self.current@,
                                rendered(self.target@),
                            ) is Ok
                    },
            },
    {
        let target = self.target.render();
        rewrite_all(files, &self.files, self.current.as_str(), target.as_str())
    }
}

/// Whether the operator approves in none of the events.
pub open spec fn never_approved(events: Seq<Event>) -> bool {
    forall|i: int| 0 <= i < events.len() ==> !(#[trigger] events[i] matches Event::Answer(yes) && yes)
}

/// Whether a stage lies before the first write, or is one at which a run has been given up
/// or declined.
pub open spec fn is_quiet(stage: Stage) -> bool {
    stage is Start || stage is CheckingTree || stage is Discovering || stage is Planning
        || stage is Confirming || stage is Declined || stage is Failed
}

/// The place of a stage in the order of a release.
pub open spec fn rank(stage: Stage) -> nat {
    match stage {
        Stage::Start => 0,
        Stage::CheckingTree => 1,
        Stage::Discovering => 2,
        Stage::Planning => 3,
        Stage::Confirming => 4,
        Stage::Applying => 5,
        Stage::Validating => 6,
        Stage::Committing => 7,
        Stage::PushingBranch => 8,
        Stage::Tagging => 9,
        Stage::PushingTag => 10,
        _ => 11,
    }
}

/// A request for a tag or a push without a commit ends the run at its first event:
/// whatever the driver reports, the run has failed, so that no file is ever listed,
/// written or committed. Where the run begins as it should, the failure is the usage
/// error.
pub proof fn law_usage_checked_first(
    requests: Requests,
    increment: VersionIncrement,
    events: Seq<Event>,
)
    requires
        (requests.tag || requests.push) && !requests.commit,
        events.len() > 0,
    ensures
        stage_after(requests, increment, Stage::Start, events) is Failed,
        action_of(stage_after(requests, increment, Stage::Start, events)) is Abort,
        events[0] is Begin ==> stage_after(requests, increment, Stage::Start, events)
            == Stage::Failed(Failure::Usage(usage_error(requests)->Some_0)),
    decreases events.len(),
{
    let before = events.drop_last();
    if before.len() > 0 {
        law_usage_checked_first(requests, increment, before);
        assert(before[0] == events[0]);
    } else {
        assert(stage_after(requests, increment, Stage::Start, before) == Stage::Start);
    }
}

/// Unless the operator approves, or approval was waived, nothing is changed: a run in
/// which no answer is a yes never reaches a stage whose action writes a file, runs the
/// build check, or commits, tags or pushes.
pub proof fn law_nothing_changes_unapproved(
    requests: Requests,
    increment: VersionIncrement,
    events: Seq<Event>,
)
    requires
        !requests.skip_confirm,
        never_approved(events),
    ensures
        is_quiet(stage_after(requests, increment, Stage::Start, events)),
        !changes_project(action_of(stage_after(requests, increment, Stage::Start, events))),
    decreases events.len(),
{
    if events.len() > 0 {
        let before = events.drop_last();
        assert forall|i: int| 0 <= i < before.len() implies !(#[trigger] before[i] matches Event::Answer(
            yes,
        ) && yes) by {
            assert(before[i] == events[i]);
        }
        law_nothing_changes_unapproved(requests, increment, before);
        assert(!(events[events.len() - 1] matches Event::Answer(yes) && yes));
    }
}

/// A declined confirmation ends the run with nothing to do.
pub proof fn law_decline_stops(requests: Requests, increment: VersionIncrement)
    ensures
        next_stage(requests, increment, Stage::Confirming, Event::Answer(false)) == Stage::Declined,
        action_of(Stage::Declined) == Action::Stop,
        forall|e: Event| next_stage(requests, increment, Stage::Declined, e) == Stage::Declined,
{
}

/// Whether the driver has reported a plan.
pub open spec fn was_planned(events: Seq<Event>) -> bool {
    exists|i: int| 0 <= i < events.len() && #[trigger] events[i] is Planned
}

/// Nothing is written before the whole plan is known: a run reaches the confirmation,
/// the write or anything after it only when the driver has reported the plan.
pub proof fn law_plan_before_apply(
    requests: Requests,
    increment: VersionIncrement,
    events: Seq<Event>,
)
    ensures
        ({
            let s = stage_after(requests, increment, Stage::Start, events);
            rank(s) >= 4 && !(s is Declined) && !(s is Failed) ==> was_planned(events)
        }),
    decreases events.len(),
{
    let s = stage_after(requests, increment, Stage::Start, events);
    if events.len() > 0 && rank(s) >= 4 && !(s is Declined) && !(s is Failed) {
        let before = events.drop_last();
        let prev = stage_after(requests, increment, Stage::Start, before);
        law_plan_before_apply(requests, increment, before);
        if prev is Planning {
            assert(events[events.len() - 1] is Planned);
        } else {
            assert(was_planned(before));
            let i = choose|i: int| 0 <= i < before.len() && #[trigger] before[i] is Planned;
            assert(events[i] is Planned);
        }
    }
}

/// Commit, tag and push depend on each other: a run commits only where a commit was
/// asked for, tags only where a tag and a commit were asked for, and pushes only where a
/// push and a commit were asked for; the tag is pushed only where all three were.
pub proof fn law_integration_gated(
    requests: Requests,
    increment: VersionIncrement,
    events: Seq<Event>,
)
    ensures
        ({
            let s = stage_after(requests, increment, Stage::Start, events);
            &&& s is Committing ==> requests.commit
            &&& s is PushingBranch ==> requests.commit && requests.push
            &&& s is Tagging ==> requests.commit && requests.tag
            &&& s is PushingTag ==> requests.commit && requests.tag && requests.push
            &&& rank(s) > 0 && !(s is Failed) ==> usage_error(requests) is None
        }),
    decreases events.len(),
{
    if events.len() > 0 {
        law_integration_gated(requests, increment, events.drop_last());
    }
}

/// The stages come in a strict order: every event moves a run that has not ended to a
/// later stage, and a run that has ended stays where it is.
pub proof fn law_strict_order(
    requests: Requests,
    increment: VersionIncrement,
    stage: Stage,
    event: Event,
)
    ensures
        !is_terminal(stage) ==> rank(next_stage(requests, increment, stage, event)) > rank(stage),
        is_terminal(stage) ==> next_stage(requests, increment, stage, event) == stage,
{
}

} // verus!
