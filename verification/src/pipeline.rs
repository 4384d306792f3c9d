//! The save pipeline: the decisions of rendering a chart to an image file.
//!
//! Saving launches a browser driver, opens a headless session, loads the chart's
//! page, clicks through its export menu, decodes the image behind the export link
//! and writes it. The pipeline itself does none of this: [`SavePipeline::step`]
//! takes what the last action gave and says which action comes next. Whoever runs
//! the pipeline performs the actions, one at a time, until it is told to finish.
//! Every run ends by closing the page handle and killing the driver, once each.

use vstd::prelude::*;
use vstd::string::*;
use crate::backoff::{Backoff, RetryPolicy, Verdict};
use crate::error::{InteractionStep, SaveError};
use crate::extract::{data_url_decoding, extract_image, image_of};
use crate::launcher::{DEFAULT_PORT, LaunchConfig, candidate_port, port_for_attempt};
use crate::session::default_policy;

verus! {

/// What the last action gave.
#[derive(Clone, Debug, PartialEq, Eq)]
pub enum Event {
    /// Nothing yet: the pipeline is asked for its first action.
    Start,
    /// The action succeeded.
    Done,
    /// The action failed.
    Failed,
    /// The action succeeded and gave this text.
    Text(String),
}

/// The content of an [`Event`].
pub enum EventModel {
    /// Nothing yet.
    Start,
    /// The action succeeded.
    Done,
    /// The action failed.
    Failed,
    /// The action succeeded and gave this text.
    Text(Seq<char>),
}

impl View for Event {
    type V = EventModel;

    open spec fn view(&self) -> EventModel {
        match self {
            Event::Start => EventModel::Start,
            Event::Done => EventModel::Done,
            Event::Failed => EventModel::Failed,
            Event::Text(text) => EventModel::Text(text@),
        }
    }
}

/// An element of the chart's page.
#[derive(Clone, Copy, Debug, PartialEq, Eq, Structural)]
pub enum Target {
    /// The disclosure element that hides the export menu.
    Disclosure,
    /// The link that exports the chart as an image.
    ExportLink,
}

/// How an element of a page is described to the browser.
#[derive(Clone, Copy, Debug, PartialEq, Eq, Structural)]
pub enum Locator {
    /// By a CSS selector.
    Css,
    /// By the text of a link.
    LinkText,
}

impl Target {
    /// How the element is looked for: by a CSS selector or by the text of a link.
    pub fn locator(&self) -> (locator: Locator)
        ensures
            locator == (match self {
                Target::Disclosure => Locator::Css,
                Target::ExportLink => Locator::LinkText,
            }),
    {
        match self {
            Target::Disclosure => Locator::Css,
            Target::ExportLink => Locator::LinkText,
        }
    }

    /// What the element is looked for by: the selector `summary` for the
    /// disclosure element, the text `Save as PNG` for the export link.
    pub fn pattern(&self) -> (pattern: &'static str)
        ensures
            pattern@ == (match self {
                Target::Disclosure => "summary"@,
                Target::ExportLink => "Save as PNG"@,
            }),
    {
        match self {
            Target::Disclosure => "summary",
            Target::ExportLink => "Save as PNG",
        }
    }
}

/// The attribute of the export link that holds the image: `href`.
pub fn target_attribute() -> (name: &'static str)
    ensures
        name@ == "href"@,
{
    "href"
}

/// What the runner of the pipeline does next.
#[derive(Debug, PartialEq, Eq)]
pub enum Action {
    /// Start the driver executable, bound to `port`.
    SpawnDriver {
        /// The port that the driver listens on.
        port: u64,
    },
    /// Wait.
    Sleep {
        /// How long, in milliseconds.
        millis: u64,
    },
    /// Open a headless browser session with the driver at `port`.
    OpenSession {
        /// The port that the driver listens on.
        port: u64,
    },
    /// Render the chart to a local document and answer with its path.
    RenderPage,
    /// Load the document at `url`.
    Navigate {
        /// The URL of the document.
        url: String,
    },
    /// Look once for an element of the page.
    Find(Target),
    /// Click the element that was found last.
    Click,
    /// Read the target of the link that was found last and answer with it.
    ReadTarget,
    /// Create the image file, or overwrite it, and write `bytes` to it.
    WriteImage {
        /// The content of the file.
        bytes: Vec<u8>,
    },
    /// Close the page handle, if there is one.
    CloseHandle,
    /// Kill the driver process, if there is one.
    KillDriver,
    /// Return this result: the save operation is over.
    Finish(Result<(), SaveError>),
}

/// The content of an [`Action`].
pub enum ActionModel {
    /// Start the driver executable, bound to `port`.
    SpawnDriver { port: u64 },
    /// Wait for `millis` milliseconds.
    Sleep { millis: u64 },
    /// Open a headless browser session with the driver at `port`.
    OpenSession { port: u64 },
    /// Render the chart to a local document.
    RenderPage,
    /// Load the document at `url`.
    Navigate { url: Seq<char> },
    /// Look once for an element of the page.
    Find(Target),
    /// Click the element that was found last.
    Click,
    /// Read the target of the link that was found last.
    ReadTarget,
    /// Write `bytes` to the image file.
    WriteImage { bytes: Seq<u8> },
    /// Close the page handle.
    CloseHandle,
    /// Kill the driver process.
    KillDriver,
    /// Return this result.
    Finish(Result<(), SaveError>),
}

impl View for Action {
    type V = ActionModel;

    open spec fn view(&self) -> ActionModel {
        match self {
            Action::SpawnDriver { port } => ActionModel::SpawnDriver { port: *port },
            Action::Sleep { millis } => ActionModel::Sleep { millis: *millis },
            Action::OpenSession { port } => ActionModel::OpenSession { port: *port },
            Action::RenderPage => ActionModel::RenderPage,
            Action::Navigate { url } => ActionModel::Navigate { url: url@ },
            Action::Find(target) => ActionModel::Find(*target),
            Action::Click => ActionModel::Click,
            Action::ReadTarget => ActionModel::ReadTarget,
            Action::WriteImage { bytes } => ActionModel::WriteImage { bytes: bytes@ },
            Action::CloseHandle => ActionModel::CloseHandle,
            Action::KillDriver => ActionModel::KillDriver,
            Action::Finish(result) => ActionModel::Finish(*result),
        }
    }
}

/// Where a save operation stands: the action that is under way.
#[derive(Clone, Copy, Debug, PartialEq, Eq)]
pub enum Stage {
    /// Nothing was asked for yet.
    Idle,
    /// The driver is being started on `port`, after `failures` failed attempts.
    Launching { failures: u8, port: u64 },
    /// The launcher waits before its attempt number `failures + 1`.
    LaunchBackoff { failures: u8 },
    /// A session is being opened with the driver at `port`, after `failures`
    /// failed attempts.
    Connecting { failures: u8, port: u64 },
    /// The session client waits before its attempt number `failures + 1` with
    /// the driver at `port`.
    ConnectBackoff { failures: u8, port: u64 },
    /// The chart is being rendered to a document.
    Rendering,
    /// The document is being loaded.
    Navigating,
    /// The disclosure element is looked for, after `failures` looks that found none.
    FindingDisclosure { failures: u8 },
    /// The pipeline waits before look number `failures + 1` for the disclosure
    /// element.
    FindBackoff { failures: u8 },
    /// The disclosure element is being clicked.
    OpeningDisclosure,
    /// The export link is looked for.
    FindingLink,
    /// The export link is being clicked.
    ClickingLink,
    /// The export link is looked for again.
    RelocatingLink,
    /// The target of the export link is being read.
    ReadingTarget,
    /// The image is being written.
    Writing,
    /// The page handle is being closed; the operation will end with this result.
    ClosingHandle(Result<(), SaveError>),
    /// The driver is being killed; the operation will end with this result.
    KillingDriver(Result<(), SaveError>),
    /// The operation is over, with this result.
    Closed(Result<(), SaveError>),
}

/// The phase of a save operation.
#[derive(Clone, Copy, Debug, PartialEq, Eq, Structural)]
pub enum Phase {
    /// Before the first action.
    Idle,
    /// The driver process is being started.
    Launching,
    /// The browser session is being opened.
    Connecting,
    /// The chart's document is being rendered and loaded.
    Navigating,
    /// The export menu is being clicked through.
    Interacting,
    /// The target of the export link is being read and decoded.
    Extracting,
    /// The image is being written.
    Writing,
    /// The resources are being released, or are released.
    Closed,
}

impl Stage {
    /// The phase that the stage belongs to.
    pub open spec fn phase(self) -> Phase {
        match self {
            Stage::Idle => Phase::Idle,
            Stage::Launching { .. } | Stage::LaunchBackoff { .. } => Phase::Launching,
            Stage::Connecting { .. } | Stage::ConnectBackoff { .. } => Phase::Connecting,
            Stage::Rendering | Stage::Navigating => Phase::Navigating,
            Stage::FindingDisclosure { .. }
            | Stage::FindBackoff { .. }
            | Stage::OpeningDisclosure
            | Stage::FindingLink
            | Stage::ClickingLink
            | Stage::RelocatingLink => Phase::Interacting,
            Stage::ReadingTarget => Phase::Extracting,
            Stage::Writing => Phase::Writing,
            Stage::ClosingHandle(_) | Stage::KillingDriver(_) | Stage::Closed(_) => Phase::Closed,
        }
    }
}

/// How a chart is saved: where the driver is launched and how often each step
/// that may need time is tried.
#[derive(Clone, Copy, Debug, PartialEq, Eq, Structural)]
pub struct SaveConfig {
    /// How the driver process is launched.
    pub launch: LaunchConfig,
    /// How often, and how far apart, the session is asked for.
    pub connect: RetryPolicy,
    /// How often, and how far apart, the page is searched for the disclosure element.
    pub poll: RetryPolicy,
}

impl SaveConfig {
    /// The usual configuration: the driver is launched from the default port in
    /// three attempts with delays that grow from 100 ms, the session is asked for
    /// five times, 100 ms apart, and the page is searched for the disclosure
    /// element a hundred times, 100 ms apart.
    pub fn standard() -> (config: Self)
        ensures
            config.launch == (LaunchConfig {
                start_port: DEFAULT_PORT,
                retry: RetryPolicy {
                    max_attempts: 3,
                    backoff: Backoff::Exponential { base_millis: 100 },
                },
            }),
            config.connect == (RetryPolicy {
                max_attempts: 5,
                backoff: Backoff::Fixed { millis: 100 },
            }),
            config.poll == (RetryPolicy {
                max_attempts: 100,
                backoff: Backoff::Fixed { millis: 100 },
            }),
    {
        SaveConfig {
            launch: LaunchConfig::from_port(None),
            connect: default_policy(),
            poll: RetryPolicy { max_attempts: 100, backoff: Backoff::Fixed { millis: 100 } },
        }
    }
}

/// The URL under which the browser loads the local document at `path`.
pub open spec fn page_url_of(path: Seq<char>) -> Seq<char> {
    "file://"@ + path
}

/// A stage and the action that was chosen on entering it.
pub type Move = (Stage, ActionModel);

/// Release what was acquired; the operation will end with `result`.
pub open spec fn teardown(result: Result<(), SaveError>) -> Move {
    (Stage::ClosingHandle(result), ActionModel::CloseHandle)
}

/// Start the driver once more after `failures` failed attempts, if the policy
/// allows another attempt and there is a port for it.
pub open spec fn begin_launch(config: SaveConfig, failures: u8) -> Move {
    if config.launch.retry.allows(failures) {
        match candidate_port(config.launch.start_port, failures) {
            Some(port) => (Stage::Launching { failures, port }, ActionModel::SpawnDriver { port }),
            None => teardown(Err(SaveError::LaunchFailure)),
        }
    } else {
        teardown(Err(SaveError::LaunchFailure))
    }
}

/// Ask for a session once more after `failures` failed attempts, if the policy
/// allows another attempt.
pub open spec fn begin_connect(config: SaveConfig, port: u64, failures: u8) -> Move {
    if config.connect.allows(failures) {
        (Stage::Connecting { failures, port }, ActionModel::OpenSession { port })
    } else {
        teardown(Err(SaveError::ConnectionFailure))
    }
}

/// Look for the disclosure element once more after `failures` looks that found
/// none, if the policy allows another look.
pub open spec fn begin_find(config: SaveConfig, failures: u8) -> Move {
    if config.poll.allows(failures) {
        (Stage::FindingDisclosure { failures }, ActionModel::Find(Target::Disclosure))
    } else {
        teardown(Err(SaveError::InteractionFailure(InteractionStep::FindDisclosure)))
    }
}

/// What follows the extraction of the image: write it, or release and fail.
pub open spec fn after_extraction(image: Result<Seq<u8>, SaveError>) -> Move {
    match image {
        Ok(bytes) => (Stage::Writing, ActionModel::WriteImage { bytes }),
        Err(error) => teardown(Err(error)),
    }
}

/// The step of the pipeline: from the stage and what the action under way gave,
/// to the next stage and the action to perform.
///
/// An action has succeeded only where the event is the one it answers with:
/// `Text` for rendering and for reading the link's target, `Done` for the others.
/// A failed attempt of the launcher, of the session client or of the search for
/// the disclosure element is retried after a delay while its policy allows; any
/// other failure, and the last failure of those, releases what was acquired and
/// ends the operation with the error of its phase. What the releasing actions
/// give is ignored.
pub open spec fn step_spec(config: SaveConfig, stage: Stage, event: EventModel) -> Move {
    match stage {
        Stage::Idle => begin_launch(config, 0),
        Stage::Launching { failures, port } => {
            if event is Done {
                begin_connect(config, port, 0)
            } else {
                match config.launch.retry.verdict(failures) {
                    Verdict::RetryAfter { millis } => (
                        Stage::LaunchBackoff { failures: (failures + 1) as u8 },
                        ActionModel::Sleep { millis },
                    ),
                    Verdict::GiveUp => teardown(Err(SaveError::LaunchFailure)),
                }
            }
        },
        Stage::LaunchBackoff { failures } => begin_launch(config, failures),
        Stage::Connecting { failures, port } => {
            if event is Done {
                (Stage::Rendering, ActionModel::RenderPage)
            } else {
                match config.connect.verdict(failures) {
                    Verdict::RetryAfter { millis } => (
                        Stage::ConnectBackoff { failures: (failures + 1) as u8, port },
                        ActionModel::Sleep { millis },
                    ),
                    Verdict::GiveUp => teardown(Err(SaveError::ConnectionFailure)),
                }
            }
        },
        Stage::ConnectBackoff { failures, port } => begin_connect(config, port, failures),
        Stage::Rendering => {
            match event {
                EventModel::Text(path) => (
                    Stage::Navigating,
                    ActionModel::Navigate { url: page_url_of(path) },
                ),
                _ => teardown(Err(SaveError::IoFailure)),
            }
        },
        Stage::Navigating => {
            if event is Done {
                begin_find(config, 0)
            } else {
                teardown(Err(SaveError::InteractionFailure(InteractionStep::Navigate)))
            }
        },
        Stage::FindingDisclosure { failures } => {
            if event is Done {
                (Stage::OpeningDisclosure, ActionModel::Click)
            } else {
                match config.poll.verdict(failures) {
                    Verdict::RetryAfter { millis } => (
                        Stage::FindBackoff { failures: (failures + 1) as u8 },
                        ActionModel::Sleep { millis },
                    ),
                    Verdict::GiveUp => teardown(
                        Err(SaveError::InteractionFailure(InteractionStep::FindDisclosure)),
                    ),
                }
            }
        },
        Stage::FindBackoff { failures } => begin_find(config, failures),
        Stage::OpeningDisclosure => {
            if event is Done {
                (Stage::FindingLink, ActionModel::Find(Target::ExportLink))
            } else {
                teardown(Err(SaveError::InteractionFailure(InteractionStep::OpenDisclosure)))
            }
        },
        Stage::FindingLink => {
            if event is Done {
                (Stage::ClickingLink, ActionModel::Click)
            } else {
                teardown(Err(SaveError::InteractionFailure(InteractionStep::FindLink)))
            }
        },
        Stage::ClickingLink => {
            if event is Done {
                (Stage::RelocatingLink, ActionModel::Find(Target::ExportLink))
            } else {
                teardown(Err(SaveError::InteractionFailure(InteractionStep::ClickLink)))
            }
        },
        Stage::RelocatingLink => {
            if event is Done {
                (Stage::ReadingTarget, ActionModel::ReadTarget)
            } else {
                teardown(Err(SaveError::InteractionFailure(InteractionStep::RelocateLink)))
            }
        },
        Stage::ReadingTarget => {
            match event {
                EventModel::Text(href) => after_extraction(image_of(data_url_decoding(href))),
                _ => teardown(Err(SaveError::InteractionFailure(InteractionStep::ReadTarget))),
            }
        },
        Stage::Writing => {
            if event is Done {
                teardown(Ok(()))
            } else {
                teardown(Err(SaveError::IoFailure))
            }
        },
        Stage::ClosingHandle(result) => (Stage::KillingDriver(result), ActionModel::KillDriver),
        Stage::KillingDriver(result) => (Stage::Closed(result), ActionModel::Finish(result)),
        Stage::Closed(result) => (Stage::Closed(result), ActionModel::Finish(result)),
    }
}

/// The URL under which the browser loads the local document at `path`.
pub fn page_url(path: &str) -> (url: String)
    ensures
        url@ == page_url_of(path@),
{
    let mut url = String::from_str("file://");
    url.append(path);
    url
}

/// What follows the extraction of the image: the image is written as it is, or
/// the operation is wound up with the error of the extraction.
pub fn proceed_after_extraction(image: Result<Vec<u8>, SaveError>) -> (next: (Stage, Action))
    ensures
        image is Ok ==> next.0 == Stage::Writing && next.1 == (Action::WriteImage {
            bytes: image->Ok_0,
        }),
        image is Err ==> next.0 == Stage::ClosingHandle(Err(image->Err_0)) && next.1
            == Action::CloseHandle,
{
    match image {
        Ok(bytes) => (Stage::Writing, Action::WriteImage { bytes }),
        Err(error) => (Stage::ClosingHandle(Err(error)), Action::CloseHandle),
    }
}

/// A save operation under way.
#[derive(Debug)]
pub struct SavePipeline {
    config: SaveConfig,
    stage: Stage,
}

impl SavePipeline {
    /// The configuration that the pipeline was made with.
    pub closed spec fn config_spec(&self) -> SaveConfig {
        self.config
    }

    /// The stage that the pipeline is in.
    pub closed spec fn stage_spec(&self) -> Stage {
        self.stage
    }

    /// A save operation that has not begun.
    pub fn new(config: SaveConfig) -> (pipeline: Self)
        ensures
            pipeline.config_spec() == config,
            pipeline.stage_spec() == Stage::Idle,
    {
        SavePipeline { config, stage: Stage::Idle }
    }

    /// A save operation whose driver already listens on `port`: it begins with
    /// the first attempt to open a session.
    pub fn with_driver(config: SaveConfig, port: u64) -> (pipeline: Self)
        ensures
            pipeline.config_spec() == config,
            pipeline.stage_spec() == (Stage::ConnectBackoff { failures: 0, port }),
    {
        SavePipeline { config, stage: Stage::ConnectBackoff { failures: 0, port } }
    }

    /// The configuration that the pipeline was made with.
    pub fn config(&self) -> (config: SaveConfig)
        ensures
            config == self.config_spec(),
    {
        self.config
    }

    /// The stage that the pipeline is in.
    pub fn stage(&self) -> (stage: Stage)
        ensures
            stage == self.stage_spec(),
    {
        self.stage
    }

    /// The result of the operation, once it is over.
    pub fn result(&self) -> (result: Option<Result<(), SaveError>>)
        ensures
            result == (match self.stage_spec() {
                Stage::Closed(result) => Some(result),
                _ => None,
            }),
    {
        match self.stage {
            Stage::Closed(result) => Some(result),
            _ => None,
        }
    }

    fn begin_launch(config: &SaveConfig, failures: u8) -> (next: (Stage, Action))
        ensures
            (next.0, next.1@) == begin_launch(*config, failures),
    {
        if config.launch.retry.may_attempt(failures) {
            match port_for_attempt(config.launch.start_port, failures) {
                Some(port) => (Stage::Launching { failures, port }, Action::SpawnDriver { port }),
                None => (Stage::ClosingHandle(Err(SaveError::LaunchFailure)), Action::CloseHandle),
            }
        } else {
            (Stage::ClosingHandle(Err(SaveError::LaunchFailure)), Action::CloseHandle)
        }
    }

    fn begin_connect(config: &SaveConfig, port: u64, failures: u8) -> (next: (Stage, Action))
        ensures
            (next.0, next.1@) == begin_connect(*config, port, failures),
    {
        if config.connect.may_attempt(failures) {
            (Stage::Connecting { failures, port }, Action::OpenSession { port })
        } else {
            (Stage::ClosingHandle(Err(SaveError::ConnectionFailure)), Action::CloseHandle)
        }
    }

    fn begin_find(config: &SaveConfig, failures: u8) -> (next: (Stage, Action))
        ensures
            (next.0, next.1@) == begin_find(*config, failures),
    {
        if config.poll.may_attempt(failures) {
            (Stage::FindingDisclosure { failures }, Action::Find(Target::Disclosure))
        } else {
            (
                Stage::ClosingHandle(
                    Err(SaveError::InteractionFailure(InteractionStep::FindDisclosure)),
                ),
                Action::CloseHandle,
            )
        }
    }

    fn fail(error: SaveError) -> (next: (Stage, Action))
        ensures
            (next.0, next.1@) == teardown(Err(error)),
    {
        (Stage::ClosingHandle(Err(error)), Action::CloseHandle)
    }

    /// Takes what the action under way gave and chooses the next action.
    ///
    /// The first call takes `Event::Start`; each later call takes the outcome of
    /// the action that the call before it returned. After `Action::Finish` the
    /// operation is over, and every further call returns the same `Finish`.
    pub fn step(&mut self, event: Event) -> (action: Action)
        ensures
            final(self).config_spec() == old(self).config_spec(),
            (final(self).stage_spec(), action@) == step_spec(
                old(self).config_spec(),
                old(self).stage_spec(),
                event@,
            ),
            old(self).stage_spec() is Idle && old(self).config_spec().launch.retry.allows(0)
                ==> action@ == (ActionModel::SpawnDriver {
                port: old(self).config_spec().launch.start_port,
            }),
            (old(self).stage_spec() matches Stage::Launching { failures, .. } && failures == 0
                && !(event@ is Done) && 1 < old(self).config_spec().launch.retry.max_attempts
                && old(self).config_spec().launch.retry.backoff is Exponential) ==> action@
                == (ActionModel::Sleep {
                millis: old(self).config_spec().launch.retry.backoff->base_millis,
            }),
    {
        let config = self.config;
        let next: (Stage, Action) = match self.stage {
            Stage::Idle => Self::begin_launch(&config, 0),
            Stage::Launching { failures, port } => match event {
                Event::Done => Self::begin_connect(&config, port, 0),
                _ => match config.launch.retry.after_failure(failures) {
                    Verdict::RetryAfter { millis } => (
                        Stage::LaunchBackoff { failures: failures + 1 },
                        Action::Sleep { millis },
                    ),
                    Verdict::GiveUp => Self::fail(SaveError::LaunchFailure),
                },
            },
            Stage::LaunchBackoff { failures } => Self::begin_launch(&config, failures),
            Stage::Connecting { failures, port } => match event {
                Event::Done => (Stage::Rendering, Action::RenderPage),
                _ => match config.connect.after_failure(failures) {
                    Verdict::RetryAfter { millis } => (
                        Stage::ConnectBackoff { failures: failures + 1, port },
                        Action::Sleep { millis },
                    ),
                    Verdict::GiveUp => Self::fail(SaveError::ConnectionFailure),
                },
            },
            Stage::ConnectBackoff { failures, port } => Self::begin_connect(&config, port, failures),
            Stage::Rendering => match event {
                Event::Text(path) => (
                    Stage::Navigating,
                    Action::Navigate { url: page_url(path.as_str()) },
                ),
                _ => Self::fail(SaveError::IoFailure),
            },
            Stage::Navigating => match event {
                Event::Done => Self::begin_find(&config, 0),
                _ => Self::fail(SaveError::InteractionFailure(InteractionStep::Navigate)),
            },
            Stage::FindingDisclosure { failures } => match event {
                Event::Done => (Stage::OpeningDisclosure, Action::Click),
                _ => match config.poll.after_failure(failures) {
                    Verdict::RetryAfter { millis } => (
                        Stage::FindBackoff { failures: failures + 1 },
                        Action::Sleep { millis },
                    ),
                    Verdict::GiveUp => Self::fail(
                        SaveError::InteractionFailure(InteractionStep::FindDisclosure),
                    ),
                },
            },
            Stage::FindBackoff { failures } => Self::begin_find(&config, failures),
            Stage::OpeningDisclosure => match event {
                Event::Done => (Stage::FindingLink, Action::Find(Target::ExportLink)),
                _ => Self::fail(SaveError::InteractionFailure(InteractionStep::OpenDisclosure)),
            },
            Stage::FindingLink => match event {
                Event::Done => (Stage::ClickingLink, Action::Click),
                _ => Self::fail(SaveError::InteractionFailure(InteractionStep::FindLink)),
            },
            Stage::ClickingLink => match event {
                Event::Done => (Stage::RelocatingLink, Action::Find(Target::ExportLink)),
                _ => Self::fail(SaveError::InteractionFailure(InteractionStep::ClickLink)),
            },
            Stage::RelocatingLink => match event {
                Event::Done => (Stage::ReadingTarget, Action::ReadTarget),
                _ => Self::fail(SaveError::InteractionFailure(InteractionStep::RelocateLink)),
            },
            Stage::ReadingTarget => match event {
                Event::Text(href) => proceed_after_extraction(extract_image(href.as_str())),
                _ => Self::fail(SaveError::InteractionFailure(InteractionStep::ReadTarget)),
            },
            Stage::Writing => match event {
                Event::Done => (Stage::ClosingHandle(Ok(())), Action::CloseHandle),
                _ => Self::fail(SaveError::IoFailure),
            },
            Stage::ClosingHandle(result) => (Stage::KillingDriver(result), Action::KillDriver),
            Stage::KillingDriver(result) => (Stage::Closed(result), Action::Finish(result)),
            Stage::Closed(result) => (Stage::Closed(result), Action::Finish(result)),
        };
        self.stage = next.0;
        next.1
    }
}

} // verus!
