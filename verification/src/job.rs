//! One run of the bot, as a machine that is told what happened and answers
//! with what to do next: prompt, picture, storage, publication, in that
//! order and with no way back. The caller does the work and reports it.

use vstd::prelude::*;
use vstd::string::*;
use crate::text::text_view;

verus! {

/// Why a run stopped before anything was published.
#[derive(Clone, Copy, Debug, PartialEq, Eq, Structural)]
pub enum JobFailure {
    /// The picture at the given address could not be fetched or stored.
    GivenImageNotStored,
    /// The image service gave no picture.
    ImageNotGenerated,
    /// The generated picture could not be fetched or stored.
    GeneratedImageNotStored,
}

/// Where a run stands.
#[derive(Debug, PartialEq, Eq)]
pub enum JobState {
    /// Not started.
    Idle,
    /// The prompt is being made.
    AwaitingPrompt,
    /// The picture of `prompt` is being generated.
    AwaitingImage { prompt: String },
    /// A picture is being fetched and stored; `caption` goes with it, and
    /// `generated` says whether the run generated the picture itself.
    AwaitingStore { caption: String, generated: bool },
    /// The post is being published.
    AwaitingPublication,
    /// Nothing is left to do.
    Finished,
}

/// What happened since the last step.
#[derive(Debug, PartialEq, Eq)]
pub enum JobEvent {
    /// The run was started, with the address of a picture to use or without.
    Started { given_url: Option<String> },
    /// The prompt is made.
    PromptReady { prompt: String },
    /// The image service was asked; `url` is the picture's address, if any.
    ImageGenerated { url: Option<String> },
    /// Fetching and storing ended; `public_url` is where the picture is
    /// served, if it was stored.
    ImageStored { public_url: Option<String> },
    /// The publication ended, well or not.
    PublicationEnded,
}

/// What to do next.
#[derive(Debug, PartialEq, Eq)]
pub enum JobAction {
    /// Make a prompt, and report `PromptReady`.
    GeneratePrompt,
    /// Ask the image service for a picture of `prompt`, and report
    /// `ImageGenerated`.
    GenerateImage { prompt: String },
    /// Fetch the picture at `url` and store it, and report `ImageStored`.
    FetchAndStore { url: String },
    /// Publish the picture at `image_url` with `caption`, and report
    /// `PublicationEnded`.
    Publish { image_url: String, caption: String },
    /// Record the failure; the run is over.
    Abort { failure: JobFailure },
    /// The run is over.
    Finish,
    /// The event does not fit the state: do nothing.
    Ignore,
}

/// A state, with its texts as sequences of characters.
pub ghost enum JobStateView {
    Idle,
    AwaitingPrompt,
    AwaitingImage { prompt: Seq<char> },
    AwaitingStore { caption: Seq<char>, generated: bool },
    AwaitingPublication,
    Finished,
}

/// An event, with its texts as sequences of characters.
pub ghost enum JobEventView {
    Started { given_url: Option<Seq<char>> },
    PromptReady { prompt: Seq<char> },
    ImageGenerated { url: Option<Seq<char>> },
    ImageStored { public_url: Option<Seq<char>> },
    PublicationEnded,
}

/// An action, with its texts as sequences of characters.
pub ghost enum JobActionView {
    GeneratePrompt,
    GenerateImage { prompt: Seq<char> },
    FetchAndStore { url: Seq<char> },
    Publish { image_url: Seq<char>, caption: Seq<char> },
    Abort { failure: JobFailure },
    Finish,
    Ignore,
}

impl View for JobState {
    type V = JobStateView;

    open spec fn view(&self) -> JobStateView {
        match *self {
            JobState::Idle => JobStateView::Idle,
            JobState::AwaitingPrompt => JobStateView::AwaitingPrompt,
            JobState::AwaitingImage { prompt } => JobStateView::AwaitingImage { prompt: prompt@ },
            JobState::AwaitingStore { caption, generated } => JobStateView::AwaitingStore {
                caption: caption@,
                generated,
            },
            JobState::AwaitingPublication => JobStateView::AwaitingPublication,
            JobState::Finished => JobStateView::Finished,
        }
    }
}

impl View for JobEvent {
    type V = JobEventView;

    open spec fn view(&self) -> JobEventView {
        match *self {
            JobEvent::Started { given_url } => JobEventView::Started {
                given_url: text_view(given_url),
            },
            JobEvent::PromptReady { prompt } => JobEventView::PromptReady { prompt: prompt@ },
            JobEvent::ImageGenerated { url } => JobEventView::ImageGenerated {
                url: text_view(url),
            },
            JobEvent::ImageStored { public_url } => JobEventView::ImageStored {
                public_url: text_view(public_url),
            },
            JobEvent::PublicationEnded => JobEventView::PublicationEnded,
        }
    }
}

impl View for JobAction {
    type V = JobActionView;

    open spec fn view(&self) -> JobActionView {
        match *self {
            JobAction::GeneratePrompt => JobActionView::GeneratePrompt,
            JobAction::GenerateImage { prompt } => JobActionView::GenerateImage {
                prompt: prompt@,
            },
            JobAction::FetchAndStore { url } => JobActionView::FetchAndStore { url: url@ },
            JobAction::Publish { image_url, caption } => JobActionView::Publish {
                image_url: image_url@,
                caption: caption@,
            },
            JobAction::Abort { failure } => JobActionView::Abort { failure },
            JobAction::Finish => JobActionView::Finish,
            JobAction::Ignore => JobActionView::Ignore,
        }
    }
}

/// The caption of a post whose picture was given by its address.
pub open spec fn given_caption_text(url: Seq<char>) -> Seq<char> {
    "Image from URL: "@ + url
}

/// The failure to record when a picture was not stored.
pub open spec fn store_failure(generated: bool) -> JobFailure {
    if generated {
        JobFailure::GeneratedImageNotStored
    } else {
        JobFailure::GivenImageNotStored
    }
}

/// One step of a run: the state that follows `state` on `event`, and what
/// to do then. An event that does not fit the state changes nothing.
pub open spec fn job_step(state: JobStateView, event: JobEventView) -> (
    JobStateView,
    JobActionView,
) {
    match (state, event) {
        (JobStateView::Idle, JobEventView::Started { given_url: Some(url) }) => (
            JobStateView::AwaitingStore { caption: given_caption_text(url), generated: false },
            JobActionView::FetchAndStore { url },
        ),
        (JobStateView::Idle, JobEventView::Started { given_url: None }) => (
            JobStateView::AwaitingPrompt,
            JobActionView::GeneratePrompt,
        ),
        (JobStateView::AwaitingPrompt, JobEventView::PromptReady { prompt }) => (
            JobStateView::AwaitingImage { prompt },
            JobActionView::GenerateImage { prompt },
        ),
        (JobStateView::AwaitingImage { prompt }, JobEventView::ImageGenerated { url: Some(url) }) => (
            JobStateView::AwaitingStore { caption: prompt, generated: true },
            JobActionView::FetchAndStore { url },
        ),
        (JobStateView::AwaitingImage { prompt }, JobEventView::ImageGenerated { url: None }) => (
            JobStateView::Finished,
            JobActionView::Abort { failure: JobFailure::ImageNotGenerated },
        ),
        (
            JobStateView::AwaitingStore { caption, generated },
            JobEventView::ImageStored { public_url: Some(image_url) },
        ) => (JobStateView::AwaitingPublication, JobActionView::Publish { image_url, caption }),
        (
            JobStateView::AwaitingStore { caption, generated },
            JobEventView::ImageStored { public_url: None },
        ) => (JobStateView::Finished, JobActionView::Abort { failure: store_failure(generated) }),
        (JobStateView::AwaitingPublication, JobEventView::PublicationEnded) => (
            JobStateView::Finished,
            JobActionView::Finish,
        ),
        _ => (state, JobActionView::Ignore),
    }
}

/// The caption of a post whose picture was given by its address.
pub fn given_caption(url: &str) -> (r: String)
    ensures
        r@ == given_caption_text(url@),
{
    let mut r = String::from_str("Image from URL: ");
    r.append(url);
    r
}

/// The first state of a run.
pub fn new_job() -> (r: JobState)
    ensures
        r@ == JobStateView::Idle,
{
    JobState::Idle
}

/// Takes one step of a run: given where the run stands and what happened,
/// says where it stands now and what to do next.
pub fn job(state: JobState, event: JobEvent) -> (r: (JobState, JobAction))
    ensures
        r.0@ == job_step(state@, event@).0,
        r.1@ == job_step(state@, event@).1,
{
    match (state, event) {
        (JobState::Idle, JobEvent::Started { given_url: Some(url) }) => {
            let caption = given_caption(url.as_str());
            (JobState::AwaitingStore { caption, generated: false }, JobAction::FetchAndStore { url })
        },
        (JobState::Idle, JobEvent::Started { given_url: None }) => (
            JobState::AwaitingPrompt,
            JobAction::GeneratePrompt,
        ),
        (JobState::AwaitingPrompt, JobEvent::PromptReady { prompt }) => {
            let copy = prompt.clone();
            (JobState::AwaitingImage { prompt }, JobAction::GenerateImage { prompt: copy })
        },
        (JobState::AwaitingImage { prompt }, JobEvent::ImageGenerated { url: Some(url) }) => (
            JobState::AwaitingStore { caption: prompt, generated: true },
            JobAction::FetchAndStore { url },
        ),
        (JobState::AwaitingImage { prompt }, JobEvent::ImageGenerated { url: None }) => (
            JobState::Finished,
            JobAction::Abort { failure: JobFailure::ImageNotGenerated },
        ),
        (
            JobState::AwaitingStore { caption, generated },
            JobEvent::ImageStored { public_url: Some(image_url) },
        ) => (JobState::AwaitingPublication, JobAction::Publish { image_url, caption }),
        (
            JobState::AwaitingStore { caption, generated },
            JobEvent::ImageStored { public_url: None },
        ) => {
            let failure = if generated {
                JobFailure::GeneratedImageNotStored
            } else {
                JobFailure::GivenImageNotStored
            };
            (JobState::Finished, JobAction::Abort { failure })
        },
        (JobState::AwaitingPublication, JobEvent::PublicationEnded) => (
            JobState::Finished,
            JobAction::Finish,
        ),
        (state, _) => (state, JobAction::Ignore),
    }
}

impl JobFailure {
    /// The line that records this failure.
    pub fn message(&self) -> (r: &'static str)
        ensures
            *self == JobFailure::GivenImageNotStored ==> r@ == "Failed to process image from URL"@,
            *self == JobFailure::ImageNotGenerated ==> r@ == "Failed to generate image"@,
            *self == JobFailure::GeneratedImageNotStored ==> r@
                == "Failed to process generated image"@,
    {
        match self {
            JobFailure::GivenImageNotStored => "Failed to process image from URL",
            JobFailure::ImageNotGenerated => "Failed to generate image",
            JobFailure::GeneratedImageNotStored => "Failed to process generated image",
        }
    }
}

/// A run that is over stays over: whatever is reported to it, it asks for
/// nothing more.
pub proof fn lemma_finished_is_final(event: JobEventView)
    ensures
        job_step(JobStateView::Finished, event) == (JobStateView::Finished, JobActionView::Ignore),
{
}

/// When the image service gives no picture, the run records that failure
/// and is over: it asks neither for the picture to be fetched and stored
/// nor for a post to be published, then or after any later report.
pub proof fn lemma_no_picture_ends_run(prompt: Seq<char>, later: JobEventView)
    ensures
        job_step(
            JobStateView::AwaitingImage { prompt },
            JobEventView::ImageGenerated { url: None },
        ) == (
            JobStateView::Finished,
            JobActionView::Abort { failure: JobFailure::ImageNotGenerated },
        ),
        job_step(JobStateView::Finished, later).1 == JobActionView::Ignore,
        job_step(JobStateView::Finished, later).0 == JobStateView::Finished,
{
}

/// A post is published only as the answer to the report that a picture was
/// stored, for the address in that report and with the caption that the
/// run carried while it waited.
pub proof fn lemma_publish_follows_store(state: JobStateView, event: JobEventView)
    requires
        job_step(state, event).1 is Publish,
    ensures
        state is AwaitingStore,
        event is ImageStored,
        event->public_url == Some(job_step(state, event).1->image_url),
        job_step(state, event).1->caption == state->caption,
        job_step(state, event).0 == JobStateView::AwaitingPublication,
{
}

/// A picture is fetched and stored only at the start of a run that was
/// given an address, or when the image service has named one.
pub proof fn lemma_fetch_follows_address(state: JobStateView, event: JobEventView)
    requires
        job_step(state, event).1 is FetchAndStore,
    ensures
        (state is Idle && event is Started && event->given_url == Some(
            job_step(state, event).1->FetchAndStore_url,
        )) || (state is AwaitingImage && event is ImageGenerated && event->ImageGenerated_url
            == Some(job_step(state, event).1->FetchAndStore_url)),
{
}

} // verus!
