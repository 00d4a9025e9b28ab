use vstd::prelude::*;

use crate::draft::{draft_body, json_string_literal};
use crate::store::{usage_total, Database};

verus! {

/// Which transcription-provider key an invocation uses.
#[derive(Debug)]
pub enum TranscriptionKey {
    /// The user's own key: self-funded, no quota is charged.
    Personal(String),
    /// The operator-provisioned key: quota-funded.
    Operator,
}

impl TranscriptionKey {
    pub fn duplicate(&self) -> (r: TranscriptionKey)
        ensures
            r == *self,
    {
        match self {
            TranscriptionKey::Personal(k) => TranscriptionKey::Personal(k.clone()),
            TranscriptionKey::Operator => TranscriptionKey::Operator,
        }
    }
}

/// The instruction profile of the text-generation call.
#[derive(Debug, Clone, Copy, PartialEq, Eq, Structural)]
pub enum Instructions {
    /// Rewrite the transcript into a post with impact.
    Rewrite,
    /// Format the transcript only, keeping its meaning.
    FormatOnly,
}

/// The profile chosen by the user's rewrite preference.
pub fn instructions_for(rewrite_enabled: bool) -> (r: Instructions)
    ensures
        r == (if rewrite_enabled {
            Instructions::Rewrite
        } else {
            Instructions::FormatOnly
        }),
{
    if rewrite_enabled {
        Instructions::Rewrite
    } else {
        Instructions::FormatOnly
    }
}

/// Where a voice-note job stands.
#[derive(Debug, Clone, Copy, PartialEq, Eq, Structural)]
pub enum VoiceStage {
    Staging,
    Transcribing,
    Rewriting,
    Publishing,
    Finished,
}

/// The order of the stages: every step of an unfinished job moves it up.
pub open spec fn stage_rank(stage: VoiceStage) -> int {
    match stage {
        VoiceStage::Staging => 0,
        VoiceStage::Transcribing => 1,
        VoiceStage::Rewriting => 2,
        VoiceStage::Publishing => 3,
        VoiceStage::Finished => 4,
    }
}

/// How a voice-note job ended.
#[derive(Debug, Clone, Copy, PartialEq, Eq, Structural)]
pub enum VoiceOutcome {
    Published,
    StagingFailure,
    TranscriptionFailure,
    TransformationFailure,
    PublishFailure,
    /// The drafting key is missing.
    ConfigurationFault,
    /// An event that does not belong to the job's stage.
    UnexpectedEvent,
}

/// What the outside world reports back to a job.
#[derive(Debug)]
pub enum VoiceEvent {
    /// The voice note is in the staged file.
    Staged,
    /// Staging failed; `partial_file` tells whether a file was created.
    StagingFailed { partial_file: bool },
    /// The transcript, or `None` when transcription failed.
    Transcribed(Option<String>),
    /// The rewritten text, or `None` when generation failed.
    Rewritten(Option<String>),
    /// Whether the drafting service accepted the draft.
    DraftCreated(bool),
}

/// What a job asks the outside world to do next.
#[derive(Debug)]
pub enum VoiceAction {
    /// Transcribe the staged file with `key`.
    Transcribe { key: TranscriptionKey },
    /// Turn `text` into a post with the text-generation provider.
    Rewrite { key: TranscriptionKey, instructions: Instructions, from_user: String, text: String },
    /// Send `body` to the drafting service with `api_key`.
    Publish { api_key: String, body: String },
    /// The job is over.
    Finish(VoiceOutcome),
}

/// One step of a job: whether the staged file is to be removed now, and what
/// to do next. The removal comes first.
#[derive(Debug)]
pub struct VoiceStep {
    pub remove_staged_file: bool,
    pub action: VoiceAction,
}

/// One invocation of the voice-note pipeline.
#[derive(Debug)]
pub struct VoiceJob {
    pub telegram_id: i64,
    pub duration_seconds: u32,
    pub key: TranscriptionKey,
    /// Whether a successful transcription is charged to the free quota.
    pub quota_funded: bool,
    pub username: String,
    pub rewrite_enabled: bool,
    pub typefully_api_key: Option<String>,
    pub stage: VoiceStage,
    /// Whether a staged file exists that the job has not yet had removed.
    pub file_staged: bool,
}

/// The outcome of the credential check that opens the pipeline.
#[derive(Debug)]
pub enum VoiceStart {
    /// No user record: onboarding is needed first.
    NotOnboarded,
    /// No personal key and the free quota is used up: nothing is called.
    QuotaExceeded,
    /// The job: the voice note is to be staged into a fresh, uniquely named
    /// file, and the outcome handed to `VoiceJob::advance`.
    Proceed(VoiceJob),
}

impl VoiceJob {
    /// A staged file exists exactly while the transcript is awaited.
    pub open spec fn wf(&self) -> bool {
        &&& self.file_staged <==> self.stage is Transcribing
        &&& self.quota_funded <==> self.key is Operator
    }

    /// The fields that no step changes.
    pub open spec fn same_request(&self, other: VoiceJob) -> bool {
        &&& self.telegram_id == other.telegram_id
        &&& self.duration_seconds == other.duration_seconds
        &&& self.key == other.key
        &&& self.quota_funded == other.quota_funded
        &&& self.username == other.username
        &&& self.rewrite_enabled == other.rewrite_enabled
        &&& self.typefully_api_key == other.typefully_api_key
    }

    /// Whether a staged file exists once `event` has happened, before any
    /// removal.
    pub open spec fn file_after_event(&self, event: VoiceEvent) -> bool {
        ||| self.file_staged
        ||| (self.stage is Staging && event is Staged)
        ||| (self.stage is Staging && (event matches VoiceEvent::StagingFailed { partial_file } && partial_file))
    }

    /// Whether `event` is a successful transcription that the quota pays for.
    pub open spec fn charges_usage(&self, event: VoiceEvent) -> bool {
        &&& self.stage is Transcribing
        &&& event matches VoiceEvent::Transcribed(Some(_))
        &&& self.quota_funded
    }

    /// Advances the job by one event.
    pub fn advance(&mut self, db: &mut Database, event: VoiceEvent) -> (step: VoiceStep)
        requires
            old(self).wf(),
            old(db).wf(),
        ensures
            final(self).wf(),
            final(db).wf(),
            final(self).same_request(*old(self)),
            // the staged file is removed exactly when it exists and the job moves past it
            step.remove_staged_file == (old(self).file_after_event(event) && !final(self).file_staged),
            final(self).file_staged ==> old(self).file_after_event(event),
            (final(self).stage is Finished) <==> (step.action is Finish),
            old(self).stage is Finished ==> final(self).stage is Finished,
            !(old(self).stage is Finished) ==> stage_rank(final(self).stage) > stage_rank(
                old(self).stage,
            ),
            // usage: one record on a charged transcription, nothing otherwise
            final(db)@.users == old(db)@.users,
            final(db)@.deleted == old(db)@.deleted,
            !old(self).charges_usage(event) ==> final(db)@.usage == old(db)@.usage,
            old(self).charges_usage(event) ==> {
                let rec = final(db)@.usage.last();
                &&& final(db)@.usage == old(db)@.usage.push(rec)
                &&& rec.telegram_id == old(self).telegram_id
                &&& rec.duration_seconds == old(self).duration_seconds
                &&& usage_total(final(db)@.usage, old(self).telegram_id) == usage_total(
                    old(db)@.usage,
                    old(self).telegram_id,
                ) + old(self).duration_seconds
            },
            // the stage-by-stage outcomes
            old(self).stage is Staging ==> match event {
                VoiceEvent::Staged => final(self).stage is Transcribing && step.action
                    == VoiceAction::Transcribe { key: old(self).key },
                VoiceEvent::StagingFailed { .. } => step.action == VoiceAction::Finish(
                    VoiceOutcome::StagingFailure,
                ),
                _ => step.action == VoiceAction::Finish(VoiceOutcome::UnexpectedEvent),
            },
            old(self).stage is Transcribing ==> match event {
                VoiceEvent::Transcribed(None) => step.action == VoiceAction::Finish(
                    VoiceOutcome::TranscriptionFailure,
                ),
                VoiceEvent::Transcribed(Some(text)) => final(self).stage is Rewriting && step.action
                    == VoiceAction::Rewrite {
                    key: old(self).key,
                    instructions: if old(self).rewrite_enabled {
                        Instructions::Rewrite
                    } else {
                        Instructions::FormatOnly
                    },
                    from_user: old(self).username,
                    text,
                },
                _ => step.action == VoiceAction::Finish(VoiceOutcome::UnexpectedEvent),
            },
            old(self).stage is Rewriting ==> match event {
                VoiceEvent::Rewritten(None) => step.action == VoiceAction::Finish(
                    VoiceOutcome::TransformationFailure,
                ),
                VoiceEvent::Rewritten(Some(summary)) => match old(self).typefully_api_key {
                    None => step.action == VoiceAction::Finish(VoiceOutcome::ConfigurationFault),
                    Some(api_key) => final(self).stage is Publishing && (step.action matches VoiceAction::Publish {
                        api_key: k,
                        body,
                    } && k == api_key && body@ == "{\"content\":"@ + json_string_literal(summary@)
                        + "}"@),
                },
                _ => step.action == VoiceAction::Finish(VoiceOutcome::UnexpectedEvent),
            },
            old(self).stage is Publishing ==> match event {
                VoiceEvent::DraftCreated(true) => step.action == VoiceAction::Finish(
                    VoiceOutcome::Published,
                ),
                VoiceEvent::DraftCreated(false) => step.action == VoiceAction::Finish(
                    VoiceOutcome::PublishFailure,
                ),
                _ => step.action == VoiceAction::Finish(VoiceOutcome::UnexpectedEvent),
            },
            old(self).stage is Finished ==> step.action == VoiceAction::Finish(
                VoiceOutcome::UnexpectedEvent,
            ),
    {
        match self.stage {
            VoiceStage::Staging => match event {
                VoiceEvent::Staged => {
                    self.stage = VoiceStage::Transcribing;
                    self.file_staged = true;
                    VoiceStep {
                        remove_staged_file: false,
                        action: VoiceAction::Transcribe { key: self.key.duplicate() },
                    }
                },
                VoiceEvent::StagingFailed { partial_file } => {
                    self.stage = VoiceStage::Finished;
                    VoiceStep {
                        remove_staged_file: partial_file,
                        action: VoiceAction::Finish(VoiceOutcome::StagingFailure),
                    }
                },
                _ => {
                    self.stage = VoiceStage::Finished;
                    VoiceStep {
                        remove_staged_file: false,
                        action: VoiceAction::Finish(VoiceOutcome::UnexpectedEvent),
                    }
                },
            },
            VoiceStage::Transcribing => {
                // the staged file goes whatever the event was
                self.file_staged = false;
                match event {
                    VoiceEvent::Transcribed(Some(text)) => {
                        if self.quota_funded {
                            db.add_usage(self.telegram_id, self.duration_seconds);
                        }
                        self.stage = VoiceStage::Rewriting;
                        VoiceStep {
                            remove_staged_file: true,
                            action: VoiceAction::Rewrite {
                                key: self.key.duplicate(),
                                instructions: instructions_for(self.rewrite_enabled),
                                from_user: self.username.clone(),
                                text,
                            },
                        }
                    },
                    VoiceEvent::Transcribed(None) => {
                        self.stage = VoiceStage::Finished;
                        VoiceStep {
                            remove_staged_file: true,
                            action: VoiceAction::Finish(VoiceOutcome::TranscriptionFailure),
                        }
                    },
                    _ => {
                        self.stage = VoiceStage::Finished;
                        VoiceStep {
                            remove_staged_file: true,
                            action: VoiceAction::Finish(VoiceOutcome::UnexpectedEvent),
                        }
                    },
                }
            },
            VoiceStage::Rewriting => match event {
                VoiceEvent::Rewritten(Some(summary)) => {
                    let published = match &self.typefully_api_key {
                        Some(api_key) => Some(
                            VoiceAction::Publish {
                                api_key: api_key.clone(),
                                body: draft_body(summary.as_str()),
                            },
                        ),
                        None => None,
                    };
                    match published {
                        Some(action) => {
                            self.stage = VoiceStage::Publishing;
                            VoiceStep { remove_staged_file: false, action }
                        },
                        None => {
                            self.stage = VoiceStage::Finished;
                            VoiceStep {
                                remove_staged_file: false,
                                action: VoiceAction::Finish(VoiceOutcome::ConfigurationFault),
                            }
                        },
                    }
                },
                VoiceEvent::Rewritten(None) => {
                    self.stage = VoiceStage::Finished;
                    VoiceStep {
                        remove_staged_file: false,
                        action: VoiceAction::Finish(VoiceOutcome::TransformationFailure),
                    }
                },
                _ => {
                    self.stage = VoiceStage::Finished;
                    VoiceStep {
                        remove_staged_file: false,
                        action: VoiceAction::Finish(VoiceOutcome::UnexpectedEvent),
                    }
                },
            },
            VoiceStage::Publishing => {
                self.stage = VoiceStage::Finished;
                let outcome = match event {
                    VoiceEvent::DraftCreated(true) => VoiceOutcome::Published,
                    VoiceEvent::DraftCreated(false) => VoiceOutcome::PublishFailure,
                    _ => VoiceOutcome::UnexpectedEvent,
                };
                VoiceStep { remove_staged_file: false, action: VoiceAction::Finish(outcome) }
            },
            VoiceStage::Finished => VoiceStep {
                remove_staged_file: false,
                action: VoiceAction::Finish(VoiceOutcome::UnexpectedEvent),
            },
        }
    }
}

/// The text of a generation reply from the content of its last choice:
/// fixed fallbacks where there is no choice or it has no content.
pub fn summary_text(last_choice: Option<Option<String>>) -> (r: String)
    ensures
        r@ == match last_choice {
            None => "No summary available"@,
            Some(None) => "No content"@,
            Some(Some(content)) => content@,
        },
{
    match last_choice {
        None => "No summary available".to_owned(),
        Some(None) => "No content".to_owned(),
        Some(Some(content)) => content,
    }
}

/// A job paid by the user's own key is never charged, whatever event comes.
pub proof fn lemma_self_funded_never_charged(job: VoiceJob, event: VoiceEvent)
    requires
        job.wf(),
        job.key is Personal,
    ensures
        !job.charges_usage(event),
{
}

/// Only a job that is transcribing is charged, and a step never brings a job
/// back to that stage: a job is charged at most once.
pub proof fn lemma_charged_at_most_once(before: VoiceJob, after: VoiceJob, event: VoiceEvent)
    requires
        before.charges_usage(event),
        stage_rank(after.stage) > stage_rank(before.stage),
    ensures
        forall|e: VoiceEvent| !after.charges_usage(e),
{
}

/// A finished job leaves no staged file behind.
pub proof fn lemma_finished_job_leaves_no_file(job: VoiceJob)
    requires
        job.wf(),
        job.stage is Finished,
    ensures
        !job.file_staged,
{
}

} // verus!
