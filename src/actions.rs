use vstd::prelude::*;

use crate::commands::{bot_schema, route, state_of, transition, Handler, MessageKind, Sessions, State};
use crate::store::{
    usage_total, Database, DatabaseView, StoreError, User, UserPayload, UserView,
    FREE_USAGE_LIMIT_SECONDS,
};
use crate::voice::{TranscriptionKey, VoiceJob, VoiceStage, VoiceStart};

verus! {

/// What a handler tells the user.
#[derive(Debug, Clone, Copy, PartialEq, Eq, Structural)]
pub enum Reply {
    /// Onboarding started: send the drafting-service key.
    Welcome,
    AlreadySetUp,
    DraftingKeyAccepted,
    DraftingKeyInvalid,
    /// No user record: start again with onboarding.
    UserNotFound,
    Help,
    ConfirmDeletion,
    AccountDeleted,
    DeletionCancelled,
    UnableToHandle,
    AskTranscriptionKey,
    TranscriptionKeySaved,
    AskNewDraftingKey,
    /// The user pays for transcription with a personal key.
    UsageUnlimited,
    UsageExhausted,
    UsageRemaining { minutes: u64, seconds: u64 },
    RewriteToggled(bool),
    StoreFailure(StoreError),
}

/// The exact confirmation text of an account deletion.
pub open spec fn delete_token() -> Seq<char> {
    "DELETE"@
}

/// Whether `text` is exactly the deletion confirmation (case-sensitive).
pub fn is_delete_confirmation(text: &str) -> (r: bool)
    ensures
        r == (text@ == delete_token()),
{
    let given = text.to_owned();
    let token = "DELETE".to_owned();
    given == token
}

/// `new` is `old` with the record of `id` replaced by `u`.
pub open spec fn replaced(old: DatabaseView, new: DatabaseView, id: i64, u: UserView) -> bool {
    &&& new.users.contains_key(id)
    &&& new.users[id]@ == u
    &&& new.users.remove(id) == old.users.remove(id)
    &&& new.usage == old.usage
    &&& new.deleted == old.deleted
}

/// What onboarding does: a new user gets a record without keys and is asked
/// for the drafting key; an existing one is told so and nothing changes.
pub open spec fn start_done(
    old_db: DatabaseView,
    new_db: DatabaseView,
    old_s: Map<i64, State>,
    new_s: Map<i64, State>,
    id: i64,
    name: Seq<char>,
    r: Reply,
) -> bool {
    if old_db.users.contains_key(id) {
        r == Reply::AlreadySetUp && new_db == old_db && new_s == old_s
    } else {
        &&& r == Reply::Welcome
        &&& new_s == old_s.insert(id, State::WaitingForTypefullyApiKey)
        &&& new_db.users.contains_key(id)
        &&& new_db.users[id]@.username == name
        &&& new_db.users[id].typefully_api_key is None
        &&& new_db.users[id].openai_api_key is None
        &&& !new_db.users[id].rewrite_enabled
        &&& new_db.users.remove(id) == old_db.users
        &&& new_db.usage == old_db.usage
        &&& new_db.deleted == old_db.deleted
    }
}

/// What a drafting key sent while one is awaited does, given the drafting
/// service's verdict on it.
pub open spec fn drafting_key_done(
    old_db: DatabaseView,
    new_db: DatabaseView,
    old_s: Map<i64, State>,
    new_s: Map<i64, State>,
    id: i64,
    key: Seq<char>,
    accepted: bool,
    r: Reply,
) -> bool {
    if !old_db.users.contains_key(id) {
        r == Reply::UserNotFound && new_db == old_db && new_s == old_s
    } else if !accepted {
        r == Reply::DraftingKeyInvalid && new_db == old_db && new_s == old_s
    } else {
        &&& r == Reply::DraftingKeyAccepted
        &&& new_s == old_s.insert(id, State::Start)
        &&& replaced(
            old_db,
            new_db,
            id,
            UserView { typefully_api_key: Some(key), ..old_db.users[id]@ },
        )
    }
}

/// What a transcription key sent while one is awaited does: it is stored
/// as it is.
pub open spec fn transcription_key_done(
    old_db: DatabaseView,
    new_db: DatabaseView,
    old_s: Map<i64, State>,
    new_s: Map<i64, State>,
    id: i64,
    key: Seq<char>,
    r: Reply,
) -> bool {
    if !old_db.users.contains_key(id) {
        r == Reply::UserNotFound && new_db == old_db && new_s == old_s
    } else {
        &&& r == Reply::TranscriptionKeySaved
        &&& new_s == old_s.insert(id, State::Start)
        &&& replaced(
            old_db,
            new_db,
            id,
            UserView { openai_api_key: Some(key), ..old_db.users[id]@ },
        )
    }
}

/// What the text sent while a deletion confirmation is awaited does.
pub open spec fn deletion_done(
    old_db: DatabaseView,
    new_db: DatabaseView,
    old_s: Map<i64, State>,
    new_s: Map<i64, State>,
    id: i64,
    text: Seq<char>,
    r: Reply,
) -> bool {
    if text != delete_token() {
        r == Reply::DeletionCancelled && new_db == old_db && new_s == old_s.insert(id, State::Start)
    } else if !old_db.users.contains_key(id) {
        r == Reply::UserNotFound && new_db == old_db && new_s == old_s
    } else {
        let rec = new_db.deleted.last();
        &&& r == Reply::AccountDeleted
        &&& new_s == old_s.insert(id, State::Start)
        &&& new_db.users == old_db.users.remove(id)
        &&& new_db.usage == old_db.usage
        &&& new_db.deleted == old_db.deleted.push(rec)
        &&& rec.telegram_id == id
        &&& rec.total_usage_seconds == usage_total(old_db.usage, id)
    }
}

/// The usage report of `id`.
pub open spec fn usage_reply(db: DatabaseView, id: i64) -> Reply {
    if !db.users.contains_key(id) {
        Reply::UserNotFound
    } else if db.users[id].openai_api_key is Some {
        Reply::UsageUnlimited
    } else {
        let left = FREE_USAGE_LIMIT_SECONDS - usage_total(db.usage, id);
        if left <= 0 {
            Reply::UsageExhausted
        } else {
            Reply::UsageRemaining { minutes: (left / 60) as u64, seconds: (left % 60) as u64 }
        }
    }
}

/// What toggling the rewrite preference does.
pub open spec fn toggle_done(old_db: DatabaseView, new_db: DatabaseView, id: i64, r: Reply) -> bool {
    if !old_db.users.contains_key(id) {
        r == Reply::UserNotFound && new_db == old_db
    } else {
        let now = !old_db.users[id].rewrite_enabled;
        &&& r == Reply::RewriteToggled(now)
        &&& replaced(old_db, new_db, id, UserView { rewrite_enabled: now, ..old_db.users[id]@ })
    }
}

/// Onboarding: creates the user and asks for the drafting-service key; an
/// existing user is told so and nothing changes.
pub fn start(dialog: &mut Sessions, db: &mut Database, user_payload: UserPayload) -> (r: Reply)
    requires
        old(db).wf(),
    ensures
        final(db).wf(),
        start_done(
            old(db)@,
            final(db)@,
            old(dialog)@,
            final(dialog)@,
            user_payload.telegram_id,
            user_payload.name@,
            r,
        ),
{
    let id = user_payload.telegram_id;
    match db.create_user(user_payload) {
        Ok(_) => {
            dialog.update(id, State::WaitingForTypefullyApiKey);
            Reply::Welcome
        },
        Err(_) => Reply::AlreadySetUp,
    }
}

/// The key sent while the drafting-service key is awaited, with the verdict
/// of the drafting service on it.
pub fn receive_typefully_api_key(
    dialog: &mut Sessions,
    db: &mut Database,
    chat_id: i64,
    api_key: &str,
    key_accepted: bool,
) -> (r: Reply)
    requires
        old(db).wf(),
    ensures
        final(db).wf(),
        drafting_key_done(
            old(db)@,
            final(db)@,
            old(dialog)@,
            final(dialog)@,
            chat_id,
            api_key@,
            key_accepted,
            r,
        ),
{
    if !db.get_user(chat_id).is_some() {
        return Reply::UserNotFound;
    }
    if !key_accepted {
        return Reply::DraftingKeyInvalid;
    }
    match db.set_typefully_api_key(chat_id, api_key) {
        Ok(()) => {
            dialog.update(chat_id, State::Start);
            Reply::DraftingKeyAccepted
        },
        Err(e) => Reply::StoreFailure(e),
    }
}

/// The list of commands; nothing changes.
pub fn help() -> (r: Reply)
    ensures
        r == Reply::Help,
{
    Reply::Help
}

/// Asks for the deletion confirmation.
pub fn delete_account(dialog: &mut Sessions, chat_id: i64) -> (r: Reply)
    ensures
        r == Reply::ConfirmDeletion,
        final(dialog)@ == old(dialog)@.insert(chat_id, State::WaitingForDeleteConfirmation),
{
    dialog.update(chat_id, State::WaitingForDeleteConfirmation);
    Reply::ConfirmDeletion
}

/// The text sent while a deletion confirmation is awaited: exactly `DELETE`
/// archives the usage total and removes the user; anything else cancels.
pub fn handle_delete_confirmation(
    dialog: &mut Sessions,
    db: &mut Database,
    chat_id: i64,
    confirmation: &str,
) -> (r: Reply)
    requires
        old(db).wf(),
    ensures
        final(db).wf(),
        deletion_done(old(db)@, final(db)@, old(dialog)@, final(dialog)@, chat_id, confirmation@, r),
{
    if is_delete_confirmation(confirmation) {
        let user = match user_extractor(db, chat_id) {
            Some(u) => u,
            None => {
                return Reply::UserNotFound;
            },
        };
        let total_usage = db.get_total_usage_seconds(user.telegram_id);
        db.mark_user_deleted(user.telegram_id, total_usage);
        dialog.update(chat_id, State::Start);
        Reply::AccountDeleted
    } else {
        dialog.update(chat_id, State::Start);
        Reply::DeletionCancelled
    }
}

/// A message that no handler takes; nothing changes.
pub fn invalid_state() -> (r: Reply)
    ensures
        r == Reply::UnableToHandle,
{
    Reply::UnableToHandle
}

/// The record of `chat_id`, if it was onboarded.
fn user_extractor(db: &Database, chat_id: i64) -> (r: Option<User>)
    ensures
        match r {
            Some(u) => db@.users.contains_key(chat_id) && u == db@.users[chat_id],
            None => !db@.users.contains_key(chat_id),
        },
{
    db.get_user(chat_id)
}

/// Asks for a personal transcription-provider key.
pub fn set_api_key(dialog: &mut Sessions, chat_id: i64) -> (r: Reply)
    ensures
        r == Reply::AskTranscriptionKey,
        final(dialog)@ == old(dialog)@.insert(chat_id, State::WaitingForOpenAiApiKey),
{
    dialog.update(chat_id, State::WaitingForOpenAiApiKey);
    Reply::AskTranscriptionKey
}

/// The key sent while a transcription key is awaited: stored as it is.
pub fn receive_openai_api_key(
    dialog: &mut Sessions,
    db: &mut Database,
    chat_id: i64,
    api_key: &str,
) -> (r: Reply)
    requires
        old(db).wf(),
    ensures
        final(db).wf(),
        transcription_key_done(old(db)@, final(db)@, old(dialog)@, final(dialog)@, chat_id, api_key@, r),
{
    let user = match user_extractor(db, chat_id) {
        Some(u) => u,
        None => {
            return Reply::UserNotFound;
        },
    };
    match user.update_openai_api_key(db, api_key) {
        Ok(()) => {
            dialog.update(chat_id, State::Start);
            Reply::TranscriptionKeySaved
        },
        Err(e) => Reply::StoreFailure(e),
    }
}

/// The free transcription time left to `chat_id`.
pub fn usage(db: &Database, chat_id: i64) -> (r: Reply)
    requires
        db.wf(),
    ensures
        r == usage_reply(db@, chat_id),
{
    let user = match user_extractor(db, chat_id) {
        Some(u) => u,
        None => {
            return Reply::UserNotFound;
        },
    };
    if user.openai_api_key.is_some() {
        return Reply::UsageUnlimited;
    }
    let total_usage = db.get_total_usage_seconds(user.telegram_id);
    if total_usage >= FREE_USAGE_LIMIT_SECONDS as u128 {
        Reply::UsageExhausted
    } else {
        let remaining_seconds = (FREE_USAGE_LIMIT_SECONDS as u128 - total_usage) as u64;
        Reply::UsageRemaining { minutes: remaining_seconds / 60, seconds: remaining_seconds % 60 }
    }
}

/// Asks for a new drafting-service key.
pub fn set_typefully_key(dialog: &mut Sessions, chat_id: i64) -> (r: Reply)
    ensures
        r == Reply::AskNewDraftingKey,
        final(dialog)@ == old(dialog)@.insert(chat_id, State::WaitingForTypefullyApiKey),
{
    dialog.update(chat_id, State::WaitingForTypefullyApiKey);
    Reply::AskNewDraftingKey
}

/// Flips the rewrite preference of `chat_id`.
pub fn toggle_rewrite(db: &mut Database, chat_id: i64) -> (r: Reply)
    requires
        old(db).wf(),
    ensures
        final(db).wf(),
        toggle_done(old(db)@, final(db)@, chat_id, r),
{
    let user = match user_extractor(db, chat_id) {
        Some(u) => u,
        None => {
            return Reply::UserNotFound;
        },
    };
    match user.toggle_rewrite(db) {
        Ok(new_value) => Reply::RewriteToggled(new_value),
        Err(e) => Reply::StoreFailure(e),
    }
}

/// Routes one message of `chat_id` to its handler and runs it; `None` where
/// the message is a voice note for the pipeline. `text` is the message's text
/// (empty when it has none), `display_name` the sender's name, and
/// `key_accepted` the drafting service's verdict on `text` as a key.
pub fn handle_message(
    dialog: &mut Sessions,
    db: &mut Database,
    chat_id: i64,
    kind: MessageKind,
    text: &str,
    display_name: &str,
    key_accepted: bool,
) -> (r: Option<Reply>)
    requires
        old(db).wf(),
    ensures
        final(db).wf(),
        state_of(final(dialog)@, chat_id) == transition(
            state_of(old(dialog)@, chat_id),
            kind,
            old(db)@.users.contains_key(chat_id),
            key_accepted,
            text@ == delete_token(),
        ),
        match route(state_of(old(dialog)@, chat_id), kind) {
            Handler::Help => r == Some(Reply::Help) && final(db)@ == old(db)@ && final(dialog)@
                == old(dialog)@,
            Handler::InvalidState => r == Some(Reply::UnableToHandle) && final(db)@ == old(db)@
                && final(dialog)@ == old(dialog)@,
            Handler::HandleVoiceNote => r is None && final(db)@ == old(db)@ && final(dialog)@
                == old(dialog)@,
            Handler::Usage => r == Some(usage_reply(old(db)@, chat_id)) && final(db)@ == old(db)@
                && final(dialog)@ == old(dialog)@,
            Handler::SetApiKey => r == Some(Reply::AskTranscriptionKey) && final(db)@ == old(db)@
                && final(dialog)@ == old(dialog)@.insert(chat_id, State::WaitingForOpenAiApiKey),
            Handler::SetTypefullyKey => r == Some(Reply::AskNewDraftingKey) && final(db)@
                == old(db)@ && final(dialog)@ == old(dialog)@.insert(
                chat_id,
                State::WaitingForTypefullyApiKey,
            ),
            Handler::DeleteAccount => r == Some(Reply::ConfirmDeletion) && final(db)@ == old(db)@
                && final(dialog)@ == old(dialog)@.insert(
                chat_id,
                State::WaitingForDeleteConfirmation,
            ),
            Handler::ToggleRewrite => (r matches Some(rep) && toggle_done(
                old(db)@,
                final(db)@,
                chat_id,
                rep,
            )) && final(dialog)@ == old(dialog)@,
            Handler::Start => r matches Some(rep) && start_done(
                old(db)@,
                final(db)@,
                old(dialog)@,
                final(dialog)@,
                chat_id,
                display_name@,
                rep,
            ),
            Handler::ReceiveTypefullyApiKey => r matches Some(rep) && drafting_key_done(
                old(db)@,
                final(db)@,
                old(dialog)@,
                final(dialog)@,
                chat_id,
                text@,
                key_accepted,
                rep,
            ),
            Handler::ReceiveOpenAiApiKey => r matches Some(rep) && transcription_key_done(
                old(db)@,
                final(db)@,
                old(dialog)@,
                final(dialog)@,
                chat_id,
                text@,
                rep,
            ),
            Handler::HandleDeleteConfirmation => r matches Some(rep) && deletion_done(
                old(db)@,
                final(db)@,
                old(dialog)@,
                final(dialog)@,
                chat_id,
                text@,
                rep,
            ),
        },
{
    let state = dialog.get(chat_id);
    match bot_schema(state, kind) {
        Handler::Help => Some(help()),
        Handler::InvalidState => Some(invalid_state()),
        Handler::HandleVoiceNote => None,
        Handler::Start => Some(
            start(
                dialog,
                db,
                UserPayload { telegram_id: chat_id, name: display_name.to_owned() },
            ),
        ),
        Handler::SetApiKey => Some(set_api_key(dialog, chat_id)),
        Handler::SetTypefullyKey => Some(set_typefully_key(dialog, chat_id)),
        Handler::DeleteAccount => Some(delete_account(dialog, chat_id)),
        Handler::Usage => Some(usage(db, chat_id)),
        Handler::ToggleRewrite => Some(toggle_rewrite(db, chat_id)),
        Handler::ReceiveTypefullyApiKey => Some(
            receive_typefully_api_key(dialog, db, chat_id, text, key_accepted),
        ),
        Handler::ReceiveOpenAiApiKey => Some(receive_openai_api_key(dialog, db, chat_id, text)),
        Handler::HandleDeleteConfirmation => Some(
            handle_delete_confirmation(dialog, db, chat_id, text),
        ),
    }
}

/// Opens the pipeline for a voice note of `duration_seconds`: picks the
/// transcription key and enforces the free quota before anything is called.
pub fn handle_voice_note(db: &Database, chat_id: i64, duration_seconds: u32) -> (r: VoiceStart)
    requires
        db.wf(),
    ensures
        !db@.users.contains_key(chat_id) <==> r is NotOnboarded,
        (db@.users.contains_key(chat_id) && db@.users[chat_id].openai_api_key is None && usage_total(
            db@.usage,
            chat_id,
        ) >= FREE_USAGE_LIMIT_SECONDS) <==> r is QuotaExceeded,
        r matches VoiceStart::Proceed(job) ==> {
            let u = db@.users[chat_id];
            &&& job.wf()
            &&& job.stage is Staging
            &&& job.telegram_id == chat_id
            &&& job.duration_seconds == duration_seconds
            &&& job.quota_funded == u.openai_api_key is None
            &&& job.key == match u.openai_api_key {
                Some(k) => TranscriptionKey::Personal(k),
                None => TranscriptionKey::Operator,
            }
            &&& job.username == u.username
            &&& job.rewrite_enabled == u.rewrite_enabled
            &&& job.typefully_api_key == u.typefully_api_key
        },
{
    let user = match db.get_user(chat_id) {
        Some(u) => u,
        None => {
            return VoiceStart::NotOnboarded;
        },
    };
    let key = match user.openai_api_key {
        Some(k) => TranscriptionKey::Personal(k),
        None => {
            if !db.has_free_usage(user.telegram_id) {
                return VoiceStart::QuotaExceeded;
            }
            TranscriptionKey::Operator
        },
    };
    let quota_funded = match key {
        TranscriptionKey::Operator => true,
        TranscriptionKey::Personal(_) => false,
    };
    VoiceStart::Proceed(
        VoiceJob {
            telegram_id: chat_id,
            duration_seconds,
            key,
            quota_funded,
            username: user.username,
            rewrite_enabled: user.rewrite_enabled,
            typefully_api_key: user.typefully_api_key,
            stage: VoiceStage::Staging,
            file_staged: false,
        },
    )
}

} // verus!
