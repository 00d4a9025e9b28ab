use voice_drafts::actions::{
    delete_account, handle_delete_confirmation, handle_message, handle_voice_note, help, invalid_state,
    is_delete_confirmation, receive_openai_api_key, receive_typefully_api_key, set_api_key,
    set_typefully_key, start, toggle_rewrite, usage, Reply,
};
use voice_drafts::commands::{bot_schema, BotCommand, Handler, MessageKind, Sessions, State};
use voice_drafts::store::{Database, StoreError, UserPayload};
use voice_drafts::voice::VoiceStart;

fn payload(id: i64, name: &str) -> UserPayload {
    UserPayload { telegram_id: id, name: name.to_string() }
}

fn onboarded(id: i64) -> (Sessions, Database) {
    let mut dialog = Sessions::new();
    let mut db = Database::new();
    assert_eq!(start(&mut dialog, &mut db, payload(id, "Ada")), Reply::Welcome);
    assert_eq!(
        receive_typefully_api_key(&mut dialog, &mut db, id, "good-key", true),
        Reply::DraftingKeyAccepted
    );
    (dialog, db)
}

#[test]
fn onboarding_with_rejected_key() {
    let mut dialog = Sessions::new();
    let mut db = Database::new();
    assert_eq!(dialog.get(42), State::Start);
    assert_eq!(start(&mut dialog, &mut db, payload(42, "Ada")), Reply::Welcome);
    assert_eq!(dialog.get(42), State::WaitingForTypefullyApiKey);
    assert_eq!(
        receive_typefully_api_key(&mut dialog, &mut db, 42, "bad-key", false),
        Reply::DraftingKeyInvalid
    );
    assert_eq!(dialog.get(42), State::WaitingForTypefullyApiKey);
    // creation is eager: the user exists, without a drafting key
    let user = db.get_user(42).unwrap();
    assert_eq!(user.username, "Ada");
    assert!(user.typefully_api_key.is_none());
    assert_eq!(
        receive_typefully_api_key(&mut dialog, &mut db, 42, "good-key", true),
        Reply::DraftingKeyAccepted
    );
    assert_eq!(dialog.get(42), State::Start);
    assert_eq!(db.get_user(42).unwrap().typefully_api_key.as_deref(), Some("good-key"));
}

#[test]
fn start_twice_says_already_set_up() {
    let (mut dialog, mut db) = onboarded(5);
    assert_eq!(start(&mut dialog, &mut db, payload(5, "Other")), Reply::AlreadySetUp);
    assert_eq!(dialog.get(5), State::Start);
    assert_eq!(db.get_user(5).unwrap().username, "Ada");
}

#[test]
fn drafting_key_for_unknown_user() {
    let mut dialog = Sessions::new();
    let mut db = Database::new();
    dialog.update(9, State::WaitingForTypefullyApiKey);
    assert_eq!(
        receive_typefully_api_key(&mut dialog, &mut db, 9, "k", true),
        Reply::UserNotFound
    );
    assert_eq!(dialog.get(9), State::WaitingForTypefullyApiKey);
    assert!(db.get_user(9).is_none());
}

#[test]
fn lowercase_delete_cancels() {
    let (mut dialog, mut db) = onboarded(7);
    assert_eq!(delete_account(&mut dialog, 7), Reply::ConfirmDeletion);
    assert_eq!(dialog.get(7), State::WaitingForDeleteConfirmation);
    assert_eq!(
        handle_delete_confirmation(&mut dialog, &mut db, 7, "delete"),
        Reply::DeletionCancelled
    );
    assert_eq!(dialog.get(7), State::Start);
    assert!(db.get_user(7).is_some());
    assert!(db.deleted_users().is_empty());
}

#[test]
fn confirmed_delete_removes_user() {
    let (mut dialog, mut db) = onboarded(7);
    db.add_usage(7, 45);
    delete_account(&mut dialog, 7);
    assert_eq!(
        handle_delete_confirmation(&mut dialog, &mut db, 7, "DELETE"),
        Reply::AccountDeleted
    );
    assert_eq!(dialog.get(7), State::Start);
    assert!(db.get_user(7).is_none());
    let archived = db.deleted_users();
    assert_eq!(archived.len(), 1);
    assert_eq!(archived[0].telegram_id, 7);
    assert_eq!(archived[0].total_usage_seconds, 45);
}

#[test]
fn confirmed_delete_without_user() {
    let mut dialog = Sessions::new();
    let mut db = Database::new();
    delete_account(&mut dialog, 3);
    assert_eq!(handle_delete_confirmation(&mut dialog, &mut db, 3, "DELETE"), Reply::UserNotFound);
    assert_eq!(dialog.get(3), State::WaitingForDeleteConfirmation);
    assert!(db.deleted_users().is_empty());
}

#[test]
fn delete_token_is_exact() {
    assert!(is_delete_confirmation("DELETE"));
    assert!(!is_delete_confirmation("delete"));
    assert!(!is_delete_confirmation("DELETE "));
    assert!(!is_delete_confirmation(""));
}

#[test]
fn reonboarding_keeps_consumed_quota() {
    let (mut dialog, mut db) = onboarded(11);
    db.add_usage(11, 200);
    delete_account(&mut dialog, 11);
    handle_delete_confirmation(&mut dialog, &mut db, 11, "DELETE");
    assert_eq!(start(&mut dialog, &mut db, payload(11, "Ada")), Reply::Welcome);
    assert_eq!(db.get_total_usage_seconds(11), 200);
    assert_eq!(usage(&db, 11), Reply::UsageRemaining { minutes: 1, seconds: 40 });
    db.add_usage(11, 100);
    delete_account(&mut dialog, 11);
    handle_delete_confirmation(&mut dialog, &mut db, 11, "DELETE");
    start(&mut dialog, &mut db, payload(11, "Ada"));
    assert!(matches!(handle_voice_note(&db, 11, 5), VoiceStart::QuotaExceeded));
}

#[test]
fn transcription_key_is_stored_unchecked() {
    let (mut dialog, mut db) = onboarded(8);
    assert_eq!(set_api_key(&mut dialog, 8), Reply::AskTranscriptionKey);
    assert_eq!(dialog.get(8), State::WaitingForOpenAiApiKey);
    assert_eq!(receive_openai_api_key(&mut dialog, &mut db, 8, "sk-own"), Reply::TranscriptionKeySaved);
    assert_eq!(dialog.get(8), State::Start);
    assert_eq!(db.get_user(8).unwrap().openai_api_key.as_deref(), Some("sk-own"));
    assert_eq!(usage(&db, 8), Reply::UsageUnlimited);
}

#[test]
fn transcription_key_for_unknown_user() {
    let mut dialog = Sessions::new();
    let mut db = Database::new();
    set_api_key(&mut dialog, 4);
    assert_eq!(receive_openai_api_key(&mut dialog, &mut db, 4, "sk"), Reply::UserNotFound);
    assert_eq!(dialog.get(4), State::WaitingForOpenAiApiKey);
}

#[test]
fn rotating_drafting_key() {
    let (mut dialog, mut db) = onboarded(6);
    assert_eq!(set_typefully_key(&mut dialog, 6), Reply::AskNewDraftingKey);
    assert_eq!(dialog.get(6), State::WaitingForTypefullyApiKey);
    receive_typefully_api_key(&mut dialog, &mut db, 6, "second", true);
    assert_eq!(db.get_user(6).unwrap().typefully_api_key.as_deref(), Some("second"));
}

#[test]
fn usage_reports() {
    let (_dialog, mut db) = onboarded(2);
    assert_eq!(usage(&db, 2), Reply::UsageRemaining { minutes: 5, seconds: 0 });
    db.add_usage(2, 290);
    assert_eq!(usage(&db, 2), Reply::UsageRemaining { minutes: 0, seconds: 10 });
    db.add_usage(2, 10);
    assert_eq!(usage(&db, 2), Reply::UsageExhausted);
    db.add_usage(2, 30);
    assert_eq!(usage(&db, 2), Reply::UsageExhausted);
    assert_eq!(usage(&db, 99), Reply::UserNotFound);
}

#[test]
fn toggling_rewrite() {
    let (_dialog, mut db) = onboarded(1);
    assert!(!db.get_user(1).unwrap().rewrite_enabled);
    assert_eq!(toggle_rewrite(&mut db, 1), Reply::RewriteToggled(true));
    assert!(db.get_user(1).unwrap().rewrite_enabled);
    assert_eq!(toggle_rewrite(&mut db, 1), Reply::RewriteToggled(false));
    assert_eq!(toggle_rewrite(&mut db, 77), Reply::UserNotFound);
}

#[test]
fn store_errors() {
    let mut db = Database::new();
    assert!(db.create_user(payload(1, "a")).is_ok());
    assert_eq!(db.create_user(payload(1, "b")).unwrap_err(), StoreError::AlreadyExists);
    assert_eq!(db.set_openai_api_key(2, "k"), Err(StoreError::UserNotFound));
    assert_eq!(db.set_typefully_api_key(2, "k"), Err(StoreError::UserNotFound));
    assert_eq!(db.toggle_rewrite(2), Err(StoreError::UserNotFound));
    assert_eq!(db.get_total_usage_seconds(1), 0);
    assert!(db.has_free_usage(1));
}

#[test]
fn usage_is_per_identity() {
    let mut db = Database::new();
    db.add_usage(1, 100);
    db.add_usage(2, 250);
    db.add_usage(1, 199);
    assert_eq!(db.get_total_usage_seconds(1), 299);
    assert_eq!(db.get_total_usage_seconds(2), 250);
    assert!(db.has_free_usage(1));
    db.add_usage(1, 1);
    assert!(!db.has_free_usage(1));
}

#[test]
fn routing_covers_every_state_and_input() {
    let states = [
        State::Start,
        State::WaitingForTypefullyApiKey,
        State::WaitingForOpenAiApiKey,
        State::WaitingForDeleteConfirmation,
    ];
    for s in states {
        assert_eq!(bot_schema(s, MessageKind::Command(BotCommand::Help)), Handler::Help);
        assert_eq!(bot_schema(s, MessageKind::Command(BotCommand::Start)), Handler::Start);
        assert_eq!(
            bot_schema(s, MessageKind::Command(BotCommand::DeleteAccount)),
            Handler::DeleteAccount
        );
    }
    assert_eq!(bot_schema(State::Start, MessageKind::Voice), Handler::HandleVoiceNote);
    assert_eq!(bot_schema(State::Start, MessageKind::Text), Handler::InvalidState);
    assert_eq!(bot_schema(State::Start, MessageKind::Other), Handler::InvalidState);
    assert_eq!(
        bot_schema(State::WaitingForTypefullyApiKey, MessageKind::Text),
        Handler::ReceiveTypefullyApiKey
    );
    assert_eq!(
        bot_schema(State::WaitingForOpenAiApiKey, MessageKind::Text),
        Handler::ReceiveOpenAiApiKey
    );
    assert_eq!(
        bot_schema(State::WaitingForDeleteConfirmation, MessageKind::Voice),
        Handler::HandleDeleteConfirmation
    );
    assert_eq!(State::default(), State::Start);
    assert_eq!(help(), Reply::Help);
    assert_eq!(invalid_state(), Reply::UnableToHandle);
}

#[test]
fn dispatch_walks_onboarding() {
    let mut dialog = Sessions::new();
    let mut db = Database::new();
    let start_cmd = MessageKind::Command(BotCommand::Start);
    assert_eq!(
        handle_message(&mut dialog, &mut db, 42, start_cmd, "/start", "Ada", false),
        Some(Reply::Welcome)
    );
    assert_eq!(dialog.get(42), State::WaitingForTypefullyApiKey);
    assert_eq!(
        handle_message(&mut dialog, &mut db, 42, MessageKind::Text, "bad-key", "Ada", false),
        Some(Reply::DraftingKeyInvalid)
    );
    assert_eq!(dialog.get(42), State::WaitingForTypefullyApiKey);
    assert!(db.get_user(42).is_some());
    assert_eq!(
        handle_message(&mut dialog, &mut db, 42, MessageKind::Text, "good", "Ada", true),
        Some(Reply::DraftingKeyAccepted)
    );
    assert_eq!(dialog.get(42), State::Start);
    assert_eq!(handle_message(&mut dialog, &mut db, 42, MessageKind::Voice, "", "Ada", false), None);
    assert_eq!(
        handle_message(&mut dialog, &mut db, 42, MessageKind::Other, "", "Ada", false),
        Some(Reply::UnableToHandle)
    );
    assert_eq!(dialog.get(42), State::Start);
    assert_eq!(dialog.get(43), State::Start);
}

#[test]
fn dispatch_commands_win_in_every_state() {
    let (mut dialog, mut db) = onboarded(7);
    let del = MessageKind::Command(BotCommand::DeleteAccount);
    assert_eq!(handle_message(&mut dialog, &mut db, 7, del, "", "Ada", false), Some(Reply::ConfirmDeletion));
    let help_cmd = MessageKind::Command(BotCommand::Help);
    assert_eq!(handle_message(&mut dialog, &mut db, 7, help_cmd, "", "Ada", false), Some(Reply::Help));
    assert_eq!(dialog.get(7), State::WaitingForDeleteConfirmation);
    // a voice note while a confirmation is awaited cancels the deletion
    assert_eq!(
        handle_message(&mut dialog, &mut db, 7, MessageKind::Voice, "", "Ada", false),
        Some(Reply::DeletionCancelled)
    );
    assert_eq!(dialog.get(7), State::Start);
    let usage_cmd = MessageKind::Command(BotCommand::Usage);
    assert_eq!(
        handle_message(&mut dialog, &mut db, 7, usage_cmd, "", "Ada", false),
        Some(Reply::UsageRemaining { minutes: 5, seconds: 0 })
    );
    let key_cmd = MessageKind::Command(BotCommand::SetApiKey);
    handle_message(&mut dialog, &mut db, 7, key_cmd, "", "Ada", false);
    assert_eq!(
        handle_message(&mut dialog, &mut db, 7, MessageKind::Text, "sk", "Ada", false),
        Some(Reply::TranscriptionKeySaved)
    );
    let toggle = MessageKind::Command(BotCommand::ToggleRewrite);
    assert_eq!(
        handle_message(&mut dialog, &mut db, 7, toggle, "", "Ada", false),
        Some(Reply::RewriteToggled(true))
    );
    let rotate = MessageKind::Command(BotCommand::SetTypefullyKey);
    assert_eq!(handle_message(&mut dialog, &mut db, 7, rotate, "", "Ada", false), Some(Reply::AskNewDraftingKey));
    assert_eq!(dialog.get(7), State::WaitingForTypefullyApiKey);
}

#[test]
fn key_updates_keep_the_rest_of_the_record() {
    let (mut dialog, mut db) = onboarded(21);
    let before = db.get_user(21).unwrap();
    toggle_rewrite(&mut db, 21);
    set_api_key(&mut dialog, 21);
    receive_openai_api_key(&mut dialog, &mut db, 21, "sk-1");
    set_typefully_key(&mut dialog, 21);
    receive_typefully_api_key(&mut dialog, &mut db, 21, "draft-2", true);
    let after = db.get_user(21).unwrap();
    assert_eq!(after.username, before.username);
    assert_eq!(after.created_at, before.created_at);
    assert!(after.rewrite_enabled);
    assert_eq!(after.openai_api_key.as_deref(), Some("sk-1"));
    assert_eq!(after.typefully_api_key.as_deref(), Some("draft-2"));
}

#[test]
fn reonboarding_counts_every_later_record() {
    let (mut dialog, mut db) = onboarded(31);
    db.add_usage(31, 120);
    delete_account(&mut dialog, 31);
    handle_delete_confirmation(&mut dialog, &mut db, 31, "DELETE");
    start(&mut dialog, &mut db, payload(31, "Ada"));
    for _ in 0..3 {
        db.add_usage(31, 50);
    }
    assert_eq!(db.deleted_users()[0].total_usage_seconds, 120);
    assert_eq!(db.get_total_usage_seconds(31), 270);
    assert!(db.has_free_usage(31));
    db.add_usage(31, 30);
    assert!(!db.has_free_usage(31));
}
