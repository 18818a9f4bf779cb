use scut::interaction::{retry_step, RetryAction, RetryEvent};
use scut::interaction::{
    confirm_answer, confirm_prompt, dropbox_step, player_sign_answer, trim_text, turn_answer, DropboxAction,
    DropboxEvent, DropboxState, Note, Question, TurnAnswer,
};

#[test]
fn yes_and_no_answers() {
    for yes in ["Y", "y", "yes", "Yes", "YES"] {
        assert_eq!(confirm_answer(yes, None), Some(true));
    }
    for no in ["N", "n", "no", "No", "NO"] {
        assert_eq!(confirm_answer(no, Some(true)), Some(false));
    }
    assert_eq!(confirm_answer("", Some(true)), Some(true));
    assert_eq!(confirm_answer("", Some(false)), Some(false));
    assert_eq!(confirm_answer("", None), None);
    assert_eq!(confirm_answer("yEs", Some(true)), None);
    assert_eq!(confirm_prompt("Is that OK?", Some(true)), "Is that OK?: [Y] / N");
    assert_eq!(confirm_prompt("Is that OK?", Some(false)), "Is that OK?: Y / [N]");
    assert_eq!(confirm_prompt("Is that OK?", None), "Is that OK?: Y / N");
}

#[test]
fn answers_are_trimmed() {
    assert_eq!(trim_text("  DM \t\n"), "DM");
    assert_eq!(trim_text("\u{3000}a b\u{a0}"), "a b");
    assert_eq!(trim_text(" \n "), "");
    assert_eq!(player_sign_answer("  GM "), Some(String::from("GM")));
    assert_eq!(player_sign_answer("   "), None);
    assert_eq!(turn_answer(" 12 "), TurnAnswer::Turn(12));
    assert_eq!(turn_answer(""), TurnAnswer::Empty);
    assert_eq!(turn_answer("twelve"), TurnAnswer::Invalid);
    assert_eq!(turn_answer("-1"), TurnAnswer::Invalid);
}

#[test]
fn dropbox_conversation() {
    let (state, action) = dropbox_step(DropboxState::Start, DropboxEvent::Begin);
    assert_eq!(
        action,
        DropboxAction::Confirm(
            vec![Note::DropboxNotFound, Note::ClientMayBeMissing, Note::CanEnterFolder],
            Question::EnterFolder,
            Some(true)
        )
    );
    let (state, action) = dropbox_step(state, DropboxEvent::Answer(true));
    assert_eq!(action, DropboxAction::Query(vec![], Question::FolderPath));
    let (state, action) = dropbox_step(state, DropboxEvent::Text(String::new()));
    assert_eq!(action, DropboxAction::Query(vec![Note::InvalidPath], Question::FolderPath));
    let (state, action) = dropbox_step(state, DropboxEvent::Text(String::from("/home/me/Dropbox")));
    assert_eq!(action, DropboxAction::CheckListing(String::from("/home/me/Dropbox")));
    let (state, action) = dropbox_step(state, DropboxEvent::Listed(false));
    assert_eq!(action, DropboxAction::Confirm(vec![Note::CannotListFolder], Question::UseUnlistedFolder, None));
    let (state, action) = dropbox_step(state, DropboxEvent::Answer(true));
    assert_eq!(action, DropboxAction::Finish(Some(String::from("/home/me/Dropbox"))));
    assert_eq!(state, DropboxState::Done);

    let (_, action) = dropbox_step(DropboxState::Offered, DropboxEvent::Answer(false));
    assert_eq!(action, DropboxAction::Finish(None));
    let (_, action) = dropbox_step(DropboxState::Checking(String::from("/x")), DropboxEvent::Listed(true));
    assert_eq!(action, DropboxAction::Finish(Some(String::from("/x"))));
    let (state, _) = dropbox_step(DropboxState::Doubting(String::from("/x")), DropboxEvent::Answer(false));
    assert_eq!(state, DropboxState::Asked);
}

#[test]
fn answers_are_retried_until_read_or_given_up() {
    assert_eq!(retry_step(RetryEvent::Answered { read: true }), RetryAction::Accept);
    assert_eq!(retry_step(RetryEvent::Answered { read: false }), RetryAction::OfferRetry);
    assert_eq!(retry_step(RetryEvent::TryAgain(true)), RetryAction::AskAgain);
    assert_eq!(retry_step(RetryEvent::TryAgain(false)), RetryAction::GiveUp);
}
