use hashstar::error::{HashError, IoFault};
use hashstar::service::hash_contents;
use hashstar::ui::{Command, Hashstar, Message};

#[test]
fn fresh_window_shows_the_prompt() {
    let (state, command) = Hashstar::new();
    assert_eq!(state.digest, "Drag a file to calculate it's digest!");
    assert_eq!(state.err, "");
    assert_eq!(command, Command::Idle);
}

#[test]
fn window_title() {
    let (state, _) = Hashstar::new();
    assert_eq!(state.title(), "Hashstar");
}

#[test]
fn dropped_file_asks_for_its_hash() {
    let (mut state, _) = Hashstar::new();
    let before = state.clone();
    let command = state.update(Message::FileDropped(String::from("/tmp/some file")));
    assert_eq!(command, Command::HashFile(String::from("/tmp/some file")));
    assert_eq!(state, before);
}

#[test]
fn finished_hash_is_displayed() {
    let (mut state, _) = Hashstar::new();
    let command = state.update(Message::HashFinished(hash_contents(3, b"abc")));
    assert_eq!(command, Command::Idle);
    assert_eq!(state.digest, "900150983cd24fb0d6963f7d28e17f72");
    assert_eq!(state.err, "");
}

#[test]
fn failed_hash_shows_its_diagnostic() {
    let (mut state, _) = Hashstar::new();
    state.update(Message::HashFinished(hash_contents(3, b"abc")));
    let failure = HashError::from_io(IoFault::NotFound, String::from("gone"));
    let command = state.update(Message::HashFinished(Err(failure)));
    assert_eq!(command, Command::Idle);
    assert_eq!(state.digest, "");
    assert_eq!(state.err, "file not found: gone");
}

#[test]
fn request_after_a_failure_is_served() {
    let (mut state, _) = Hashstar::new();
    state.update(Message::HashFinished(hash_contents(4, b"abc")));
    assert_eq!(
        state.err,
        "file shorter than declared: failed to fill whole buffer"
    );
    let command = state.update(Message::FileDropped(String::from("again")));
    assert_eq!(command, Command::HashFile(String::from("again")));
    state.update(Message::HashFinished(hash_contents(0, &[])));
    assert_eq!(state.digest, "d41d8cd98f00b204e9800998ecf8427e");
    assert_eq!(state.err, "");
}

#[test]
fn last_result_is_the_one_displayed() {
    let (mut state, _) = Hashstar::new();
    state.update(Message::HashFinished(hash_contents(1, b"a")));
    state.update(Message::HashFinished(hash_contents(3, b"abc")));
    assert_eq!(state.digest, "900150983cd24fb0d6963f7d28e17f72");
}

#[test]
fn copy_button_hands_out_the_digest_line() {
    let (mut state, _) = Hashstar::new();
    state.update(Message::HashFinished(hash_contents(1, b"a")));
    let before = state.clone();
    let command = state.update(Message::CopyDigest);
    assert_eq!(
        command,
        Command::CopyToClipboard(String::from("0cc175b9c0f1b6a831c399e269772661"))
    );
    assert_eq!(state, before);
}

#[test]
fn copy_before_any_drop_hands_out_the_prompt() {
    let (mut state, _) = Hashstar::new();
    let command = state.update(Message::CopyDigest);
    assert_eq!(
        command,
        Command::CopyToClipboard(String::from("Drag a file to calculate it's digest!"))
    );
}

#[test]
fn clipboard_failure_lands_on_the_error_line() {
    let (mut state, _) = Hashstar::new();
    state.update(Message::HashFinished(hash_contents(1, b"a")));
    let command = state.update(Message::CopyFailed(String::from("no display")));
    assert_eq!(command, Command::Idle);
    assert_eq!(state.err, "no display");
    assert_eq!(state.digest, "0cc175b9c0f1b6a831c399e269772661");
}

#[test]
fn other_events_change_nothing() {
    let (mut state, _) = Hashstar::new();
    let before = state.clone();
    assert_eq!(state.update(Message::Ignored), Command::Idle);
    assert_eq!(state, before);
}
