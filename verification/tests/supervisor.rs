use captioninator::channel::{forward_event, LineChannel};
use captioninator::config::{auth_from_config, language_code, Config, LanguageCode};
use captioninator::supervisor::{ControlMessage, ControlOutcome, RunState, Supervisor};
use captioninator::transcript::RecognitionEvent;

fn options(names: &[&str]) -> Vec<String> {
    names.iter().map(|n| n.to_string()).collect()
}

#[test]
fn fresh_supervisor_is_stopped_with_default_setup() {
    let sup = Supervisor::new();
    assert_eq!(sup.run_state, RunState::Stopped);
    assert_eq!(sup.setup.language, "en-GB".to_string());
    assert_eq!(sup.setup.wordlist, None);
}

#[test]
fn run_state_follows_last_set_state_processed() {
    let mut sup = Supervisor::new();
    let opts = options(&[]);

    let o = sup.on_control(ControlMessage::SetState(RunState::Running), &opts);
    assert_eq!(sup.run_state, RunState::Running);
    assert_eq!(o, ControlOutcome::Transition { disconnect: false });

    // Wordlist traffic between state commands moves nothing.
    sup.on_control(ControlMessage::SetWordlist(None), &opts);
    assert_eq!(sup.run_state, RunState::Running);

    let o = sup.on_control(ControlMessage::SetState(RunState::Test), &opts);
    assert_eq!(sup.run_state, RunState::Test);
    assert_eq!(o, ControlOutcome::Transition { disconnect: true });

    let o = sup.on_control(ControlMessage::SetState(RunState::Stopped), &opts);
    assert_eq!(sup.run_state, RunState::Stopped);
    assert_eq!(o, ControlOutcome::Transition { disconnect: false });
}

#[test]
fn fatal_error_forces_stopped_regardless_of_last_request() {
    let mut sup = Supervisor::new();
    let opts = options(&[]);
    sup.on_control(ControlMessage::SetState(RunState::Running), &opts);
    assert_eq!(sup.run_state, RunState::Running);
    sup.on_fatal();
    assert_eq!(sup.run_state, RunState::Stopped);
    assert_eq!(sup.setup.language, "en-GB".to_string());
}

#[test]
fn set_state_stopped_while_stopped_is_a_no_op() {
    let mut sup = Supervisor::new();
    let opts = options(&[]);
    let o = sup.on_control(ControlMessage::SetState(RunState::Stopped), &opts);
    assert_eq!(o, ControlOutcome::Handled);
    assert_eq!(sup.run_state, RunState::Stopped);
    assert_eq!(sup.setup.wordlist, None);
}

#[test]
fn invalid_wordlist_choice_keeps_prior_selection() {
    let mut sup = Supervisor::new();
    let opts = options(&["a.txt", "b.txt"]);
    let o = sup.on_control(
        ControlMessage::SetWordlist(Some("c.txt".to_string())),
        &opts,
    );
    assert_eq!(o, ControlOutcome::WordlistRejected);
    assert_eq!(sup.setup.wordlist, None);
}

#[test]
fn offered_wordlist_choice_is_accepted_and_can_be_cleared() {
    let mut sup = Supervisor::new();
    let opts = options(&["a.txt", "b.txt"]);
    let o = sup.on_control(
        ControlMessage::SetWordlist(Some("b.txt".to_string())),
        &opts,
    );
    assert_eq!(o, ControlOutcome::Handled);
    assert_eq!(sup.setup.wordlist, Some("b.txt".to_string()));

    let o = sup.on_control(
        ControlMessage::SetWordlist(Some("nope.txt".to_string())),
        &opts,
    );
    assert_eq!(o, ControlOutcome::WordlistRejected);
    assert_eq!(sup.setup.wordlist, Some("b.txt".to_string()));

    let o = sup.on_control(ControlMessage::SetWordlist(None), &opts);
    assert_eq!(o, ControlOutcome::Handled);
    assert_eq!(sup.setup.wordlist, None);
}

#[test]
fn get_wordlist_replies_with_snapshot() {
    let mut sup = Supervisor::new();
    let opts = options(&["a.txt", "b.txt"]);
    sup.on_control(
        ControlMessage::SetWordlist(Some("a.txt".to_string())),
        &opts,
    );
    let o = sup.on_control(ControlMessage::GetWordlist, &opts);
    match o {
        ControlOutcome::Reply(w) => {
            assert_eq!(w.options, vec!["a.txt".to_string(), "b.txt".to_string()]);
            assert_eq!(w.current, Some("a.txt".to_string()));
        }
        other => panic!("expected a wordlist reply, got {:?}", other),
    }
    assert_eq!(sup.run_state, RunState::Stopped);
}

#[test]
fn selected_wordlist_needs_directory_and_selection() {
    let mut sup = Supervisor::new();
    let config = Config {
        region: None,
        key: None,
        wordlist_dir: Some("/etc/words".to_string()),
    };
    assert_eq!(sup.selected_wordlist(&config), None);

    let opts = options(&["a.txt"]);
    sup.on_control(
        ControlMessage::SetWordlist(Some("a.txt".to_string())),
        &opts,
    );
    assert_eq!(
        sup.selected_wordlist(&config),
        Some(("/etc/words".to_string(), "a.txt".to_string()))
    );

    let bare = Config {
        region: None,
        key: None,
        wordlist_dir: None,
    };
    assert_eq!(sup.selected_wordlist(&bare), None);
}

#[test]
fn recognition_settings_resolve_language_and_phrases() {
    let sup = Supervisor::new();
    let settings = sup.recognition_settings(Some("alpha\n\nbeta\r\ngamma\n"));
    assert_eq!(settings.language, LanguageCode::EnGb);
    assert_eq!(
        settings.phrases,
        Some(vec![
            "alpha".to_string(),
            "beta".to_string(),
            "gamma".to_string()
        ])
    );

    let settings = sup.recognition_settings(None);
    assert_eq!(settings.phrases, None);
}

#[test]
fn language_codes_resolve_with_fallback() {
    assert_eq!(language_code(&"en-GB".to_string()), LanguageCode::EnGb);
    assert_eq!(language_code(&"en-IE".to_string()), LanguageCode::EnIe);
    assert_eq!(language_code(&"en-US".to_string()), LanguageCode::EnUs);
    assert_eq!(language_code(&"ja-JP".to_string()), LanguageCode::JaJp);
    assert_eq!(language_code(&"de-DE".to_string()), LanguageCode::EnGb);
}

#[test]
fn auth_requires_region_and_key() {
    let config = Config {
        region: Some("westeurope".to_string()),
        key: Some("SECRET-REDACTED".to_string()),
        wordlist_dir: None,
    };
    let auth = auth_from_config(&config).expect("credentials are present");
    assert_eq!(auth.region, "westeurope".to_string());
    assert_eq!(auth.key, "SECRET-REDACTED".to_string());

    let missing = Config {
        region: None,
        key: Some("SECRET-REDACTED".to_string()),
        wordlist_dir: None,
    };
    assert!(auth_from_config(&missing).is_none());
}

#[test]
fn events_do_not_move_the_run_state() {
    let mut sup = Supervisor::new();
    let opts = options(&[]);
    sup.on_control(ControlMessage::SetState(RunState::Running), &opts);
    let mut channel = LineChannel::new(10);
    forward_event(
        RecognitionEvent::Final("hello".to_string()),
        &mut channel,
    );
    assert_eq!(sup.run_state, RunState::Running);
}
