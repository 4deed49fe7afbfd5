use garden::session::{Action, Event, Next, Stage, WriteSession};
use garden::GardenVarietyError;

const SCRATCH: &str = "/garden/abcde.md";

fn go_on(next: Next) -> (WriteSession, Action) {
    match next {
        Next::Continue(s, a) => (s, a),
        Next::Finished(_) => panic!("the session ended early"),
    }
}

fn filed(next: Next) -> String {
    match next {
        Next::Finished(Ok(name)) => name,
        _ => panic!("the document was not filed"),
    }
}

fn failed(next: Next) -> GardenVarietyError {
    match next {
        Next::Finished(Err(e)) => e,
        _ => panic!("the session did not fail"),
    }
}

/// Drives a session up to the question on the title, with the editor having
/// left `content` in the scratch file.
fn up_to_question(title: Option<&str>, content: &str) -> (WriteSession, Action) {
    let (s, a) = WriteSession::new(title.map(|t| t.to_string()));
    match a {
        Action::CreateScratch { template } => assert_eq!(template, "# "),
        _ => panic!("expected the scratch file to be created"),
    }
    let (s, a) = go_on(s.step(Event::ScratchCreated(SCRATCH.to_string())));
    assert!(matches!(a, Action::Edit { ref scratch } if scratch == SCRATCH));
    let (s, a) = go_on(s.step(Event::Edited));
    assert!(matches!(a, Action::ReadBack { ref scratch } if scratch == SCRATCH));
    go_on(s.step(Event::ContentRead(content.to_string())))
}

/// Files a document titled `title` into a directory holding `existing`.
fn file_into(existing: &mut Vec<String>, title: &str) -> String {
    let (s, a) = up_to_question(Some(title), "# ");
    assert!(matches!(a, Action::Confirm { title: ref t } if t == title));
    let (mut s, mut a) = go_on(s.step(Event::Replied("N".to_string())));
    loop {
        match a {
            Action::Probe { name } => {
                let taken = existing.contains(&name);
                let (s2, a2) = go_on(s.step(Event::Probed(taken)));
                s = s2;
                a = a2;
            }
            Action::Commit { scratch, name } => {
                assert_eq!(scratch, SCRATCH);
                let done = filed(s.step(Event::Committed));
                assert_eq!(done, name);
                existing.push(name.clone());
                return name;
            }
            _ => panic!("unexpected action"),
        }
    }
}

#[test]
fn test_write_with_title() {
    let mut existing = Vec::new();
    assert_eq!(file_into(&mut existing, "atitle"), "atitle.md");
}

#[test]
fn test_write_with_written_title() {
    let (s, a) = up_to_question(None, "# testing");
    assert!(matches!(a, Action::Confirm { ref title } if title == "testing"));
    let (s, a) = go_on(s.step(Event::Replied("N".to_string())));
    assert!(matches!(a, Action::Probe { ref name } if name == "testing.md"));
    let (s, a) = go_on(s.step(Event::Probed(false)));
    assert!(matches!(a, Action::Commit { ref name, .. } if name == "testing.md"));
    assert_eq!(filed(s.step(Event::Committed)), "testing.md");
}

#[test]
fn end_to_end_inferred_title() {
    let (s, a) = up_to_question(None, "# \n# My Note\nhello");
    assert!(matches!(a, Action::Confirm { ref title } if title == "My Note"));
    let (s, a) = go_on(s.step(Event::Replied("N".to_string())));
    assert!(matches!(a, Action::Probe { ref name } if name == "my-note.md"));
    let (s, a) = go_on(s.step(Event::Probed(false)));
    match a {
        Action::Commit { scratch, name } => {
            assert_eq!(scratch, SCRATCH);
            assert_eq!(name, "my-note.md");
        }
        _ => panic!("expected the move"),
    }
    assert_eq!(filed(s.step(Event::Committed)), "my-note.md");
}

#[test]
fn committing_twice_numbers_the_second() {
    let mut existing = Vec::new();
    assert_eq!(file_into(&mut existing, "Draft One"), "draft-one.md");
    assert_eq!(file_into(&mut existing, "Draft One"), "draft-one1.md");
}

#[test]
fn collision_with_three_taken() {
    let mut existing = vec!["base.md".to_string(), "base1.md".to_string(), "base2.md".to_string()];
    assert_eq!(file_into(&mut existing, "base"), "base3.md");
}

#[test]
fn no_heading_asks_for_filename() {
    let (s, a) = up_to_question(None, "just text\n#not a heading");
    assert!(matches!(a, Action::AskFilename));
    let (s, a) = go_on(s.step(Event::Replied(String::new())));
    assert!(matches!(a, Action::AskFilename));
    let (_, a) = go_on(s.step(Event::Replied("Typed Name".to_string())));
    assert!(matches!(a, Action::Probe { ref name } if name == "typed-name.md"));
}

#[test]
fn yes_asks_for_filename() {
    let (s, _) = up_to_question(None, "# Old");
    let (s, a) = go_on(s.step(Event::Replied("y".to_string())));
    assert!(matches!(a, Action::AskFilename));
    let (_, a) = go_on(s.step(Event::Replied("New".to_string())));
    assert!(matches!(a, Action::Probe { ref name } if name == "new.md"));
}

#[test]
fn other_reply_asks_again() {
    let (s, _) = up_to_question(None, "# Keep Me");
    let (s, a) = go_on(s.step(Event::Replied("maybe".to_string())));
    assert!(matches!(a, Action::Confirm { ref title } if title == "Keep Me"));
    let (_, a) = go_on(s.step(Event::Replied(String::new())));
    assert!(matches!(a, Action::Probe { ref name } if name == "keep-me.md"));
}

#[test]
fn explicit_title_wins_over_heading() {
    let (_, a) = up_to_question(Some("Given"), "# Written");
    assert!(matches!(a, Action::Confirm { ref title } if title == "Given"));
}

#[test]
fn creation_failure() {
    let (s, _) = WriteSession::new(None);
    let e = failed(s.step(Event::Failed("denied".to_string())));
    assert!(matches!(e, GardenVarietyError::TempfileCreationError { ref message } if message == "denied"));
    assert_eq!(e.scratch_path(), None);
}

#[test]
fn launch_failure_keeps_scratch() {
    let (s, _) = WriteSession::new(None);
    let (s, _) = go_on(s.step(Event::ScratchCreated(SCRATCH.to_string())));
    let e = failed(s.step(Event::Failed("no editor".to_string())));
    assert!(matches!(e, GardenVarietyError::LaunchError { .. }));
    assert_eq!(e.scratch_path().map(|p| p.as_str()), Some(SCRATCH));
}

#[test]
fn read_failure_keeps_scratch() {
    let (s, _) = WriteSession::new(None);
    let (s, _) = go_on(s.step(Event::ScratchCreated(SCRATCH.to_string())));
    let (s, _) = go_on(s.step(Event::Edited));
    let e = failed(s.step(Event::Failed("gone".to_string())));
    assert!(matches!(e, GardenVarietyError::TempfileReadError { ref filepath, ref message }
        if filepath == SCRATCH && message == "gone"));
}

#[test]
fn prompt_failure_keeps_scratch() {
    let (s, _) = up_to_question(None, "# T");
    let e = failed(s.step(Event::Failed("closed".to_string())));
    assert!(matches!(e, GardenVarietyError::PromptError { ref filepath, .. } if filepath == SCRATCH));
}

#[test]
fn commit_failure_keeps_scratch() {
    let (s, _) = up_to_question(None, "# T");
    let (s, _) = go_on(s.step(Event::Replied("n".to_string())));
    let (s, a) = go_on(s.step(Event::Probed(false)));
    assert!(matches!(a, Action::Commit { .. }));
    let e = failed(s.step(Event::Failed("cross-device".to_string())));
    assert!(matches!(e, GardenVarietyError::CommitError { ref filepath, ref message }
        if filepath == SCRATCH && message == "cross-device"));
}

#[test]
fn no_free_name_fails_commit() {
    let s = WriteSession {
        title: None,
        scratch: SCRATCH.to_string(),
        stage: Stage::Placing(garden::naming::Placement { stem: "x".to_string(), attempt: usize::MAX }),
    };
    let e = failed(s.step(Event::Probed(true)));
    assert!(matches!(e, GardenVarietyError::CommitError { ref filepath, .. } if filepath == SCRATCH));
}

#[test]
fn event_out_of_order_fails() {
    let (s, _) = WriteSession::new(None);
    let (s, _) = go_on(s.step(Event::ScratchCreated(SCRATCH.to_string())));
    let e = failed(s.step(Event::Committed));
    assert!(matches!(e, GardenVarietyError::LaunchError { ref filepath, .. } if filepath == SCRATCH));
}
