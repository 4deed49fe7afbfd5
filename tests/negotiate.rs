use garden::negotiate::{Negotiation, NegotiationStep};

fn confirming(t: &str) -> Negotiation {
    Negotiation::new(Some(t.to_string()))
}

#[test]
fn keep_replies_preserve_title() {
    for reply in ["", "n", "N"] {
        match confirming("My Title").answer(reply) {
            NegotiationStep::Settled(t) => assert_eq!(t, "My Title"),
            _ => panic!("expected the title to stand"),
        }
    }
}

#[test]
fn yes_replies_ask_for_filename() {
    for reply in ["y", "Y"] {
        assert!(matches!(
            confirming("T").answer(reply),
            NegotiationStep::Ask(Negotiation::AskingFilename)
        ));
    }
}

#[test]
fn other_replies_ask_again() {
    for reply in ["yes", "no", " ", "x", "nN"] {
        match confirming("T").answer(reply) {
            NegotiationStep::Ask(Negotiation::Confirming(t)) => assert_eq!(t, "T"),
            _ => panic!("expected the same question"),
        }
    }
}

#[test]
fn no_title_asks_for_filename() {
    assert!(matches!(Negotiation::new(None), Negotiation::AskingFilename));
}

#[test]
fn filename_reply_is_taken_as_typed() {
    match Negotiation::AskingFilename.answer("  Some Name ") {
        NegotiationStep::Settled(t) => assert_eq!(t, "  Some Name "),
        _ => panic!("expected the typed name"),
    }
    assert!(matches!(
        Negotiation::AskingFilename.answer(""),
        NegotiationStep::Ask(Negotiation::AskingFilename)
    ));
}
