//! Tests for messages, drag payload names, and game speed.

use sprint_master::messages::Message;
use sprint_master::speed::GameSpeed;
use sprint_master::transfer::DragEffect;

#[test]
fn simple_messages_carry_title_and_text() {
    let m = Message::new_simple("Hi".to_string(), "there".to_string());
    match m {
        Message::Simple { title, message } => {
            assert_eq!(title, "Hi");
            assert_eq!(message, "there");
        }
        other => panic!("expected a simple message, got {:?}", other),
    }
}

#[test]
fn template_variables_are_substituted_in_order() {
    let vars = vec![
        ("$PROJECT_NAME".to_string(), "Testware".to_string()),
        ("$WHO".to_string(), "the board".to_string()),
    ];
    let m = Message::new_simple_with_vars(
        "News".to_string(),
        "$WHO congratulates the $PROJECT_NAME team: $PROJECT_NAME ships!".to_string(),
        &vars,
    );
    match m {
        Message::Simple { message, .. } => {
            assert_eq!(
                message,
                "the board congratulates the Testware team: Testware ships!"
            );
        }
        other => panic!("expected a simple message, got {:?}", other),
    }
}

#[test]
fn canned_reports_have_their_exact_text() {
    match Message::random_report(0) {
        Message::Simple { title, message } => {
            assert_eq!(title, "General message via chat");
            assert_eq!(
                message,
                "Today is pizza day! 🍕 Don't forget to mark your preference in the #lunch channel!"
            );
        }
        other => panic!("expected a simple message, got {:?}", other),
    }
    // out-of-range report IDs fall back to an apology
    match Message::random_report(99) {
        Message::Simple { message, .. } => {
            assert_eq!(message, "Sorry, my mistake. There is no message for you.");
        }
        other => panic!("expected a simple message, got {:?}", other),
    }
}

#[test]
fn board_notices_carry_their_titles() {
    for m in [
        Message::bug_reported(),
        Message::feature_requested(),
    ] {
        match m {
            Message::Simple { title, .. } => {
                assert_eq!(title, "A message from the board of directors");
            }
            other => panic!("expected a simple message, got {:?}", other),
        }
    }
    match Message::extra_technical_debt() {
        Message::Simple { title, .. } => assert_eq!(title, "Emergency dev meeting report"),
        other => panic!("expected a simple message, got {:?}", other),
    }
}

#[test]
fn quitting_worker_message_names_the_worker() {
    match Message::human_quit("May") {
        Message::Simple { title, message } => {
            assert_eq!(title, "May is leaving the team");
            assert_eq!(
                message,
                "You were just informed that May could not keep up with the pressure and left the company."
            );
        }
        other => panic!("expected a simple message, got {:?}", other),
    }
}

#[test]
fn drag_effects_have_standard_names() {
    assert_eq!(DragEffect::Copy.to_name(), "copy");
    assert_eq!(DragEffect::Move.to_name(), "move");
    assert_eq!(DragEffect::Link.to_name(), "link");
}

#[test]
fn faster_speeds_shorten_the_tick_period() {
    assert_eq!(GameSpeed::Normal.milliseconds_per_tick(), 200);
    assert_eq!(GameSpeed::Fast.milliseconds_per_tick(), 100);
    assert_eq!(GameSpeed::Faster.milliseconds_per_tick(), 50);
}
