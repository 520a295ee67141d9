use botframework::bot::{callback_step, command_text, voice_note_fits, CallbackStep, MessageStep};
use botframework::TgBot;
use teloxide::types::UserId;
use teloxide::Bot;

fn bot() -> TgBot {
    TgBot::with_identity(Bot::new("123:token"), "go7bot".to_string(), UserId(42))
}

#[test]
fn command_without_mention_is_kept() {
    assert_eq!(command_text("go7bot", "  hola  "), ("  hola  ", false));
    assert_eq!(bot().extract_command_text("/info algo"), ("/info algo", false));
}

#[test]
fn mention_is_removed_and_rest_trimmed() {
    assert_eq!(bot().extract_command_text("/info@go7bot  ¿qué tal?  "), ("¿qué tal?", true));
    assert_eq!(command_text("go7bot", "x@go7bot y @go7bot z"), ("y @go7bot z", false));
    assert_eq!(command_text("go7bot", "hey @go7bot"), ("", false));
}

#[test]
fn command_addressed_to_bot() {
    assert_eq!(bot().extract_command_text("/info@go7bot"), ("", true));
    assert_eq!(bot().extract_command_text("/info@go7bot hola"), ("hola", true));
    assert_eq!(command_text("mybot", "/info@mybot"), ("", true));
    assert_eq!(bot().extract_command_text("command@go7bot"), ("", false));
    assert_eq!(bot().extract_command_text("di /info@go7bot"), ("", false));
    assert_eq!(bot().extract_command_text("@go7bot"), ("", false));
}

#[test]
fn identity_getters() {
    let b = bot();
    assert_eq!(b.get_bot_username(), "go7bot");
    assert_eq!(b.get_bot_id(), UserId(42));
    let _client: Bot = b.get_inner();
}

#[test]
fn greeting_unless_bot_joined() {
    let b = bot();
    assert_eq!(b.welcome_for_new_members(&vec![UserId(1), UserId(42)]), None);
    assert_eq!(
        b.welcome_for_new_members(&vec![UserId(7)]),
        Some(
            "Hola! Estoy aquí para ayudarte, _woof_! Si quieres que conteste a un mensaje escribe '/info@go7bot tu pregunta...'"
                .to_string()
        )
    );
}

fn delivered(step: MessageStep) -> Option<String> {
    match step {
        MessageStep::Deliver(t) => Some(t),
        _ => None,
    }
}

#[test]
fn incoming_message_steps() {
    let b = bot();
    assert!(matches!(b.incoming_step(true, true, Some("x"), None), MessageStep::NewMembers));
    assert!(matches!(b.incoming_step(false, true, Some("x"), None), MessageStep::Voice));
    assert!(matches!(b.incoming_step(false, false, None, None), MessageStep::NoContent));
    assert_eq!(delivered(b.incoming_step(false, false, Some("hola"), Some("cap"))), Some("hola".to_string()));
    assert_eq!(delivered(b.incoming_step(false, false, None, Some("cap"))), Some("cap".to_string()));
    assert_eq!(
        delivered(b.incoming_step(false, false, Some("/info@go7bot dime"), None)),
        Some("dime".to_string())
    );
    assert_eq!(delivered(b.incoming_step(false, false, Some("hey @go7bot"), None)), Some("".to_string()));
    match b.incoming_step(false, false, Some("/info@go7bot"), None) {
        MessageStep::CommandHint(r) => assert_eq!(
            r,
            "Si quieres hablar conmigo escribe '/info@go7bot lo que quieres decir'"
        ),
        _ => panic!("expected a hint"),
    }
}

#[test]
fn voice_length_limit() {
    assert!(voice_note_fits(0));
    assert!(voice_note_fits(300));
    assert!(!voice_note_fits(301));
}

fn replaced(step: CallbackStep) -> Option<String> {
    match step {
        CallbackStep::Replace(t) => Some(t),
        _ => None,
    }
}

#[test]
fn callback_steps() {
    assert!(matches!(callback_step(false, Some("{}".to_string())), CallbackStep::Ignore));
    assert_eq!(replaced(callback_step(true, Some("{}".to_string()))), Some("Operación cancelada".to_string()));
    assert_eq!(replaced(callback_step(true, Some("Delete".to_string()))), Some("Elemento eliminado".to_string()));
    assert_eq!(replaced(callback_step(true, Some("Cancel".to_string()))), Some("Lista terminada".to_string()));
    match callback_step(true, Some("delete:7".to_string())) {
        CallbackStep::Forward(d) => assert_eq!(d, "delete:7"),
        _ => panic!("expected forward"),
    }
    match callback_step(true, None) {
        CallbackStep::Forward(d) => assert_eq!(d, ""),
        _ => panic!("expected forward"),
    }
}
