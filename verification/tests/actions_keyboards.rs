use botframework::keyboard::{confirm_keyboard, list_keyboard};
use botframework::action::{file_step, FileStep};
use botframework::{reply_for, FileRep, ToolCallAction};
use std::path::PathBuf;
use teloxide::types::{InlineKeyboardButton, InlineKeyboardMarkup};

#[test]
fn actions_from_text() {
    match ToolCallAction::from("hola".to_string()) {
        ToolCallAction::Message(m) => assert_eq!(m, "hola"),
        _ => panic!(),
    }
    match ToolCallAction::from("adios") {
        ToolCallAction::Message(m) => assert_eq!(m, "adios"),
        _ => panic!(),
    }
}

#[test]
fn failed_tool_gets_error_message() {
    match reply_for::<String>(Err("boom".to_string())) {
        ToolCallAction::Message(m) => assert_eq!(m, "Ha habido un problema con su petición"),
        _ => panic!(),
    }
    match reply_for::<String>(Ok(ToolCallAction::MarkDown("*x*".to_string()))) {
        ToolCallAction::MarkDown(m) => assert_eq!(m, "*x*"),
        _ => panic!(),
    }
    match reply_for::<()>(Ok(ToolCallAction::File { msg: None, file: FileRep::Raw(vec![1, 2]) })) {
        ToolCallAction::File { msg: None, file: FileRep::Raw(b) } => assert_eq!(b, vec![1, 2]),
        _ => panic!(),
    }
}

#[test]
fn confirmation_keyboard() {
    let expected = InlineKeyboardMarkup::new(vec![vec![
        InlineKeyboardButton::callback("✅ Confirmar", "do:1".to_string()),
        InlineKeyboardButton::callback("❌ Cancelar", "{}".to_string()),
    ]]);
    assert_eq!(confirm_keyboard("do:1"), expected);
}

#[test]
fn list_keyboard_rows() {
    let items = vec!["uno".to_string(), "dos".to_string()];
    let expected = InlineKeyboardMarkup::new(vec![
        vec![InlineKeyboardButton::callback("uno".to_string(), "Delete".to_string())],
        vec![InlineKeyboardButton::callback("dos".to_string(), "Delete".to_string())],
        vec![InlineKeyboardButton::callback("❌ Cancelar", "{}".to_string())],
    ]);
    assert_eq!(list_keyboard(&items), expected);
    let only_cancel = InlineKeyboardMarkup::new(vec![vec![InlineKeyboardButton::callback(
        "❌ Cancelar",
        "{}".to_string(),
    )]]);
    assert_eq!(list_keyboard(&Vec::new()), only_cancel);
}

#[test]
fn missing_file_gets_apology() {
    match file_step(FileRep::Path(PathBuf::from("/nope")), false, Some("c".to_string())) {
        FileStep::Apology(m) => assert_eq!(m, "No puedo enviar el archivo ya que no existe internamente"),
        _ => panic!(),
    }
    match file_step(FileRep::Path(PathBuf::from("/a")), true, Some("c".to_string())) {
        FileStep::Send { file: FileRep::Path(p), caption } => {
            assert_eq!(p, PathBuf::from("/a"));
            assert_eq!(caption, Some("c".to_string()));
        }
        _ => panic!(),
    }
    match file_step(FileRep::Raw(vec![9]), false, None) {
        FileStep::Send { file: FileRep::Raw(b), caption: None } => assert_eq!(b, vec![9]),
        _ => panic!(),
    }
}
