//! The inline keyboards the bot attaches to its messages: confirm/cancel
//! for a pending action, and one button per item of a list.

use vstd::prelude::*;
use teloxide::types::{InlineKeyboardButton, InlineKeyboardMarkup};

verus! {

/// teloxide's `InlineKeyboardButton`, held opaque.
#[verifier::external_type_specification]
#[verifier::external_body]
pub struct ExInlineKeyboardButton(InlineKeyboardButton);

/// teloxide's `InlineKeyboardMarkup`, held opaque.
#[verifier::external_type_specification]
#[verifier::external_body]
pub struct ExInlineKeyboardMarkup(InlineKeyboardMarkup);

/// The button that `InlineKeyboardButton::callback` makes of a label and
/// the data sent back when it is pressed.
pub uninterp spec fn callback_button_of(text: Seq<char>, data: Seq<char>) -> InlineKeyboardButton;

/// The keyboard that `InlineKeyboardMarkup::new` makes of rows of buttons.
pub uninterp spec fn inline_keyboard_of(rows: Seq<Seq<InlineKeyboardButton>>) -> InlineKeyboardMarkup;

/// `InlineKeyboardButton::callback`: a button with a label that sends the
/// given data back when pressed. Stated: the result is determined by the
/// label and the data.
#[verifier::external_body]
fn callback_button(text: String, data: String) -> (b: InlineKeyboardButton)
    ensures
        b == callback_button_of(text@, data@),
{
    InlineKeyboardButton::callback(text, data)
}

/// The rows of buttons, each row as the sequence of its buttons.
pub open spec fn rows_view(rows: Seq<Vec<InlineKeyboardButton>>) -> Seq<Seq<InlineKeyboardButton>> {
    rows.map_values(|r: Vec<InlineKeyboardButton>| r@)
}

/// `InlineKeyboardMarkup::new`: a keyboard of the given rows. Stated: the
/// result is determined by the rows.
#[verifier::external_body]
fn inline_keyboard(rows: Vec<Vec<InlineKeyboardButton>>) -> (m: InlineKeyboardMarkup)
    ensures
        m == inline_keyboard_of(rows_view(rows@)),
{
    InlineKeyboardMarkup::new(rows)
}

/// The cancel button: it sends back `{}`.
pub open spec fn cancel_button() -> InlineKeyboardButton {
    callback_button_of("❌ Cancelar"@, "{}"@)
}

/// The keyboard of a confirmation: confirm (sending back the given data)
/// and cancel, side by side.
pub open spec fn confirm_keyboard_spec(callback_data: Seq<char>) -> InlineKeyboardMarkup {
    inline_keyboard_of(seq![seq![callback_button_of("✅ Confirmar"@, callback_data), cancel_button()]])
}

/// The keyboard of a list: one row per item (each sending back `Delete`),
/// then a row with the cancel button.
pub open spec fn list_keyboard_spec(items: Seq<String>) -> InlineKeyboardMarkup {
    inline_keyboard_of(list_rows(items))
}

pub open spec fn list_rows(items: Seq<String>) -> Seq<Seq<InlineKeyboardButton>> {
    items.map_values(|it: String| seq![callback_button_of(it@, "Delete"@)]).push(seq![cancel_button()])
}

fn cancel() -> (b: InlineKeyboardButton)
    ensures
        b == cancel_button(),
{
    callback_button(String::from_str("❌ Cancelar"), String::from_str("{}"))
}

/// The keyboard sent with a confirmation request.
pub fn confirm_keyboard(callback_data: &str) -> (m: InlineKeyboardMarkup)
    ensures
        m == confirm_keyboard_spec(callback_data@),
{
    let mut row: Vec<InlineKeyboardButton> = Vec::new();
    row.push(callback_button(String::from_str("✅ Confirmar"), callback_data.to_owned()));
    row.push(cancel());
    let ghost r0 = row@;
    assert(r0 =~= seq![callback_button_of("✅ Confirmar"@, callback_data@), cancel_button()]);
    let mut rows: Vec<Vec<InlineKeyboardButton>> = Vec::new();
    rows.push(row);
    assert(rows_view(rows@) =~= seq![r0]);
    inline_keyboard(rows)
}

/// The keyboard sent with a list of items.
pub fn list_keyboard(items: &Vec<String>) -> (m: InlineKeyboardMarkup)
    ensures
        m == list_keyboard_spec(items@),
{
    let mut rows: Vec<Vec<InlineKeyboardButton>> = Vec::new();
    let mut i: usize = 0;
    while i < items.len()
        invariant
            i <= items.len(),
            rows_view(rows@) == items@.take(i as int).map_values(
                |it: String| seq![callback_button_of(it@, "Delete"@)],
            ),
        decreases items.len() - i,
    {
        let ghost before = rows@;
        let mut row: Vec<InlineKeyboardButton> = Vec::new();
        row.push(callback_button(items[i].clone(), String::from_str("Delete")));
        let ghost r = row@;
        assert(r =~= seq![callback_button_of(items@[i as int]@, "Delete"@)]);
        rows.push(row);
        assert(rows_view(rows@) =~= rows_view(before).push(r));
        assert(items@.take(i + 1) =~= items@.take(i as int).push(items@[i as int]));
        i = i + 1;
        assert(rows_view(rows@) =~= items@.take(i as int).map_values(
            |it: String| seq![callback_button_of(it@, "Delete"@)],
        ));
    }
    let ghost before = rows@;
    let mut last: Vec<InlineKeyboardButton> = Vec::new();
    last.push(cancel());
    let ghost r = last@;
    assert(r =~= seq![cancel_button()]);
    rows.push(last);
    assert(rows_view(rows@) =~= rows_view(before).push(r));
    assert(items@.take(items@.len() as int) == items@);
    assert(rows_view(rows@) == list_rows(items@));
    inline_keyboard(rows)
}

/// A list keyboard has one row per item, in the items' order, each row
/// holding only that item's button (labelled with the item, sending back
/// `Delete`), and then one last row holding only the cancel button
/// (labelled `❌ Cancelar`, sending back `{}`).
pub proof fn lemma_list_keyboard_layout(items: Seq<String>)
    ensures
        list_keyboard_spec(items) == inline_keyboard_of(
            Seq::new(
                items.len() + 1,
                |i: int|
                    if i < items.len() {
                        seq![callback_button_of(items[i]@, "Delete"@)]
                    } else {
                        seq![callback_button_of("❌ Cancelar"@, "{}"@)]
                    },
            ),
        ),
{
    assert(list_rows(items) =~= Seq::new(
        items.len() + 1,
        |i: int|
            if i < items.len() {
                seq![callback_button_of(items[i]@, "Delete"@)]
            } else {
                seq![callback_button_of("❌ Cancelar"@, "{}"@)]
            },
    ));
}

/// A confirmation keyboard is one row: the confirm button (labelled
/// `✅ Confirmar`, sending back the given data), then the cancel button
/// (labelled `❌ Cancelar`, sending back `{}`).
pub proof fn lemma_confirm_keyboard_layout(callback_data: Seq<char>)
    ensures
        confirm_keyboard_spec(callback_data) == inline_keyboard_of(
            seq![
                seq![
                    callback_button_of("✅ Confirmar"@, callback_data),
                    callback_button_of("❌ Cancelar"@, "{}"@),
                ],
            ],
        ),
{
}

} // verus!
