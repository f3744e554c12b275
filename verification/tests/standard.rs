use egui_dialogs::{
    DialogContext, DialogIcon, Dialogs, ReplyValue, StandardDialog, StandardDialogDetails,
    StandardOutcome, StandardReply, StandardSurface, OPACITY_FULL,
};

/// A scripted host surface: reports the same user actions every frame.
struct FixedSurface {
    clicked: Vec<bool>,
    closed: bool,
}

impl StandardSurface for FixedSurface {
    fn draw_standard(&mut self, dialog: &StandardDialog, _dctx: &DialogContext) -> StandardOutcome {
        let mut clicked = self.clicked.clone();
        clicked.resize(dialog.buttons.len(), false);
        StandardOutcome { clicked, closed: self.closed }
    }
}

/// A host surface on which the user does nothing at all.
struct IdleSurface;

impl StandardSurface for IdleSurface {
    fn draw_standard(&mut self, dialog: &StandardDialog, _dctx: &DialogContext) -> StandardOutcome {
        StandardOutcome { clicked: vec![false; dialog.buttons.len()], closed: false }
    }
}

#[test]
fn presets_carry_their_icon_and_buttons() {
    let d = StandardDialog::info("t", "c");
    assert_eq!(d.image, Some(DialogIcon::Info));
    assert_eq!(d.buttons.len(), 1);
    assert_eq!(d.buttons[0].1, ReplyValue::Standard(StandardReply::Okay));

    let d = StandardDialog::success("t", "c");
    assert_eq!(d.image, Some(DialogIcon::Success));
    let d = StandardDialog::warning("t", "c");
    assert_eq!(d.image, Some(DialogIcon::Warning));
    let d = StandardDialog::error("t", "c");
    assert_eq!(d.image, Some(DialogIcon::Error));

    let d = StandardDialog::confirm("t", "c");
    assert_eq!(d.image, Some(DialogIcon::Confirm));
    assert_eq!(d.buttons.len(), 2);
    assert_eq!(d.buttons[0].1, ReplyValue::Standard(StandardReply::Yes));
    assert_eq!(d.buttons[1].1, ReplyValue::Standard(StandardReply::No));
}

#[test]
fn builders_replace_fields() {
    let d = StandardDialog::new("a", "b")
        .title("title")
        .content("content")
        .image(DialogIcon::Error)
        .push_button(("Go".to_string(), ReplyValue::Number(7)));
    assert_eq!(d.title, "title");
    assert_eq!(d.content, "content");
    assert_eq!(d.image, Some(DialogIcon::Error));
    assert_eq!(d.buttons.len(), 1);
    let d = d.buttons(vec![("X".to_string(), ReplyValue::Unit)]);
    assert_eq!(d.buttons.len(), 1);
    assert_eq!(d.buttons[0].0, "X");
}

#[test]
fn clicked_button_wins() {
    let d = StandardDialog::confirm("t", "c");
    let outcome = StandardOutcome { clicked: vec![true, false], closed: false };
    assert_eq!(
        d.respond(&outcome),
        Some(ReplyValue::Standard(StandardReply::Yes))
    );
    let outcome = StandardOutcome { clicked: vec![false, true], closed: false };
    assert_eq!(
        d.respond(&outcome),
        Some(ReplyValue::Standard(StandardReply::No))
    );
}

#[test]
fn simultaneous_clicks_scan_in_reverse_declaration_order() {
    // buttons render right-to-left; the first clicked in that scanning
    // order (the last-declared one) wins
    let d = StandardDialog::confirm("t", "c");
    let outcome = StandardOutcome { clicked: vec![true, true], closed: false };
    assert_eq!(
        d.respond(&outcome),
        Some(ReplyValue::Standard(StandardReply::No))
    );
}

#[test]
fn window_close_answers_with_last_declared_button() {
    // P8: declared buttons [Yes, No]; closing via the window affordance
    // delivers the last-declared button's reply: No
    let d = StandardDialog::confirm("t", "c");
    let outcome = StandardOutcome { clicked: vec![false, false], closed: true };
    assert_eq!(
        d.respond(&outcome),
        Some(ReplyValue::Standard(StandardReply::No))
    );
}

#[test]
fn no_interaction_keeps_the_dialog_open() {
    let d = StandardDialog::confirm("t", "c");
    let outcome = StandardOutcome { clicked: vec![false, false], closed: false };
    assert_eq!(d.respond(&outcome), None);
}

#[test]
fn close_with_no_buttons_yields_nothing() {
    let d = StandardDialog::new("t", "c");
    let outcome = StandardOutcome { clicked: Vec::new(), closed: true };
    assert_eq!(d.respond(&outcome), None);
}

#[test]
fn clicks_beyond_declared_buttons_are_ignored() {
    let d = StandardDialog::confirm("t", "c");
    let outcome = StandardOutcome { clicked: vec![false, false, true], closed: false };
    assert_eq!(d.respond(&outcome), None);
}

#[test]
fn confirm_through_engine_close_delivers_decline() {
    // P8 end to end: the user closes the window without clicking a button
    let mut q: Dialogs<StandardDialog> = Dialogs::new().animated(false);
    q.confirm("Close", "Are you sure?", egui_dialogs::ReplyMap::Keep);
    let mut surface = FixedSurface { clicked: Vec::new(), closed: true };
    let resp = q.show(&mut surface, 0).expect("the dialog renders");
    assert_eq!(resp.reply_standard(), Ok(StandardReply::No));
    assert_eq!(q.count(), 0);
}

#[test]
fn info_through_engine_acknowledges() {
    let mut q: Dialogs<StandardDialog> = Dialogs::new().animated(false);
    q.info("Hello", "This is a message");
    let mut surface = FixedSurface { clicked: vec![true], closed: false };
    let resp = q.show(&mut surface, 0).expect("the dialog renders");
    assert_eq!(resp.reply_standard(), Ok(StandardReply::Okay));
}

#[test]
fn open_standard_dialog_waits() {
    let mut q: Dialogs<StandardDialog> = Dialogs::new().animated(false);
    q.warning("W", "w");
    let mut surface = IdleSurface;
    let resp = q.show(&mut surface, 0).expect("the dialog renders");
    assert!(!resp.is_reply());
    assert_eq!(q.count(), 1);
}

#[test]
fn fading_standard_dialog_refuses_interaction() {
    // even if the user clicks during fade-out, the retired dialog's
    // outcome is a no-op
    let mut q: Dialogs<StandardDialog> = Dialogs::new();
    q.error("E", "e");
    let mut eager = FixedSurface { clicked: vec![true], closed: false };
    let resp = q.show(&mut eager, OPACITY_FULL).expect("the dialog renders");
    assert!(resp.is_reply());
    assert!(q.has_fading());
    // fade frame: clicks keep coming, but nothing surfaces
    let resp = q.show(&mut eager, 500).expect("the fading dialog renders");
    assert!(!resp.is_reply());
}

#[test]
fn standard_details_builders() {
    let details = StandardDialogDetails::confirm("t", "c").with_id("confirm");
    assert_eq!(details.id(), &Some("confirm".to_string()));
    assert_eq!(details.dialog.image, Some(DialogIcon::Confirm));
    let details = StandardDialogDetails::info("t", "c");
    assert_eq!(details.id(), &None);
    assert_eq!(details.dialog.image, Some(DialogIcon::Info));
    assert_eq!(
        StandardDialogDetails::success("t", "c").dialog.image,
        Some(DialogIcon::Success)
    );
    assert_eq!(
        StandardDialogDetails::warning("t", "c").dialog.image,
        Some(DialogIcon::Warning)
    );
    assert_eq!(
        StandardDialogDetails::error("t", "c").dialog.image,
        Some(DialogIcon::Error)
    );
}

#[test]
fn standard_button_pairs_label_and_reply() {
    let (label, reply) = StandardReply::No.button();
    assert_eq!(reply, ReplyValue::Standard(StandardReply::No));
    let no_texts = [
        "No", "否", "否", "No", "Non", "No", "いいえ", "Não", "Нет", "Hayır",
    ];
    assert!(no_texts.contains(&label.as_str()));
}
