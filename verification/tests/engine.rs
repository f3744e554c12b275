use egui_dialogs::{
    Dialog, DialogContext, DialogDetails, Dialogs, MaskColor, ReplyMap, ReplyValue, OPACITY_FULL,
};

/// A scripted dialog: replies on its n-th live render call (0-based), or
/// never.  While fading (already closed) it deliberately produces an
/// erroneous reply, which the engine must discard.
struct Script {
    reply_on_call: Option<usize>,
    reply: ReplyValue,
    calls: usize,
}

impl Script {
    fn immediate(reply: ReplyValue) -> Script {
        Script { reply_on_call: Some(0), reply, calls: 0 }
    }

    fn on_call(call: usize, reply: ReplyValue) -> Script {
        Script { reply_on_call: Some(call), reply, calls: 0 }
    }

    fn never() -> Script {
        Script { reply_on_call: None, reply: ReplyValue::Unit, calls: 0 }
    }
}

impl Dialog<()> for Script {
    fn show(&mut self, _frame: &mut (), dctx: &DialogContext) -> Option<ReplyValue> {
        if dctx.already_closed {
            // a retired contract must not accept input; if it misbehaves
            // and produces a reply anyway, the engine must discard it
            return Some(ReplyValue::Text("stale".to_string()));
        }
        let call = self.calls;
        self.calls += 1;
        match self.reply_on_call {
            Some(n) if n == call => Some(self.reply.clone()),
            _ => None,
        }
    }
}

fn entry(id: &str, script: Script) -> DialogDetails<Script> {
    DialogDetails::new(script).with_id(id)
}

#[test]
fn idle_engine_renders_nothing() {
    let mut q: Dialogs<Script> = Dialogs::new();
    assert!(q.show(&mut (), OPACITY_FULL).is_none());
    assert_eq!(q.count(), 0);
    assert!(!q.is_on());
}

#[test]
fn fifo_order_with_immediate_in_front() {
    // P1: normal submissions render in FIFO order; an immediate
    // submission becomes the very next active entry
    let mut q: Dialogs<Script> = Dialogs::new().animated(false);
    q.add(entry("a", Script::immediate(ReplyValue::Unit)));
    q.add(entry("b", Script::immediate(ReplyValue::Unit)));
    q.add_immediate(entry("c", Script::immediate(ReplyValue::Unit)));
    assert_eq!(q.count(), 3);

    let mut order: Vec<String> = Vec::new();
    for _ in 0..3 {
        let resp = q.show(&mut (), 0).expect("an entry should render");
        assert!(resp.is_reply());
        order.push(resp.id.expect("entries carry ids"));
    }
    assert_eq!(order, vec!["c".to_string(), "a".to_string(), "b".to_string()]);
    assert!(q.show(&mut (), 0).is_none());
}

#[test]
fn dedup_submission_is_a_no_op() {
    // P9: submitting id "X" while id "X" is enqueued leaves the queue unchanged
    let mut q: Dialogs<Script> = Dialogs::new();
    q.add(entry("X", Script::never()));
    q.add(entry("other", Script::never()));
    assert_eq!(q.count(), 2);
    q.add_if_absent(entry("X", Script::never()));
    assert_eq!(q.count(), 2);
    // a fresh id is appended
    q.add_if_absent(entry("Y", Script::never()));
    assert_eq!(q.count(), 3);
    // an id-less entry is always appended
    q.add_if_absent(DialogDetails::new(Script::never()));
    assert_eq!(q.count(), 4);
    assert!(q.is_open("X"));
    assert!(q.is_open("Y"));
    assert!(!q.is_open("Z"));
}

#[test]
fn show_if_absent_on_details_matches_engine_dedup() {
    let mut q: Dialogs<Script> = Dialogs::new();
    entry("X", Script::never()).show(&mut q);
    entry("X", Script::never()).show_if_absent(&mut q);
    assert_eq!(q.count(), 1);
}

#[test]
fn disabled_animation_drops_closed_entry_immediately() {
    // P4: with animation disabled a closed entry is gone on the next
    // frame: the fade slot is never populated
    let mut q: Dialogs<Script> = Dialogs::new().animated(false);
    q.add(entry("a", Script::immediate(ReplyValue::Flag(true))));
    let resp = q.show(&mut (), 0).expect("the entry renders");
    assert!(resp.is_reply_of("a"));
    assert!(!q.has_fading());
    assert_eq!(q.count(), 0);
    // the very next frame is idle
    assert!(q.show(&mut (), 0).is_none());
    assert_eq!(q.effective_opacity(0), 0);
}

#[test]
fn animated_close_fades_then_serializes_next_dialog() {
    // P5 scenario: two dialogs queued; the first is answered at frame 1;
    // fade-out frames render it non-interactively; only after opacity
    // reaches zero does the second become the active render target
    let mut q: Dialogs<Script> = Dialogs::new();
    q.add(entry("a", Script::immediate(ReplyValue::Standard(
        egui_dialogs::StandardReply::Yes,
    ))));
    q.add(entry("b", Script::immediate(ReplyValue::Standard(
        egui_dialogs::StandardReply::No,
    ))));
    assert!(q.is_on());

    // frame 1: "a" renders live at full opacity and replies
    let resp = q.show(&mut (), OPACITY_FULL).expect("a renders");
    assert!(resp.is_reply_of("a"));
    assert!(q.has_fading());
    assert_eq!(q.count(), 1);
    // while fading, the animation target is off (P2's mechanism)
    assert!(!q.is_on());

    // frames 2..3: "a" keeps fading; "b" does not render (P2)
    for opacity in [600, 300] {
        let resp = q.show(&mut (), opacity).expect("the fading entry renders");
        assert_eq!(resp.id, Some("a".to_string()));
        // P3: the retired contract's erroneous reply is discarded
        assert!(!resp.is_reply());
        assert!(q.has_fading());
        assert_eq!(q.count(), 1);
    }

    // frame 4: opacity reached zero: the fade slot is dropped and nothing
    // renders this frame — "b" is not started on the same frame
    assert!(q.show(&mut (), 0).is_none());
    assert!(!q.has_fading());
    assert_eq!(q.count(), 1);
    assert!(q.is_on());

    // frame 5: only now does "b" render, beginning its own fade-in
    let resp = q.show(&mut (), 250).expect("b renders");
    assert!(resp.is_reply_of("b"));
}

#[test]
fn swallow_handler_empties_the_payload_but_names_the_id() {
    let mut q: Dialogs<Script> = Dialogs::new().animated(false);
    q.add(
        entry("handled", Script::immediate(ReplyValue::Standard(
            egui_dialogs::StandardReply::Okay,
        )))
        .on_reply(ReplyMap::Swallow),
    );
    let resp = q.show(&mut (), 0).expect("the entry renders");
    assert_eq!(resp.id, Some("handled".to_string()));
    assert!(!resp.is_reply());
    assert_eq!(q.count(), 0);
}

#[test]
fn mapped_reply_surfaces_transformed() {
    let mut q: Dialogs<Script> = Dialogs::new().animated(false);
    q.add(
        entry("m", Script::immediate(ReplyValue::Standard(
            egui_dialogs::StandardReply::Yes,
        )))
        .map_accepted(),
    );
    let resp = q.show(&mut (), 0).expect("the entry renders");
    assert_eq!(resp.reply_flag(), Ok(true));
}

#[test]
fn custom_text_dialog_reply_round_trip() {
    // P6: a String-valued custom dialog's reply extracts as text, and the
    // boolean extractor hands the response back unchanged
    let mut q: Dialogs<Script> = Dialogs::new().animated(false);
    q.add(entry(
        "name",
        Script::immediate(ReplyValue::Text("whatever the user typed".to_string())),
    ));
    let resp = q.show(&mut (), 0).expect("the entry renders");
    assert!(resp.is_reply_of("name"));
    let resp = match resp.reply_flag() {
        Ok(_) => panic!("a text reply must not extract as a boolean"),
        Err(resp) => resp,
    };
    assert_eq!(resp.reply_text(), Ok("whatever the user typed".to_string()));
}

#[test]
fn open_dialog_keeps_waiting_frames() {
    let mut q: Dialogs<Script> = Dialogs::new().animated(false);
    q.add(entry("slow", Script::on_call(2, ReplyValue::Unit)));
    // two frames with no decision: a response names the entry, no reply
    for _ in 0..2 {
        let resp = q.show(&mut (), 0).expect("the entry renders");
        assert_eq!(resp.id, Some("slow".to_string()));
        assert!(!resp.is_reply());
        assert_eq!(q.count(), 1);
    }
    // third live call produces the reply
    let resp = q.show(&mut (), 0).expect("the entry renders");
    assert!(resp.is_reply_of("slow"));
    assert_eq!(q.count(), 0);
}

#[test]
fn queue_inspection_and_popping() {
    let mut q: Dialogs<Script> = Dialogs::new();
    q.add(entry("a", Script::never()));
    q.add(entry("b", Script::never()));
    assert_eq!(q.current_dialog().unwrap().id(), &Some("a".to_string()));
    assert_eq!(q.last_dialog().unwrap().id(), &Some("b".to_string()));
    assert_eq!(q.dialogs().len(), 2);
    let popped = q.pop_front().expect("a front entry exists");
    assert_eq!(popped.id(), &Some("a".to_string()));
    let popped = q.pop_back().expect("a back entry exists");
    assert_eq!(popped.id(), &Some("b".to_string()));
    assert!(q.pop_front().is_none());
    assert!(q.pop_back().is_none());
    assert!(q.current_dialog().is_none());
    assert!(q.last_dialog().is_none());
}

#[test]
fn animated_toggle_drops_fade_slot() {
    let mut q: Dialogs<Script> = Dialogs::new();
    q.add(entry("a", Script::immediate(ReplyValue::Unit)));
    let _ = q.show(&mut (), OPACITY_FULL);
    assert!(q.has_fading());
    let q = q.animated(false);
    assert!(!q.has_fading());
}

#[test]
fn effective_opacity_follows_animation_switch() {
    let mut q: Dialogs<Script> = Dialogs::new();
    // empty: always zero
    assert_eq!(q.effective_opacity(700), 0);
    q.add(entry("a", Script::never()));
    // animated: the host's interpolated value is used as-is
    assert_eq!(q.effective_opacity(700), 700);
    let mut q = q.animated(false);
    // not animated: snaps to full while an entry waits
    assert_eq!(q.effective_opacity(700), OPACITY_FULL);
    let _ = q.pop_front();
    assert_eq!(q.effective_opacity(700), 0);
}

#[test]
fn current_mask_prefers_the_fading_entry() {
    let mut q: Dialogs<Script> = Dialogs::new();
    q.add(
        entry("a", Script::immediate(ReplyValue::Unit))
            .with_mask(Some(MaskColor::from_black_alpha(10))),
    );
    q.add(
        entry("b", Script::never()).with_mask(Some(MaskColor::from_black_alpha(20))),
    );
    assert_eq!(q.current_mask(), Some(MaskColor::from_black_alpha(10)));
    let _ = q.show(&mut (), OPACITY_FULL);
    // "a" replied and is fading: its mask still rules the frame
    assert!(q.has_fading());
    assert_eq!(q.current_mask(), Some(MaskColor::from_black_alpha(10)));
    let _ = q.show(&mut (), 0);
    // fade over: the next entry's mask takes effect
    assert_eq!(q.current_mask(), Some(MaskColor::from_black_alpha(20)));
}

#[test]
fn maskless_entry_disables_dimming() {
    let mut q: Dialogs<Script> = Dialogs::new();
    q.add(entry("a", Script::never()).with_mask(None));
    assert_eq!(q.current_mask(), None);
}
