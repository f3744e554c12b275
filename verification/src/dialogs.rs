//! The reply container, the per-frame dialog context, and the overlay
//! queue engine.

use std::collections::VecDeque;

use vstd::prelude::*;

use crate::dialog_details::Dialog;
use crate::dialog_details::DialogDetails;
use crate::dialog_details::MaskColor;
use crate::dialog_details::ReplyMap;
use crate::dialog_details::apply_reply_map;
use crate::dialog_details::spec_apply;
use crate::standard_dialog::StandardReply;

verus! {

/// A dialog's outcome, carried as a runtime-tagged variant so that entries
/// with different reply types share one queue.  Extraction is checked
/// against the tag and never panics.
#[derive(Debug)]
pub enum ReplyValue {
    /// A built-in reply of a standard dialog.
    Standard(StandardReply),
    /// A boolean reply, e.g. whether a dialog was accepted.
    Flag(bool),
    /// A textual reply, e.g. what the user typed.
    Text(String),
    /// A numeric reply.
    Number(u64),
    /// A reply that carries no payload beyond the fact of closing.
    Unit,
}

impl Clone for ReplyValue {
    fn clone(&self) -> (r: Self)
        ensures
            r == *self,
    {
        match self {
            ReplyValue::Standard(s) => ReplyValue::Standard(*s),
            ReplyValue::Flag(b) => ReplyValue::Flag(*b),
            ReplyValue::Text(t) => ReplyValue::Text(t.clone()),
            ReplyValue::Number(n) => ReplyValue::Number(*n),
            ReplyValue::Unit => ReplyValue::Unit,
        }
    }
}

/// Deep equality of two reply values: same tag and same payload, with
/// textual payloads compared by their characters.
pub open spec fn reply_eq(a: ReplyValue, b: ReplyValue) -> bool {
    match (a, b) {
        (ReplyValue::Standard(x), ReplyValue::Standard(y)) => x == y,
        (ReplyValue::Flag(x), ReplyValue::Flag(y)) => x == y,
        (ReplyValue::Text(x), ReplyValue::Text(y)) => x@ == y@,
        (ReplyValue::Number(x), ReplyValue::Number(y)) => x == y,
        (ReplyValue::Unit, ReplyValue::Unit) => true,
        _ => false,
    }
}

impl PartialEq for ReplyValue {
    fn eq(&self, other: &Self) -> (r: bool) {
        match (self, other) {
            (ReplyValue::Standard(x), ReplyValue::Standard(y)) => *x == *y,
            (ReplyValue::Flag(x), ReplyValue::Flag(y)) => *x == *y,
            (ReplyValue::Text(x), ReplyValue::Text(y)) => *x == *y,
            (ReplyValue::Number(x), ReplyValue::Number(y)) => *x == *y,
            (ReplyValue::Unit, ReplyValue::Unit) => true,
            _ => false,
        }
    }
}

impl vstd::std_specs::cmp::PartialEqSpecImpl for ReplyValue {
    open spec fn obeys_eq_spec() -> bool {
        true
    }

    open spec fn eq_spec(&self, other: &Self) -> bool {
        reply_eq(*self, *other)
    }
}

/// The response of a dialog: which entry it came from, and its reply if
/// one surfaced to the host.
#[derive(Debug)]
pub struct DialogResponse {
    /// The dialog's id if there is one.
    pub id: Option<String>,
    /// The reply of the dialog.  `None` while the dialog is still open, and
    /// also once a reply handler consumed the reply internally.
    pub reply: Option<ReplyValue>,
}

/// Deep equality of two responses: ids equal by characters, replies equal
/// by tag and payload.
pub open spec fn response_eq(a: DialogResponse, b: DialogResponse) -> bool {
    &&& match (a.id, b.id) {
        (Some(x), Some(y)) => x@ == y@,
        (None, None) => true,
        _ => false,
    }
    &&& match (a.reply, b.reply) {
        (Some(x), Some(y)) => reply_eq(x, y),
        (None, None) => true,
        _ => false,
    }
}

impl PartialEq for DialogResponse {
    fn eq(&self, other: &Self) -> (r: bool) {
        let ids = match (&self.id, &other.id) {
            (Some(x), Some(y)) => *x == *y,
            (None, None) => true,
            _ => false,
        };
        let replies = match (&self.reply, &other.reply) {
            (Some(x), Some(y)) => *x == *y,
            (None, None) => true,
            _ => false,
        };
        ids && replies
    }
}

impl vstd::std_specs::cmp::PartialEqSpecImpl for DialogResponse {
    open spec fn obeys_eq_spec() -> bool {
        true
    }

    open spec fn eq_spec(&self, other: &Self) -> bool {
        response_eq(*self, *other)
    }
}

/// Whether an optional stored id matches a requested one, by characters.
pub open spec fn id_matches(stored: Option<String>, wanted: Seq<char>) -> bool {
    match stored {
        Some(s) => s@ == wanted,
        None => false,
    }
}

impl DialogResponse {
    /// Check if the response is from the specified dialog.
    pub fn is(&self, id: &str) -> (r: bool)
        ensures
            r == id_matches(self.id, id@),
    {
        match &self.id {
            Some(s) => {
                let owned: String = id.to_owned();
                *s == owned
            },
            None => false,
        }
    }

    /// Check if the response contains a reply.
    pub fn is_reply(&self) -> (r: bool)
        ensures
            r == self.reply is Some,
    {
        self.reply.is_some()
    }

    /// Check if the response contains a reply from the specified dialog.
    pub fn is_reply_of(&self, id: &str) -> (r: bool)
        ensures
            r == (id_matches(self.id, id@) && self.reply is Some),
    {
        let from = self.is(id);
        from && self.reply.is_some()
    }

    /// Attempt to take the reply as a standard reply.  On a tag mismatch or
    /// an absent reply the whole response is handed back unchanged.
    pub fn reply_standard(self) -> (r: Result<StandardReply, DialogResponse>)
        ensures
            match self.reply {
                Some(ReplyValue::Standard(v)) => r == Ok::<StandardReply, DialogResponse>(v),
                _ => r == Err::<StandardReply, DialogResponse>(self),
            },
    {
        match self.reply {
            Some(ReplyValue::Standard(v)) => Ok(v),
            other => Err(
                DialogResponse { id: self.id, reply: other },
            ),
        }
    }

    /// Attempt to take the reply as a boolean.  See [`Self::reply_standard`].
    pub fn reply_flag(self) -> (r: Result<bool, DialogResponse>)
        ensures
            match self.reply {
                Some(ReplyValue::Flag(v)) => r == Ok::<bool, DialogResponse>(v),
                _ => r == Err::<bool, DialogResponse>(self),
            },
    {
        match self.reply {
            Some(ReplyValue::Flag(v)) => Ok(v),
            other => Err(
                DialogResponse { id: self.id, reply: other },
            ),
        }
    }

    /// Attempt to take the reply as text.  See [`Self::reply_standard`].
    pub fn reply_text(self) -> (r: Result<String, DialogResponse>)
        ensures
            match self.reply {
                Some(ReplyValue::Text(v)) => r == Ok::<String, DialogResponse>(v),
                _ => r == Err::<String, DialogResponse>(self),
            },
    {
        match self.reply {
            Some(ReplyValue::Text(v)) => Ok(v),
            other => Err(
                DialogResponse { id: self.id, reply: other },
            ),
        }
    }

    /// Attempt to take the reply as a number.  See [`Self::reply_standard`].
    pub fn reply_number(self) -> (r: Result<u64, DialogResponse>)
        ensures
            match self.reply {
                Some(ReplyValue::Number(v)) => r == Ok::<u64, DialogResponse>(v),
                _ => r == Err::<u64, DialogResponse>(self),
            },
    {
        match self.reply {
            Some(ReplyValue::Number(v)) => Ok(v),
            other => Err(
                DialogResponse { id: self.id, reply: other },
            ),
        }
    }
}

/// The scale on which the engine reports opacity: `OPACITY_FULL` is fully
/// opaque, `0` invisible.
pub const OPACITY_FULL: u32 = 1000;

/// Information about the current dialog update, handed to the dialog
/// contract once per frame.
#[derive(Debug)]
pub struct DialogContext {
    /// The updated dialog id if there is one.
    pub dialog_id: Option<String>,
    /// Whether entry and exit are animated.  If false, dialogs appear and
    /// disappear with no intermediate frames.
    pub animated: bool,
    /// The current opacity of the dialog, on the scale where
    /// `OPACITY_FULL` is fully opaque.
    pub opacity: u32,
    /// Whether the dialog has been closed.  True while the dialog is only
    /// fading out; the contract must not accept input then.
    pub already_closed: bool,
}

/// Whether two entries agree on everything but their dialog instance's
/// private state: identity, mask and reply transform.
pub open spec fn same_meta<D>(a: DialogDetails<D>, b: DialogDetails<D>) -> bool {
    a.id == b.id && a.mask == b.mask && a.handler == b.handler
}

/// The live frame outcome in which the front entry is still open: it
/// stays at the front with its metadata, the rest of the queue and the
/// empty fade slot are untouched, and no reply surfaces.
pub open spec fn still_open_outcome<D>(
    pre: Dialogs<D>,
    post: Dialogs<D>,
    r: Option<DialogResponse>,
) -> bool {
    &&& post.dialogs@.len() == pre.dialogs@.len()
    &&& same_meta(post.dialogs@[0], pre.dialogs@[0])
    &&& forall|i: int| 1 <= i < pre.dialogs@.len() ==> post.dialogs@[i] == pre.dialogs@[i]
    &&& post.fading_dialog is None
    &&& (r->0).reply is None
}

/// The live frame outcome in which the front entry replied: it is popped
/// from the queue, moves to the fade slot exactly when animation is
/// enabled, and what surfaces is its transform applied to some reply.
pub open spec fn replied_outcome<D>(
    pre: Dialogs<D>,
    post: Dialogs<D>,
    r: Option<DialogResponse>,
) -> bool {
    &&& post.dialogs@ == pre.dialogs@.skip(1)
    &&& (pre.animated ==> post.fading_dialog is Some
        && (post.fading_dialog->0).id == pre.dialogs@[0].id
        && (post.fading_dialog->0).mask == pre.dialogs@[0].mask)
    &&& (!pre.animated ==> post.fading_dialog is None)
    &&& exists|v: ReplyValue| (r->0).reply == #[trigger] spec_apply(pre.dialogs@[0].handler, v)
}

/// Whether some entry of the queue carries the given id.
pub open spec fn queue_has_id<D>(q: Seq<DialogDetails<D>>, id: Seq<char>) -> bool {
    exists|i: int| 0 <= i < q.len() && id_matches(#[trigger] q[i].id, id)
}

/// Copy an optional id.
fn clone_id(id: &Option<String>) -> (r: Option<String>)
    ensures
        r == *id,
{
    match id {
        Some(s) => Some(s.clone()),
        None => None,
    }
}

/// The overlay queue engine: an ordered queue of pending dialog entries,
/// a single fade slot for a just-closed entry, and the animation switch.
/// The host calls [`Dialogs::show`] once per redraw frame.
#[derive(Debug)]
pub struct Dialogs<D> {
    /// The pending entries, in render order: the front (index 0) is the
    /// entry that renders, or renders next.
    pub dialogs: VecDeque<DialogDetails<D>>,
    /// A retired entry kept alive only to finish its exit animation.
    /// While it is present the queue's front entry does not render.
    pub fading_dialog: Option<DialogDetails<D>>,
    /// Whether entry and exit are animated.  When false a closed entry
    /// disappears on the very next frame and the fade slot stays empty.
    pub animated: bool,
}

impl<D> Dialogs<D> {
    /// The engine's invariant: with animation disabled no entry can be
    /// fading out.
    pub open spec fn wf(self) -> bool {
        !self.animated ==> self.fading_dialog is None
    }

    /// Whether the overlay's animation target is "on": an entry is waiting
    /// and nothing is fading out.
    pub open spec fn target_on(self) -> bool {
        self.dialogs@.len() > 0 && self.fading_dialog is None
    }

    /// The opacity the overlay renders at this frame, given the animated
    /// opacity `input` reported by the host's interpolation primitive.
    /// Without animation the opacity snaps to full or zero.
    pub open spec fn spec_effective_opacity(self, input: u32) -> u32 {
        if self.dialogs@.len() == 0 && self.fading_dialog is None {
            0
        } else if self.animated {
            input
        } else if self.target_on() {
            OPACITY_FULL
        } else {
            0
        }
    }

    /// The mask color of the entry that would render this frame, if any.
    pub open spec fn spec_current_mask(self) -> Option<MaskColor> {
        match self.fading_dialog {
            Some(e) => e.mask,
            None => if self.dialogs@.len() > 0 {
                self.dialogs@[0].mask
            } else {
                None
            },
        }
    }

    /// An empty engine with animation enabled.
    pub fn new() -> (r: Self)
        ensures
            r.dialogs@ == Seq::<DialogDetails<D>>::empty(),
            r.fading_dialog is None,
            r.animated == true,
            r.wf(),
    {
        Dialogs { dialogs: VecDeque::new(), fading_dialog: None, animated: true }
    }

    /// Set whether the dialogs are animated.  Disabling animation also
    /// drops any entry that was still fading out.
    pub fn animated(self, is_animated: bool) -> (r: Self)
        ensures
            r.dialogs@ == self.dialogs@,
            r.animated == is_animated,
            is_animated ==> r.fading_dialog == self.fading_dialog,
            !is_animated ==> r.fading_dialog is None,
            r.wf(),
    {
        if is_animated {
            Dialogs { animated: true, ..self }
        } else {
            Dialogs { animated: false, fading_dialog: None, ..self }
        }
    }

    /// Show a dialog: append it to the back of the queue.
    pub fn add(&mut self, dialog: DialogDetails<D>)
        ensures
            final(self).dialogs@ == old(self).dialogs@.push(dialog),
            final(self).fading_dialog == old(self).fading_dialog,
            final(self).animated == old(self).animated,
    {
        self.dialogs.push_back(dialog);
    }

    /// Show a dialog immediately: it cuts into the front of the queue and
    /// becomes the very next active entry.
    pub fn add_immediate(&mut self, dialog: DialogDetails<D>)
        ensures
            final(self).dialogs@ == seq![dialog] + old(self).dialogs@,
            final(self).fading_dialog == old(self).fading_dialog,
            final(self).animated == old(self).animated,
    {
        self.dialogs.push_front(dialog);
    }

    /// Show a dialog unless an entry with the same id is already enqueued
    /// anywhere, in which case the queue is left unchanged.
    pub fn add_if_absent(&mut self, dialog: DialogDetails<D>)
        ensures
            final(self).fading_dialog == old(self).fading_dialog,
            final(self).animated == old(self).animated,
            (match dialog.id {
                Some(s) => queue_has_id(old(self).dialogs@, s@),
                None => false,
            }) ==> final(self).dialogs@ == old(self).dialogs@,
            !(match dialog.id {
                Some(s) => queue_has_id(old(self).dialogs@, s@),
                None => false,
            }) ==> final(self).dialogs@ == old(self).dialogs@.push(dialog),
    {
        let absent = match &dialog.id {
            Some(s) => !self.is_open(s.as_str()),
            None => true,
        };
        if absent {
            self.add(dialog);
        }
    }

    /// Check if a dialog with the given id is enqueued.
    pub fn is_open(&self, id: &str) -> (r: bool)
        ensures
            r == queue_has_id(self.dialogs@, id@),
    {
        let wanted: String = id.to_owned();
        let mut i: usize = 0;
        while i < self.dialogs.len()
            invariant
                0 <= i <= self.dialogs@.len(),
                wanted@ == id@,
                forall|j: int| 0 <= j < i ==> !id_matches(#[trigger] self.dialogs@[j].id, id@),
            decreases self.dialogs@.len() - i,
        {
            let found = match &self.dialogs[i].id {
                Some(s) => *s == wanted,
                None => false,
            };
            if found {
                return true;
            }
            i = i + 1;
        }
        false
    }

    /// Get the currently open dialog, the front of the queue.
    pub fn current_dialog(&self) -> (r: Option<&DialogDetails<D>>)
        ensures
            match r {
                Some(e) => self.dialogs@.len() > 0 && *e == self.dialogs@[0],
                None => self.dialogs@.len() == 0,
            },
    {
        if self.dialogs.len() > 0 {
            Some(&self.dialogs[0])
        } else {
            None
        }
    }

    /// Get the last dialog of the queue.
    pub fn last_dialog(&self) -> (r: Option<&DialogDetails<D>>)
        ensures
            match r {
                Some(e) => self.dialogs@.len() > 0 && *e == self.dialogs@[self.dialogs@.len() - 1],
                None => self.dialogs@.len() == 0,
            },
    {
        if self.dialogs.len() > 0 {
            Some(&self.dialogs[self.dialogs.len() - 1])
        } else {
            None
        }
    }

    /// Pop the current dialog.
    pub fn pop_front(&mut self) -> (r: Option<DialogDetails<D>>)
        ensures
            final(self).fading_dialog == old(self).fading_dialog,
            final(self).animated == old(self).animated,
            match r {
                Some(e) => old(self).dialogs@.len() > 0 && e == old(self).dialogs@[0]
                    && final(self).dialogs@ == old(self).dialogs@.skip(1),
                None => old(self).dialogs@.len() == 0 && final(self).dialogs@ == old(self).dialogs@,
            },
    {
        let r = self.dialogs.pop_front();
        proof {
            if old(self).dialogs@.len() > 0 {
                assert(self.dialogs@ =~= old(self).dialogs@.skip(1));
            }
        }
        r
    }

    /// Pop the last dialog.
    pub fn pop_back(&mut self) -> (r: Option<DialogDetails<D>>)
        ensures
            final(self).fading_dialog == old(self).fading_dialog,
            final(self).animated == old(self).animated,
            match r {
                Some(e) => old(self).dialogs@.len() > 0 && e == old(self).dialogs@[old(self).dialogs@.len() - 1]
                    && final(self).dialogs@ == old(self).dialogs@.drop_last(),
                None => old(self).dialogs@.len() == 0 && final(self).dialogs@ == old(self).dialogs@,
            },
    {
        let r = self.dialogs.pop_back();
        proof {
            if old(self).dialogs@.len() > 0 {
                assert(self.dialogs@ =~= old(self).dialogs@.drop_last());
            }
        }
        r
    }

    /// Get the number of dialogs in the queue.
    pub fn count(&self) -> (r: usize)
        ensures
            r == self.dialogs@.len(),
    {
        self.dialogs.len()
    }

    /// Get the dialog queue.
    pub fn dialogs(&self) -> (r: &VecDeque<DialogDetails<D>>)
        ensures
            *r == self.dialogs,
    {
        &self.dialogs
    }

    /// Get the dialog queue mutably.
    pub fn dialogs_mut(&mut self) -> (r: &mut VecDeque<DialogDetails<D>>)
        ensures
            *r == old(self).dialogs,
            final(self).dialogs == *final(r),
            final(self).fading_dialog == old(self).fading_dialog,
            final(self).animated == old(self).animated,
    {
        &mut self.dialogs
    }

    /// Whether a retired entry is still fading out.
    pub fn has_fading(&self) -> (r: bool)
        ensures
            r == (self.fading_dialog is Some),
    {
        self.fading_dialog.is_some()
    }

    /// Whether the host's animation primitive should be driven toward
    /// "shown" this frame.
    pub fn is_on(&self) -> (r: bool)
        ensures
            r == self.target_on(),
    {
        self.dialogs.len() > 0 && self.fading_dialog.is_none()
    }

    /// The opacity the overlay renders at this frame, given the animated
    /// opacity reported by the host.
    pub fn effective_opacity(&self, input: u32) -> (r: u32)
        ensures
            r == self.spec_effective_opacity(input),
    {
        if self.dialogs.len() == 0 && self.fading_dialog.is_none() {
            0
        } else if self.animated {
            input
        } else if self.dialogs.len() > 0 && self.fading_dialog.is_none() {
            OPACITY_FULL
        } else {
            0
        }
    }

    /// The mask color of the entry that renders this frame, if any: the
    /// fading entry's, else the front entry's.
    pub fn current_mask(&self) -> (r: Option<MaskColor>)
        ensures
            r == self.spec_current_mask(),
    {
        match &self.fading_dialog {
            Some(e) => e.mask,
            None => {
                if self.dialogs.len() > 0 {
                    self.dialogs[0].mask
                } else {
                    None
                }
            },
        }
    }

    /// Drive one render frame.
    ///
    /// `opacity` is the value the host's animation-interpolation primitive
    /// reports for the target [`Dialogs::is_on`]; it is ignored when
    /// animation is disabled.  Returns `None` when there is nothing to
    /// show; otherwise a response naming the rendered entry, carrying a
    /// reply exactly when the live entry finished this frame and its
    /// transform lets the payload surface.
    ///
    /// At most one entry receives a render call per frame: the fading
    /// entry if one exists (non-interactively, any reply discarded), else
    /// the front of the live queue.
    pub fn show<F>(&mut self, frame: &mut F, opacity: u32) -> (r: Option<DialogResponse>) where
        D: Dialog<F>

        requires
            old(self).wf(),
        ensures
            final(self).animated == old(self).animated,
            final(self).wf(),
            // nothing visible: no entry renders, a spent fade slot is dropped
            old(self).spec_effective_opacity(opacity) == 0 ==> {
                &&& r is None
                &&& final(self).dialogs@ == old(self).dialogs@
                &&& final(self).fading_dialog is None
            },
            // a retired entry is fading out: it renders non-interactively,
            // keeps its metadata, and any reply it produces is discarded;
            // the live queue is untouched
            (old(self).spec_effective_opacity(opacity) != 0 && old(self).fading_dialog is Some)
                ==> {
                &&& final(self).dialogs@ == old(self).dialogs@
                &&& final(self).fading_dialog is Some
                &&& same_meta((final(self).fading_dialog)->0, (old(self).fading_dialog)->0)
                &&& r is Some
                &&& (r->0).id == (old(self).fading_dialog->0).id
                &&& (r->0).reply is None
            },
            (old(self).spec_effective_opacity(opacity) != 0 && old(self).fading_dialog is None)
                ==> {
                &&& old(self).dialogs@.len() > 0
                &&& r is Some
                &&& (r->0).id == old(self).dialogs@[0].id
                &&& (still_open_outcome(*old(self), *final(self), r) || replied_outcome(
                    *old(self),
                    *final(self),
                    r,
                ))
            },
    {
        let queue_empty = self.dialogs.len() == 0;
        let how_on: u32 = if queue_empty && self.fading_dialog.is_none() {
            0
        } else if self.animated {
            opacity
        } else if !queue_empty && self.fading_dialog.is_none() {
            OPACITY_FULL
        } else {
            0
        };
        if how_on == 0 {
            // the only path that retires a fading entry; the host should
            // repaint once so the mask disappears
            self.fading_dialog = None;
            return None;
        }
        let fading = self.fading_dialog.take();
        match fading {
            Some(mut f) => {
                let dctx = DialogContext {
                    dialog_id: clone_id(&f.id),
                    animated: self.animated,
                    opacity: how_on,
                    already_closed: true,
                };
                // render mid-fade for cosmetic continuity; a reply from an
                // already-retired contract is an explicit no-op
                let _discarded = f.dialog.show(frame, &dctx);
                let resp = DialogResponse { id: clone_id(&f.id), reply: None };
                self.fading_dialog = Some(f);
                Some(resp)
            },
            None => {
                let popped = self.dialogs.pop_front();
                proof {
                    assert(old(self).dialogs@.len() > 0);
                }
                let mut front = popped.unwrap();
                let dctx = DialogContext {
                    dialog_id: clone_id(&front.id),
                    animated: self.animated,
                    opacity: how_on,
                    already_closed: false,
                };
                let outcome = front.dialog.show(frame, &dctx);
                match outcome {
                    Some(v) => {
                        let resp_id = clone_id(&front.id);
                        let DialogDetails { dialog, mask, id, handler } = front;
                        let payload = apply_reply_map(handler, v);
                        if self.animated {
                            // the transform was consumed above; the retired
                            // entry carries none while it fades out
                            self.fading_dialog = Some(
                                DialogDetails { dialog, mask, id, handler: ReplyMap::Keep },
                            );
                        }
                        proof {
                            assert(self.dialogs@ =~= old(self).dialogs@.skip(1));
                        }
                        Some(DialogResponse { id: resp_id, reply: payload })
                    },
                    None => {
                        let resp = DialogResponse { id: clone_id(&front.id), reply: None };
                        self.dialogs.push_front(front);
                        Some(resp)
                    },
                }
            },
        }
    }
}

/// At most one dialog is ever actively receiving render calls: while a
/// retired entry is fading out the animation target is off, and by
/// [`Dialogs::show`]'s contract the live queue is left untouched that
/// frame — no live entry renders beside the fading one.
pub proof fn lemma_fading_excludes_live<D>(s: Dialogs<D>)
    requires
        s.fading_dialog is Some,
    ensures
        !s.target_on(),
{
}

/// With animation disabled the opacity snaps: full while an entry waits,
/// zero otherwise, never in between — and the fade slot is never
/// populated, so a closed entry is gone from visibility on the very next
/// frame.
pub proof fn lemma_disabled_animation_snaps<D>(s: Dialogs<D>, input: u32)
    requires
        s.wf(),
        !s.animated,
    ensures
        s.fading_dialog is None,
        s.target_on() ==> s.spec_effective_opacity(input) == OPACITY_FULL,
        !s.target_on() ==> s.spec_effective_opacity(input) == 0,
{
}

/// Submission order: a normal submission lands behind every entry already
/// enqueued, which all keep their positions; an immediate submission
/// becomes the front — the very next entry to render — and shifts the
/// rest back by one.  (A de-duplicated submission whose id is already
/// present leaves the queue unchanged: see `add_if_absent`.)
pub proof fn lemma_submission_order<D>(q: Seq<DialogDetails<D>>, e: DialogDetails<D>)
    ensures
        q.push(e)[q.len() as int] == e,
        forall|i: int| 0 <= i < q.len() ==> q.push(e)[i] == q[i],
        (seq![e] + q)[0] == e,
        forall|i: int| 0 <= i < q.len() ==> (seq![e] + q)[i + 1] == q[i],
{
}

impl<D> DialogDetails<D> {
    /// Show the dialog: append this entry to the engine's queue.
    pub fn show(self, dialogs: &mut Dialogs<D>)
        ensures
            final(dialogs).dialogs@ == old(dialogs).dialogs@.push(self),
            final(dialogs).fading_dialog == old(dialogs).fading_dialog,
            final(dialogs).animated == old(dialogs).animated,
    {
        dialogs.add(self);
    }

    /// Show the dialog unless one with the same id is already enqueued.
    pub fn show_if_absent(self, dialogs: &mut Dialogs<D>)
        ensures
            final(dialogs).fading_dialog == old(dialogs).fading_dialog,
            final(dialogs).animated == old(dialogs).animated,
            (match self.id {
                Some(s) => queue_has_id(old(dialogs).dialogs@, s@),
                None => false,
            }) ==> final(dialogs).dialogs@ == old(dialogs).dialogs@,
            !(match self.id {
                Some(s) => queue_has_id(old(dialogs).dialogs@, s@),
                None => false,
            }) ==> final(dialogs).dialogs@ == old(dialogs).dialogs@.push(self),
    {
        dialogs.add_if_absent(self);
    }
}

} // verus!
