//! The `Dialog` contract that every dialog variant implements, and the
//! `DialogDetails` entry that wraps a dialog with its identity, mask and
//! reply transform.

use vstd::prelude::*;

use crate::dialogs::DialogContext;
use crate::dialogs::ReplyValue;
use crate::standard_dialog::StandardReply;

verus! {

/// Represents a dialog: one render step per frame, returning a reply on
/// the frame the user's action finalizes the dialog and `None` before.
/// `F` is the host's frame handle, through which the implementor draws.
///
/// After a reply is returned the dialog is retired: the engine never
/// invokes it as live again, and on fade-out frames `dctx.already_closed`
/// is true and any reply is discarded.
pub trait Dialog<F> {
    /// Render one frame and report the user's decision, if any.
    fn show(&mut self, frame: &mut F, dctx: &DialogContext) -> Option<ReplyValue>;
}

/// A mask color: the semi-transparent paint layer that dims and blocks the
/// background while a dialog is shown.
#[derive(Debug, Clone, Copy, PartialEq, Eq, Structural, Hash)]
pub struct MaskColor {
    pub red: u8,
    pub green: u8,
    pub blue: u8,
    pub alpha: u8,
}

/// The default mask: black at half opacity.
pub open spec fn default_mask() -> MaskColor {
    MaskColor { red: 0, green: 0, blue: 0, alpha: 0x80 }
}

impl MaskColor {
    /// Black with the given alpha.
    pub fn from_black_alpha(alpha: u8) -> (r: MaskColor)
        ensures
            r == (MaskColor { red: 0, green: 0, blue: 0, alpha }),
    {
        MaskColor { red: 0, green: 0, blue: 0, alpha }
    }
}

/// Whether an erased reply counts as an affirmative answer: only a
/// standard affirmative reply does.
pub open spec fn reply_accepted(v: ReplyValue) -> bool {
    match v {
        ReplyValue::Standard(s) => s.spec_accepted(),
        _ => false,
    }
}

/// Whether an erased reply counts as a negative answer.
pub open spec fn reply_rejected(v: ReplyValue) -> bool {
    match v {
        ReplyValue::Standard(s) => s.spec_rejected(),
        _ => false,
    }
}

/// The reply transform attached to an entry, applied exactly once, on the
/// frame the entry's dialog produces its reply.
#[derive(Debug, Clone)]
pub enum ReplyMap {
    /// No handler: the reply surfaces to the host unchanged.
    Keep,
    /// A host-side handler consumes the reply: the payload surfacing to
    /// the host is emptied, signaling "handled, but here is which id closed".
    Swallow,
    /// Map to a boolean: whether the dialog was accepted.
    AcceptedFlag,
    /// Map to a boolean: whether the dialog was rejected.
    RejectedFlag,
    /// Map to the first value when accepted, to the second otherwise.
    AcceptedChoice(ReplyValue, ReplyValue),
}

/// What surfaces to the host when a transform is applied to a reply.
pub open spec fn spec_apply(m: ReplyMap, v: ReplyValue) -> Option<ReplyValue> {
    match m {
        ReplyMap::Keep => Some(v),
        ReplyMap::Swallow => None,
        ReplyMap::AcceptedFlag => Some(ReplyValue::Flag(reply_accepted(v))),
        ReplyMap::RejectedFlag => Some(ReplyValue::Flag(reply_rejected(v))),
        ReplyMap::AcceptedChoice(a, r) => Some(
            if reply_accepted(v) {
                a
            } else {
                r
            },
        ),
    }
}

/// Apply a reply transform.  The transform is consumed: it can be applied
/// at most once.
pub fn apply_reply_map(m: ReplyMap, v: ReplyValue) -> (r: Option<ReplyValue>)
    ensures
        r == spec_apply(m, v),
{
    match m {
        ReplyMap::Keep => Some(v),
        ReplyMap::Swallow => None,
        ReplyMap::AcceptedFlag => Some(ReplyValue::Flag(value_accepted(&v))),
        ReplyMap::RejectedFlag => Some(ReplyValue::Flag(value_rejected(&v))),
        ReplyMap::AcceptedChoice(a, r) => Some(
            if value_accepted(&v) {
                a
            } else {
                r
            },
        ),
    }
}

fn value_accepted(v: &ReplyValue) -> (r: bool)
    ensures
        r == reply_accepted(*v),
{
    match v {
        ReplyValue::Standard(s) => s.accepted(),
        _ => false,
    }
}

fn value_rejected(v: &ReplyValue) -> (r: bool)
    ensures
        r == reply_rejected(*v),
{
    match v {
        ReplyValue::Standard(s) => s.rejected(),
        _ => false,
    }
}

/// Details of a dialog to be shown and replied: one entry of the overlay
/// queue.
#[derive(Debug)]
pub struct DialogDetails<D> {
    /// The dialog contract instance that renders each frame.
    pub dialog: D,
    /// The background mask, or `None` to disable dimming for this entry.
    pub mask: Option<MaskColor>,
    /// A stable key for lookup, de-duplication and reply routing.
    pub id: Option<String>,
    /// The reply transform applied when the dialog replies.
    pub handler: ReplyMap,
}

impl<D> DialogDetails<D> {
    /// Wrap a dialog with the default mask, no identity and no transform.
    pub fn new(dialog: D) -> (r: Self)
        ensures
            r.dialog == dialog,
            r.mask == Some(default_mask()),
            r.id is None,
            r.handler is Keep,
    {
        DialogDetails {
            dialog,
            mask: Some(MaskColor::from_black_alpha(0x80)),
            id: None,
            handler: ReplyMap::Keep,
        }
    }

    /// Attach a reply transform, replacing any previous one.
    pub fn on_reply(self, handler: ReplyMap) -> (r: Self)
        ensures
            r.dialog == self.dialog,
            r.mask == self.mask,
            r.id == self.id,
            r.handler == handler,
    {
        DialogDetails { handler, ..self }
    }

    /// Set whether to show a mask over the background.
    /// The mask will intercept all user interactions with the background.
    pub fn with_mask(self, mask: Option<MaskColor>) -> (r: Self)
        ensures
            r.dialog == self.dialog,
            r.mask == mask,
            r.id == self.id,
            r.handler == self.handler,
    {
        DialogDetails { mask, ..self }
    }

    /// Check if a mask is set and return it if there is.
    pub fn mask(&self) -> (r: Option<MaskColor>)
        ensures
            r == self.mask,
    {
        self.mask
    }

    /// Set the id of the dialog, used to identify its reply and to
    /// de-duplicate submissions.
    pub fn with_id(self, id: &str) -> (r: Self)
        ensures
            r.dialog == self.dialog,
            r.mask == self.mask,
            r.id matches Some(s) && s@ == id@,
            r.handler == self.handler,
    {
        DialogDetails { id: Some(id.to_owned()), ..self }
    }

    /// Check if an id is set and return it if there is.
    pub fn id(&self) -> (r: &Option<String>)
        ensures
            *r == self.id,
    {
        &self.id
    }

    /// Map to an entry whose reply is a boolean: whether the dialog was
    /// accepted.
    pub fn map_accepted(self) -> (r: Self)
        ensures
            r.dialog == self.dialog,
            r.mask == self.mask,
            r.id == self.id,
            r.handler is AcceptedFlag,
    {
        self.on_reply(ReplyMap::AcceptedFlag)
    }

    /// Map to an entry whose reply is a boolean: whether the dialog was
    /// rejected.
    pub fn map_rejected(self) -> (r: Self)
        ensures
            r.dialog == self.dialog,
            r.mask == self.mask,
            r.id == self.id,
            r.handler is RejectedFlag,
    {
        self.on_reply(ReplyMap::RejectedFlag)
    }

    /// Map to an entry whose reply is `accepted` when the dialog was
    /// accepted and `rejected` otherwise.
    pub fn map_accepted_or(self, accepted: ReplyValue, rejected: ReplyValue) -> (r: Self)
        ensures
            r.dialog == self.dialog,
            r.mask == self.mask,
            r.id == self.id,
            r.handler == ReplyMap::AcceptedChoice(accepted, rejected),
    {
        self.on_reply(ReplyMap::AcceptedChoice(accepted, rejected))
    }
}
} // verus!
