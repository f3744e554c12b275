//! Standard dialog variants and the localized built-in replies.

use vstd::prelude::*;

use crate::dialog_details::Dialog;
use crate::dialog_details::DialogDetails;
use crate::dialog_details::ReplyMap;
use crate::dialog_details::default_mask;
use crate::dialogs::DialogContext;
use crate::dialogs::Dialogs;
use crate::dialogs::ReplyValue;

verus! {

/// Standard dialog replies.
/// Can be translated to the current locale.
#[derive(Debug, Clone, Copy, PartialEq, Eq, Structural, Hash)]
pub enum StandardReply {
    Okay,
    Cancel,
    Yes,
    No,
}

impl StandardReply {
    /// Whether this reply counts as an affirmative answer.
    pub open spec fn spec_accepted(self) -> bool {
        self == StandardReply::Okay || self == StandardReply::Yes
    }

    /// Whether this reply counts as a negative answer.
    pub open spec fn spec_rejected(self) -> bool {
        self == StandardReply::Cancel || self == StandardReply::No
    }

    pub fn accepted(self) -> (r: bool)
        ensures
            r == self.spec_accepted(),
    {
        match self {
            StandardReply::Okay | StandardReply::Yes => true,
            _ => false,
        }
    }

    pub fn rejected(self) -> (r: bool)
        ensures
            r == self.spec_rejected(),
    {
        match self {
            StandardReply::Cancel | StandardReply::No => true,
            _ => false,
        }
    }
}

/// The fixed translation table, as a function from built-in reply and locale
/// tag to the mapped button text.  A locale outside the ten supported tags has
/// no translation.
pub open spec fn translation_of(r: StandardReply, locale: Seq<char>) -> Option<Seq<char>> {
    if locale == "en-US"@ {
        Some(
            match r {
                StandardReply::Okay => "OK"@,
                StandardReply::Cancel => "Cancel"@,
                StandardReply::Yes => "Yes"@,
                StandardReply::No => "No"@,
            },
        )
    } else if locale == "zh-CN"@ {
        Some(
            match r {
                StandardReply::Okay => "确定"@,
                StandardReply::Cancel => "取消"@,
                StandardReply::Yes => "是"@,
                StandardReply::No => "否"@,
            },
        )
    } else if locale == "zh-TW"@ {
        Some(
            match r {
                StandardReply::Okay => "確定"@,
                StandardReply::Cancel => "取消"@,
                StandardReply::Yes => "是"@,
                StandardReply::No => "否"@,
            },
        )
    } else if locale == "es"@ {
        Some(
            match r {
                StandardReply::Okay => "OK"@,
                StandardReply::Cancel => "Cancelar"@,
                StandardReply::Yes => "Sí"@,
                StandardReply::No => "No"@,
            },
        )
    } else if locale == "fr"@ {
        Some(
            match r {
                StandardReply::Okay => "D'accord"@,
                StandardReply::Cancel => "Annuler"@,
                StandardReply::Yes => "Oui"@,
                StandardReply::No => "Non"@,
            },
        )
    } else if locale == "it"@ {
        Some(
            match r {
                StandardReply::Okay => "OK"@,
                StandardReply::Cancel => "Annulla"@,
                StandardReply::Yes => "Sì"@,
                StandardReply::No => "No"@,
            },
        )
    } else if locale == "ja"@ {
        Some(
            match r {
                StandardReply::Okay => "はい"@,
                StandardReply::Cancel => "キャンセル"@,
                StandardReply::Yes => "はい"@,
                StandardReply::No => "いいえ"@,
            },
        )
    } else if locale == "pt-BR"@ {
        Some(
            match r {
                StandardReply::Okay => "OK"@,
                StandardReply::Cancel => "Cancelar"@,
                StandardReply::Yes => "Sim"@,
                StandardReply::No => "Não"@,
            },
        )
    } else if locale == "ru"@ {
        Some(
            match r {
                StandardReply::Okay => "Хорошо"@,
                StandardReply::Cancel => "Отмена"@,
                StandardReply::Yes => "Да"@,
                StandardReply::No => "Нет"@,
            },
        )
    } else if locale == "tr"@ {
        Some(
            match r {
                StandardReply::Okay => "Tamam"@,
                StandardReply::Cancel => "İptal"@,
                StandardReply::Yes => "Evet"@,
                StandardReply::No => "Hayır"@,
            },
        )
    } else {
        None
    }
}

/// The text of the table's first entry (English), used when no preferred
/// locale is recognized.
pub open spec fn fallback_of(r: StandardReply) -> Seq<char> {
    match r {
        StandardReply::Okay => "OK"@,
        StandardReply::Cancel => "Cancel"@,
        StandardReply::Yes => "Yes"@,
        StandardReply::No => "No"@,
    }
}

/// The localized text for `r` under the preference list `locales`: the
/// translation of the first recognized locale, or the fallback text when
/// none is recognized, scanning from position `i`.
pub open spec fn localized_from(r: StandardReply, locales: Seq<Seq<char>>, i: int) -> Seq<char>
    decreases locales.len() - i,
{
    if i < 0 || i >= locales.len() {
        fallback_of(r)
    } else {
        match translation_of(r, locales[i]) {
            Some(t) => t,
            None => localized_from(r, locales, i + 1),
        }
    }
}

/// The localized text for `r` under the full preference list `locales`.
pub open spec fn localized(r: StandardReply, locales: Seq<Seq<char>>) -> Seq<char> {
    localized_from(r, locales, 0)
}

/// Whether `s` is one of the texts that the translation table can produce
/// for `r`.
pub open spec fn is_standard_text(r: StandardReply, s: Seq<char>) -> bool {
    exists|l: Seq<char>| translation_of(r, l) == Some(s)
}

/// Compare an owned string against a literal.
fn eq_str(a: &String, b: &str) -> (r: bool)
    ensures
        r == (a@ == b@),
{
    let owned: String = b.to_owned();
    *a == owned
}

/// Look a locale tag up in the fixed translation table for `reply`.
pub fn find_translation(reply: StandardReply, locale: &String) -> (r: Option<String>)
    ensures
        match r {
            Some(t) => translation_of(reply, locale@) == Some(t@),
            None => translation_of(reply, locale@) is None,
        },
{
    if eq_str(locale, "en-US") {
        Some(
            match reply {
                StandardReply::Okay => "OK".to_owned(),
                StandardReply::Cancel => "Cancel".to_owned(),
                StandardReply::Yes => "Yes".to_owned(),
                StandardReply::No => "No".to_owned(),
            },
        )
    } else if eq_str(locale, "zh-CN") {
        Some(
            match reply {
                StandardReply::Okay => "确定".to_owned(),
                StandardReply::Cancel => "取消".to_owned(),
                StandardReply::Yes => "是".to_owned(),
                StandardReply::No => "否".to_owned(),
            },
        )
    } else if eq_str(locale, "zh-TW") {
        Some(
            match reply {
                StandardReply::Okay => "確定".to_owned(),
                StandardReply::Cancel => "取消".to_owned(),
                StandardReply::Yes => "是".to_owned(),
                StandardReply::No => "否".to_owned(),
            },
        )
    } else if eq_str(locale, "es") {
        Some(
            match reply {
                StandardReply::Okay => "OK".to_owned(),
                StandardReply::Cancel => "Cancelar".to_owned(),
                StandardReply::Yes => "Sí".to_owned(),
                StandardReply::No => "No".to_owned(),
            },
        )
    } else if eq_str(locale, "fr") {
        Some(
            match reply {
                StandardReply::Okay => "D'accord".to_owned(),
                StandardReply::Cancel => "Annuler".to_owned(),
                StandardReply::Yes => "Oui".to_owned(),
                StandardReply::No => "Non".to_owned(),
            },
        )
    } else if eq_str(locale, "it") {
        Some(
            match reply {
                StandardReply::Okay => "OK".to_owned(),
                StandardReply::Cancel => "Annulla".to_owned(),
                StandardReply::Yes => "Sì".to_owned(),
                StandardReply::No => "No".to_owned(),
            },
        )
    } else if eq_str(locale, "ja") {
        Some(
            match reply {
                StandardReply::Okay => "はい".to_owned(),
                StandardReply::Cancel => "キャンセル".to_owned(),
                StandardReply::Yes => "はい".to_owned(),
                StandardReply::No => "いいえ".to_owned(),
            },
        )
    } else if eq_str(locale, "pt-BR") {
        Some(
            match reply {
                StandardReply::Okay => "OK".to_owned(),
                StandardReply::Cancel => "Cancelar".to_owned(),
                StandardReply::Yes => "Sim".to_owned(),
                StandardReply::No => "Não".to_owned(),
            },
        )
    } else if eq_str(locale, "ru") {
        Some(
            match reply {
                StandardReply::Okay => "Хорошо".to_owned(),
                StandardReply::Cancel => "Отмена".to_owned(),
                StandardReply::Yes => "Да".to_owned(),
                StandardReply::No => "Нет".to_owned(),
            },
        )
    } else if eq_str(locale, "tr") {
        Some(
            match reply {
                StandardReply::Okay => "Tamam".to_owned(),
                StandardReply::Cancel => "İptal".to_owned(),
                StandardReply::Yes => "Evet".to_owned(),
                StandardReply::No => "Hayır".to_owned(),
            },
        )
    } else {
        None
    }
}

/// The English fallback text for `reply`.
fn fallback_text(reply: StandardReply) -> (r: String)
    ensures
        r@ == fallback_of(reply),
{
    match reply {
        StandardReply::Okay => "OK".to_owned(),
        StandardReply::Cancel => "Cancel".to_owned(),
        StandardReply::Yes => "Yes".to_owned(),
        StandardReply::No => "No".to_owned(),
    }
}

/// Localize `reply` under an explicit, ordered locale preference list: the
/// first recognized locale's mapped text wins, and an entirely unrecognized
/// list falls back to the first table entry's (English) text.
pub fn localize_in(reply: StandardReply, locales: &Vec<String>) -> (r: String)
    ensures
        r@ == localized(reply, locales.deep_view()),
{
    let ghost dv = locales.deep_view();
    let mut i: usize = 0;
    while i < locales.len()
        invariant
            0 <= i <= locales.len(),
            dv == locales.deep_view(),
            dv.len() == locales.len(),
            localized_from(reply, dv, 0) == localized_from(reply, dv, i as int),
        decreases locales.len() - i,
    {
        proof {
            assert(dv[i as int] == locales@[i as int]@);
        }
        match find_translation(reply, &locales[i]) {
            Some(t) => {
                return t;
            },
            None => {
                i = i + 1;
            },
        }
    }
    fallback_text(reply)
}

/// Every localized text, under any preference list, is a text that the
/// table can produce for the reply.
proof fn lemma_localized_from_is_text(r: StandardReply, locales: Seq<Seq<char>>, i: int)
    ensures
        is_standard_text(r, localized_from(r, locales, i)),
    decreases locales.len() - i,
{
    if i < 0 || i >= locales.len() {
        assert(translation_of(r, "en-US"@) == Some(fallback_of(r)));
    } else {
        if translation_of(r, locales[i]) is Some {
        } else {
            lemma_localized_from_is_text(r, locales, i + 1);
        }
    }
}

/// A preference list with no recognized locale localizes to the first
/// table entry's text.
pub proof fn lemma_localized_fallback(r: StandardReply, locales: Seq<Seq<char>>)
    requires
        forall|i: int| 0 <= i < locales.len() ==> #[trigger] translation_of(r, locales[i]) is None,
    ensures
        localized(r, locales) == fallback_of(r),
{
    lemma_localized_fallback_from(r, locales, 0);
}

proof fn lemma_localized_fallback_from(r: StandardReply, locales: Seq<Seq<char>>, i: int)
    requires
        forall|j: int| 0 <= j < locales.len() ==> #[trigger] translation_of(r, locales[j]) is None,
    ensures
        localized_from(r, locales, i) == fallback_of(r),
    decreases locales.len() - i,
{
    if i < 0 || i >= locales.len() {
    } else {
        lemma_localized_fallback_from(r, locales, i + 1);
    }
}

/// The first recognized locale in the preference list decides the
/// localized text.
pub proof fn lemma_localized_first_match(r: StandardReply, locales: Seq<Seq<char>>, i: int)
    requires
        0 <= i < locales.len(),
        translation_of(r, locales[i]) is Some,
        forall|j: int| 0 <= j < i ==> #[trigger] translation_of(r, locales[j]) is None,
    ensures
        Some(localized(r, locales)) == translation_of(r, locales[i]),
{
    lemma_localized_first_match_from(r, locales, i, 0);
}

proof fn lemma_localized_first_match_from(r: StandardReply, locales: Seq<Seq<char>>, i: int, k: int)
    requires
        0 <= k <= i < locales.len(),
        translation_of(r, locales[i]) is Some,
        forall|j: int| 0 <= j < i ==> #[trigger] translation_of(r, locales[j]) is None,
    ensures
        Some(localized_from(r, locales, k)) == translation_of(r, locales[i]),
    decreases i - k,
{
    if k == i {
    } else {
        lemma_localized_first_match_from(r, locales, i, k + 1);
    }
}

/// Relies on sys_locale::get_locales: the host system's ordered locale
/// preference list.  The result depends on the environment, so nothing is
/// promised of its contents.
#[verifier::external_body]
fn system_locales() -> (r: Vec<String>)
{
    sys_locale::get_locales().collect()
}

impl StandardReply {
    /// The reply's button label under the system locale preference list,
    /// falling back to English when no preference is recognized.
    pub fn localize(self) -> (r: String)
        ensures
            is_standard_text(self, r@),
    {
        let locales = system_locales();
        let r = localize_in(self, &locales);
        proof {
            lemma_localized_from_is_text(self, locales.deep_view(), 0);
        }
        r
    }
}

impl StandardReply {
    /// The reply as a ready-made button: its localized label paired with
    /// the reply itself.
    pub fn button(self) -> (r: (String, ReplyValue))
        ensures
            is_standard_text(self, r.0@),
            r.1 == ReplyValue::Standard(self),
    {
        (self.localize(), ReplyValue::Standard(self))
    }
}

/// A standard dialog button: its label paired with the reply it produces.
pub type StandardButton = (String, ReplyValue);

/// The icon a standard dialog shows, one per canned kind.  The host maps
/// each to its artwork.
#[derive(Debug, Clone, Copy, PartialEq, Eq, Structural, Hash)]
pub enum DialogIcon {
    Info,
    Success,
    Confirm,
    Warning,
    Error,
}

/// What the user did to a standard dialog's widgets in one frame: one
/// flag per declared button, in declaration order, and whether the
/// window-level close affordance was used.
#[derive(Debug)]
pub struct StandardOutcome {
    /// Whether each declared button was clicked this frame.
    pub clicked: Vec<bool>,
    /// Whether the window's close affordance was used this frame.
    pub closed: bool,
}

/// The host's drawing surface for standard dialogs: draws the frame and
/// reports what the user did.  Nothing is promised of the outcome; the
/// user may do anything.
pub trait StandardSurface {
    /// Draw one frame of the dialog and collect the user's actions.
    fn draw_standard(&mut self, dialog: &StandardDialog, dctx: &DialogContext) -> StandardOutcome;
}

/// The highest index below `n` whose flag is set: buttons are rendered in
/// reverse declaration order, right to left, and the first clicked button
/// in that scanning order wins.
pub open spec fn last_clicked_before(clicked: Seq<bool>, n: int) -> Option<int>
    decreases n,
{
    if n <= 0 {
        None
    } else if clicked[n - 1] {
        Some(n - 1)
    } else {
        last_clicked_before(clicked, n - 1)
    }
}

/// The reply a standard dialog delivers for one frame's outcome: the
/// clicked button scanning in reverse declaration order; else, on a
/// window-level close, the last-declared button's reply; else none.
pub open spec fn spec_respond(
    buttons: Seq<(String, ReplyValue)>,
    clicked: Seq<bool>,
    closed: bool,
) -> Option<ReplyValue> {
    let n = if buttons.len() <= clicked.len() {
        buttons.len() as int
    } else {
        clicked.len() as int
    };
    match last_clicked_before(clicked, n) {
        Some(i) => Some(buttons[i].1),
        None => if closed && buttons.len() > 0 {
            Some(buttons[buttons.len() - 1].1)
        } else {
            None
        },
    }
}

/// A standard dialog: a canned prompt with a title, a body, an icon and
/// a declared button set.
#[derive(Debug)]
pub struct StandardDialog {
    pub title: String,
    pub content: String,
    pub image: Option<DialogIcon>,
    pub buttons: Vec<StandardButton>,
}

impl StandardDialog {
    /// An empty dialog with no icon and no buttons.
    pub fn new(title: &str, content: &str) -> (d: Self)
        ensures
            d.title@ == title@,
            d.content@ == content@,
            d.image is None,
            d.buttons@.len() == 0,
    {
        StandardDialog {
            title: title.to_owned(),
            content: content.to_owned(),
            image: None,
            buttons: Vec::new(),
        }
    }

    /// Set the dialog title.
    pub fn title(self, title: &str) -> (d: Self)
        ensures
            d.title@ == title@,
            d.content == self.content,
            d.image == self.image,
            d.buttons == self.buttons,
    {
        StandardDialog { title: title.to_owned(), ..self }
    }

    /// Set the dialog content.
    pub fn content(self, content: &str) -> (d: Self)
        ensures
            d.title == self.title,
            d.content@ == content@,
            d.image == self.image,
            d.buttons == self.buttons,
    {
        StandardDialog { content: content.to_owned(), ..self }
    }

    /// Set the dialog icon.
    pub fn image(self, image: DialogIcon) -> (d: Self)
        ensures
            d.title == self.title,
            d.content == self.content,
            d.image == Some(image),
            d.buttons == self.buttons,
    {
        StandardDialog { image: Some(image), ..self }
    }

    /// Set the dialog buttons.
    pub fn buttons(self, buttons: Vec<StandardButton>) -> (d: Self)
        ensures
            d.title == self.title,
            d.content == self.content,
            d.image == self.image,
            d.buttons == buttons,
    {
        StandardDialog { buttons, ..self }
    }

    /// Add a button to the dialog.
    pub fn push_button(self, button: StandardButton) -> (d: Self)
        ensures
            d.title == self.title,
            d.content == self.content,
            d.image == self.image,
            d.buttons@ == self.buttons@.push(button),
    {
        let mut buttons = self.buttons;
        buttons.push(button);
        StandardDialog { buttons, ..self }
    }

    /// Create an info dialog.
    pub fn info(title: &str, content: &str) -> (d: Self)
        ensures
            d.title@ == title@,
            d.content@ == content@,
            d.image == Some(DialogIcon::Info),
            acknowledge_buttons(d.buttons@),
    {
        StandardDialog::new(title, content).image(DialogIcon::Info).push_button(
            StandardReply::Okay.button(),
        )
    }

    /// Create a success dialog.
    pub fn success(title: &str, content: &str) -> (d: Self)
        ensures
            d.title@ == title@,
            d.content@ == content@,
            d.image == Some(DialogIcon::Success),
            acknowledge_buttons(d.buttons@),
    {
        StandardDialog::new(title, content).image(DialogIcon::Success).push_button(
            StandardReply::Okay.button(),
        )
    }

    /// Create a confirmation dialog: declared buttons are affirm then
    /// decline, so a window-level close answers with the decline reply.
    pub fn confirm(title: &str, content: &str) -> (d: Self)
        ensures
            d.title@ == title@,
            d.content@ == content@,
            d.image == Some(DialogIcon::Confirm),
            confirm_buttons(d.buttons@),
    {
        StandardDialog::new(title, content).image(DialogIcon::Confirm).push_button(
            StandardReply::Yes.button(),
        ).push_button(StandardReply::No.button())
    }

    /// Create a warning dialog.
    pub fn warning(title: &str, content: &str) -> (d: Self)
        ensures
            d.title@ == title@,
            d.content@ == content@,
            d.image == Some(DialogIcon::Warning),
            acknowledge_buttons(d.buttons@),
    {
        StandardDialog::new(title, content).image(DialogIcon::Warning).push_button(
            StandardReply::Okay.button(),
        )
    }

    /// Create an error dialog.
    pub fn error(title: &str, content: &str) -> (d: Self)
        ensures
            d.title@ == title@,
            d.content@ == content@,
            d.image == Some(DialogIcon::Error),
            acknowledge_buttons(d.buttons@),
    {
        StandardDialog::new(title, content).image(DialogIcon::Error).push_button(
            StandardReply::Okay.button(),
        )
    }

    /// The reply this dialog delivers for one frame's outcome.
    pub fn respond(&self, outcome: &StandardOutcome) -> (r: Option<ReplyValue>)
        ensures
            r == spec_respond(self.buttons@, outcome.clicked@, outcome.closed),
    {
        let n: usize = if self.buttons.len() <= outcome.clicked.len() {
            self.buttons.len()
        } else {
            outcome.clicked.len()
        };
        let mut i: usize = n;
        while i > 0
            invariant
                i <= n,
                n <= self.buttons@.len(),
                n <= outcome.clicked@.len(),
                n == if self.buttons@.len() <= outcome.clicked@.len() {
                    self.buttons@.len() as int
                } else {
                    outcome.clicked@.len() as int
                },
                last_clicked_before(outcome.clicked@, n as int) == last_clicked_before(
                    outcome.clicked@,
                    i as int,
                ),
            decreases i,
        {
            if outcome.clicked[i - 1] {
                return Some(self.buttons[i - 1].1.clone());
            }
            i = i - 1;
        }
        if outcome.closed && self.buttons.len() > 0 {
            Some(self.buttons[self.buttons.len() - 1].1.clone())
        } else {
            None
        }
    }
}

/// A single localized acknowledgement button.
pub open spec fn acknowledge_buttons(buttons: Seq<(String, ReplyValue)>) -> bool {
    &&& buttons.len() == 1
    &&& buttons[0].1 == ReplyValue::Standard(StandardReply::Okay)
    &&& is_standard_text(StandardReply::Okay, buttons[0].0@)
}

/// A localized affirm/decline button pair, declared in that order.
pub open spec fn confirm_buttons(buttons: Seq<(String, ReplyValue)>) -> bool {
    &&& buttons.len() == 2
    &&& buttons[0].1 == ReplyValue::Standard(StandardReply::Yes)
    &&& buttons[1].1 == ReplyValue::Standard(StandardReply::No)
    &&& is_standard_text(StandardReply::Yes, buttons[0].0@)
    &&& is_standard_text(StandardReply::No, buttons[1].0@)
}

impl<F: StandardSurface> Dialog<F> for StandardDialog {
    /// One frame: draw through the host surface, then resolve the
    /// outcome.  While fading out the dialog still draws, but it refuses
    /// any outcome: a retired contract's reply is an explicit no-op.
    fn show(&mut self, frame: &mut F, dctx: &DialogContext) -> Option<ReplyValue> {
        let outcome = frame.draw_standard(self, dctx);
        if dctx.already_closed {
            None
        } else {
            self.respond(&outcome)
        }
    }
}

/// A queue entry that wraps a standard dialog with the default mask, no
/// identity and no transform, showing the given texts and icon.
pub open spec fn standard_entry(
    e: DialogDetails<StandardDialog>,
    title: Seq<char>,
    content: Seq<char>,
    icon: DialogIcon,
) -> bool {
    &&& e.id is None
    &&& e.mask == Some(default_mask())
    &&& e.handler is Keep
    &&& e.dialog.title@ == title
    &&& e.dialog.content@ == content
    &&& e.dialog.image == Some(icon)
}

/// Alias for `DialogDetails` over a standard dialog.
pub type StandardDialogDetails = DialogDetails<StandardDialog>;

impl StandardDialogDetails {
    /// Create a `DialogDetails` struct with an info dialog.
    pub fn info(title: &str, message: &str) -> (r: Self)
        ensures
            standard_entry(r, title@, message@, DialogIcon::Info),
            acknowledge_buttons(r.dialog.buttons@),
    {
        DialogDetails::new(StandardDialog::info(title, message))
    }

    /// Create a `DialogDetails` struct with a success dialog.
    pub fn success(title: &str, message: &str) -> (r: Self)
        ensures
            standard_entry(r, title@, message@, DialogIcon::Success),
            acknowledge_buttons(r.dialog.buttons@),
    {
        DialogDetails::new(StandardDialog::success(title, message))
    }

    /// Create a `DialogDetails` struct with a confirm dialog.
    pub fn confirm(title: &str, message: &str) -> (r: Self)
        ensures
            standard_entry(r, title@, message@, DialogIcon::Confirm),
            confirm_buttons(r.dialog.buttons@),
    {
        DialogDetails::new(StandardDialog::confirm(title, message))
    }

    /// Create a `DialogDetails` struct with a warning dialog.
    pub fn warning(title: &str, message: &str) -> (r: Self)
        ensures
            standard_entry(r, title@, message@, DialogIcon::Warning),
            acknowledge_buttons(r.dialog.buttons@),
    {
        DialogDetails::new(StandardDialog::warning(title, message))
    }

    /// Create a `DialogDetails` struct with an error dialog.
    pub fn error(title: &str, message: &str) -> (r: Self)
        ensures
            standard_entry(r, title@, message@, DialogIcon::Error),
            acknowledge_buttons(r.dialog.buttons@),
    {
        DialogDetails::new(StandardDialog::error(title, message))
    }
}

impl Dialogs<StandardDialog> {
    /// Show an information dialog.
    pub fn info(&mut self, title: &str, message: &str)
        ensures
            final(self).fading_dialog == old(self).fading_dialog,
            final(self).animated == old(self).animated,
            final(self).dialogs@.len() == old(self).dialogs@.len() + 1,
            forall|i: int|
                0 <= i < old(self).dialogs@.len() ==> final(self).dialogs@[i] == old(
                    self,
                ).dialogs@[i],
            standard_entry(final(self).dialogs@.last(), title@, message@, DialogIcon::Info),
            acknowledge_buttons(final(self).dialogs@.last().dialog.buttons@),
    {
        self.add(StandardDialogDetails::info(title, message));
    }

    /// Show a success dialog.
    pub fn success(&mut self, title: &str, message: &str)
        ensures
            final(self).fading_dialog == old(self).fading_dialog,
            final(self).animated == old(self).animated,
            final(self).dialogs@.len() == old(self).dialogs@.len() + 1,
            forall|i: int|
                0 <= i < old(self).dialogs@.len() ==> final(self).dialogs@[i] == old(
                    self,
                ).dialogs@[i],
            standard_entry(final(self).dialogs@.last(), title@, message@, DialogIcon::Success),
            acknowledge_buttons(final(self).dialogs@.last().dialog.buttons@),
    {
        self.add(StandardDialogDetails::success(title, message));
    }

    /// Show a confirmation dialog whose reply runs through the given
    /// transform.
    pub fn confirm(&mut self, title: &str, message: &str, handler: ReplyMap)
        ensures
            final(self).fading_dialog == old(self).fading_dialog,
            final(self).animated == old(self).animated,
            final(self).dialogs@.len() == old(self).dialogs@.len() + 1,
            forall|i: int|
                0 <= i < old(self).dialogs@.len() ==> final(self).dialogs@[i] == old(
                    self,
                ).dialogs@[i],
            ({
                let e = final(self).dialogs@.last();
                &&& e.id is None
                &&& e.mask == Some(default_mask())
                &&& e.handler == handler
                &&& e.dialog.title@ == title@
                &&& e.dialog.content@ == message@
                &&& e.dialog.image == Some(DialogIcon::Confirm)
                &&& confirm_buttons(e.dialog.buttons@)
            }),
    {
        self.add(StandardDialogDetails::confirm(title, message).on_reply(handler));
    }

    /// Show a warning dialog.
    pub fn warning(&mut self, title: &str, message: &str)
        ensures
            final(self).fading_dialog == old(self).fading_dialog,
            final(self).animated == old(self).animated,
            final(self).dialogs@.len() == old(self).dialogs@.len() + 1,
            forall|i: int|
                0 <= i < old(self).dialogs@.len() ==> final(self).dialogs@[i] == old(
                    self,
                ).dialogs@[i],
            standard_entry(final(self).dialogs@.last(), title@, message@, DialogIcon::Warning),
            acknowledge_buttons(final(self).dialogs@.last().dialog.buttons@),
    {
        self.add(StandardDialogDetails::warning(title, message));
    }

    /// Show an error dialog.
    pub fn error(&mut self, title: &str, message: &str)
        ensures
            final(self).fading_dialog == old(self).fading_dialog,
            final(self).animated == old(self).animated,
            final(self).dialogs@.len() == old(self).dialogs@.len() + 1,
            forall|i: int|
                0 <= i < old(self).dialogs@.len() ==> final(self).dialogs@[i] == old(
                    self,
                ).dialogs@[i],
            standard_entry(final(self).dialogs@.last(), title@, message@, DialogIcon::Error),
            acknowledge_buttons(final(self).dialogs@.last().dialog.buttons@),
    {
        self.add(StandardDialogDetails::error(title, message));
    }
}

/// With no button clicked, a window-level close delivers the
/// last-declared button's reply; for a confirm-style dialog that is the
/// decline reply.
pub proof fn lemma_close_uses_last_button(
    buttons: Seq<(String, ReplyValue)>,
    clicked: Seq<bool>,
)
    requires
        buttons.len() > 0,
        forall|i: int| 0 <= i < clicked.len() ==> !clicked[i],
    ensures
        spec_respond(buttons, clicked, true) == Some(buttons[buttons.len() - 1].1),
        spec_respond(buttons, clicked, false) is None,
{
    let n = if buttons.len() <= clicked.len() {
        buttons.len() as int
    } else {
        clicked.len() as int
    };
    lemma_no_click_no_winner(clicked, n);
}

proof fn lemma_no_click_no_winner(clicked: Seq<bool>, n: int)
    requires
        n <= clicked.len(),
        forall|i: int| 0 <= i < clicked.len() ==> !clicked[i],
    ensures
        last_clicked_before(clicked, n) is None,
    decreases n,
{
    if n > 0 {
        lemma_no_click_no_winner(clicked, n - 1);
    }
}

} // verus!
