//! A single-line text entry with a blinking cursor. The text typed so far
//! (the pretext) never starts with white space and is never empty: an
//! entry without text holds no pretext at all.
use vstd::prelude::*;
use vstd::string::StrSliceExecFns;
use vstd::string::StringExecFns;
use crate::flood::{Enabled, Input, VersionCounter};
use crate::text::{is_white_space, lemma_skip_white_space_bounds, skip_white_space, trim_start, trimmed_start};

verus! {

#[derive(Clone, PartialEq, Eq, Debug)]
#[verifier::reject_recursive_types(MsgT)]
pub struct Entry<F, MsgT> where F: Fn(Msg) -> MsgT + Send + Sync + 'static {
    pub msg_wrap: F,
    pub id: u64,
    pub mdl: Mdl,
    pub label: String,
    pub placeholder: Option<String>,
}

impl<F, MsgT> Entry<F, MsgT> where F: Fn(Msg) -> MsgT, F: Send + Sync + 'static {
    /// The placeholder text, or the empty text where there is none.
    pub fn placeholder_string(&self) -> (s: String)
        ensures
            s@ == match self.placeholder {
                Some(placeholder) => placeholder@,
                None => Seq::<char>::empty(),
            },
    {
        if let Some(placeholder) = &self.placeholder {
            placeholder.clone()
        } else {
            String::new()
        }
    }
}

#[derive(Clone, PartialEq, Eq, Debug)]
pub struct Mdl {
    pub pretext: Option<String>,
    pub cursor_visibility: CursorVisibility,
    pub blink_timeout_version_counter: VersionCounter,
}

#[derive(Copy, Clone, PartialEq, Eq, Debug, Structural)]
pub enum CursorVisibility {
    Visible,
    Invisible,
}

#[derive(Clone, PartialEq, Eq, Debug)]
pub enum Msg {
    ToggleBlink,
    Input(Input),
}

impl Default for Mdl {
    fn default() -> (mdl: Self)
        ensures
            mdl.pretext is None,
            mdl.cursor_visibility == CursorVisibility::Visible,
            mdl.blink_timeout_version_counter == (VersionCounter {
                number: 1,
                enabled: Enabled::True,
            }),
    {
        Mdl {
            pretext: None,
            cursor_visibility: CursorVisibility::Visible,
            blink_timeout_version_counter: VersionCounter::enabled(),
        }
    }
}

/// The characters of an optional text.
pub open spec fn text_of(text: Option<String>) -> Option<Seq<char>> {
    match text {
        Some(s) => Some(s@),
        None => None,
    }
}

/// A text as it is kept as pretext: without leading white space, and
/// nothing at all where nothing is left.
pub open spec fn pretext_from(text: Seq<char>) -> Option<Seq<char>> {
    if trim_start(text).len() == 0 {
        None
    } else {
        Some(trim_start(text))
    }
}

/// The pretext after an edit.
pub open spec fn edited_pretext(pretext: Option<Seq<char>>, input: Input) -> Option<Seq<char>> {
    match input {
        Input::Insert(string) => match pretext {
            Some(p) => pretext_from(p + string@),
            None => pretext_from(string@),
        },
        Input::DeleteBack => match pretext {
            Some(p) => if p.len() > 1 {
                pretext_from(p.drop_last())
            } else {
                None
            },
            None => None,
        },
    }
}

/// The other visibility.
pub open spec fn toggled(visibility: CursorVisibility) -> CursorVisibility {
    match visibility {
        CursorVisibility::Visible => CursorVisibility::Invisible,
        CursorVisibility::Invisible => CursorVisibility::Visible,
    }
}

/// Whether `update` can take `msg`: a blink needs a counter with a
/// successor, and deleting back needs a pretext that does not end in a
/// character of more than one UTF-8 byte, which cannot be cut off by
/// dropping the text's last byte.
pub open spec fn update_allowed(mdl: Mdl, msg: Msg) -> bool {
    match msg {
        Msg::ToggleBlink => mdl.blink_timeout_version_counter.number < u64::MAX,
        Msg::Input(Input::DeleteBack) => match mdl.pretext {
            Some(p) => p@.len() > 0 ==> (p@.last() as u32) < 0x80,
            None => true,
        },
        Msg::Input(Input::Insert(_)) => true,
    }
}

pub fn update(mdl: &mut Mdl, msg: Msg)
    requires
        update_allowed(*old(mdl), msg),
    ensures
        match msg {
            Msg::ToggleBlink => {
                &&& final(mdl).cursor_visibility == toggled(old(mdl).cursor_visibility)
                &&& final(mdl).blink_timeout_version_counter
                    == old(mdl).blink_timeout_version_counter.bumped()
                &&& final(mdl).pretext == old(mdl).pretext
            },
            Msg::Input(input) => {
                &&& final(mdl).cursor_visibility == old(mdl).cursor_visibility
                &&& final(mdl).blink_timeout_version_counter
                    == old(mdl).blink_timeout_version_counter
                &&& text_of(final(mdl).pretext) == edited_pretext(text_of(old(mdl).pretext), input)
            },
        },
{
    match msg {
        Msg::ToggleBlink => {
            mdl.cursor_visibility = match mdl.cursor_visibility {
                CursorVisibility::Visible => CursorVisibility::Invisible,
                CursorVisibility::Invisible => CursorVisibility::Visible,
            };
            mdl.blink_timeout_version_counter.bump();
        },
        Msg::Input(input) => {
            match input {
                Input::Insert(string) => {
                    mdl.pretext = match &mdl.pretext {
                        Some(pretext) => {
                            let combined = pretext.clone().concat(string.as_str());
                            trim_pretext(combined.as_str())
                        },
                        None => trim_pretext(string.as_str()),
                    }
                },
                Input::DeleteBack => {
                    mdl.pretext = match &mdl.pretext {
                        Some(pretext) => {
                            let len = pretext.as_str().unicode_len();
                            if len > 1 {
                                let shortened = pretext.as_str().substring_char(0, len - 1);
                                proof {
                                    assert(shortened@ =~= pretext@.drop_last());
                                }
                                trim_pretext(shortened)
                            } else {
                                None
                            }
                        },
                        None => None,
                    }
                },
            }
        },
    }
}

/// `pretext` as it is kept: without leading white space, and `None` where
/// nothing is left.
pub fn trim_pretext(pretext: &str) -> (kept: Option<String>)
    ensures
        text_of(kept) == pretext_from(pretext@),
{
    let pretext = trimmed_start(pretext);
    if pretext.as_str().unicode_len() == 0 {
        None
    } else {
        Some(pretext)
    }
}

/// A pretext as an entry keeps it: none, or a text that is not empty and
/// does not start with white space.
pub open spec fn kept_form(pretext: Option<Seq<char>>) -> bool {
    match pretext {
        Some(p) => p.len() > 0 && !is_white_space(p[0]),
        None => true,
    }
}

proof fn lemma_pretext_from_kept(text: Seq<char>)
    ensures
        kept_form(pretext_from(text)),
        text.len() > 0 && !is_white_space(text[0]) ==> pretext_from(text) == Some(text),
{
    lemma_skip_white_space_bounds(text, 0);
    if text.len() > 0 && !is_white_space(text[0]) {
        assert(skip_white_space(text, 0) == 0);
        assert(trim_start(text) =~= text);
    }
}

/// Whatever the edit, the pretext keeps its form: none, or a text that is
/// not empty and does not start with white space.
pub proof fn lemma_edit_keeps_form(pretext: Option<Seq<char>>, input: Input)
    ensures
        kept_form(edited_pretext(pretext, input)),
{
    match input {
        Input::Insert(string) => match pretext {
            Some(p) => lemma_pretext_from_kept(p + string@),
            None => lemma_pretext_from_kept(string@),
        },
        Input::DeleteBack => match pretext {
            Some(p) => if p.len() > 1 {
                lemma_pretext_from_kept(p.drop_last())
            },
            None => {},
        },
    }
}

/// Typing one single-byte character and then deleting back leaves a kept
/// pretext as it was; the deletion is always allowed there.
pub proof fn lemma_type_then_delete(pretext: Option<Seq<char>>, text: String)
    requires
        kept_form(pretext),
        text@.len() == 1,
        (text@[0] as u32) < 0x80,
    ensures
        match edited_pretext(pretext, Input::Insert(text)) {
            Some(t) => t.len() > 0 && (t.last() as u32) < 0x80,
            None => true,
        },
        edited_pretext(edited_pretext(pretext, Input::Insert(text)), Input::DeleteBack) == pretext,
{
    let c = text@[0];
    match pretext {
        Some(p) => {
            let typed = p + text@;
            assert(typed[0] == p[0]);
            lemma_pretext_from_kept(typed);
            assert(typed.drop_last() =~= p);
            lemma_pretext_from_kept(p);
        },
        None => {
            lemma_pretext_from_kept(text@);
            lemma_skip_white_space_bounds(text@, 0);
            if !is_white_space(c) {
                assert(pretext_from(text@) == Some(text@));
            } else {
                assert(skip_white_space(text@, 0) == 1) by {
                    assert(skip_white_space(text@, 1) == 1);
                }
                assert(trim_start(text@).len() == 0);
            }
        },
    }
}

/// Blinking twice shows the cursor as before.
pub proof fn lemma_blink_twice(visibility: CursorVisibility)
    ensures
        toggled(toggled(visibility)) == visibility,
{
}

} // verus!
