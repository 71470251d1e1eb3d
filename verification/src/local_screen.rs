//! Whether the screen has something new to draw, or is about to close.
//! Once a close is requested, nothing brings the screen back.
use vstd::prelude::*;
use crate::touch::TouchMsg;

verus! {

#[derive(Copy, Clone, Debug, PartialEq, Eq, Structural)]
pub enum ScreenStatus {
    Unchanged,
    Changed,
    WillClose,
}

impl ScreenStatus {
    /// The status after a close request.
    pub fn will_close(&self) -> (status: Self)
        ensures
            status == ScreenStatus::WillClose,
    {
        ScreenStatus::WillClose
    }

    /// The status after a block changed: there is something to draw, unless
    /// the screen is closing.
    pub fn did_change(&self) -> (status: Self)
        ensures
            status == if *self == ScreenStatus::WillClose {
                ScreenStatus::WillClose
            } else {
                ScreenStatus::Changed
            },
    {
        if *self == ScreenStatus::WillClose {
            ScreenStatus::WillClose
        } else {
            ScreenStatus::Changed
        }
    }

    /// The status after a draw: nothing left to draw, unless the screen is
    /// closing.
    pub fn did_draw(&self) -> (status: Self)
        ensures
            status == if *self == ScreenStatus::WillClose {
                ScreenStatus::WillClose
            } else {
                ScreenStatus::Unchanged
            },
    {
        if *self == ScreenStatus::WillClose {
            ScreenStatus::WillClose
        } else {
            ScreenStatus::Unchanged
        }
    }
}

/// Which touch target the pointer is tracking, if any. The screen turns
/// pointer presses, moves and releases into touch messages: a touch begins
/// on a target, may move, and then ends or is cancelled before the next one
/// begins.
#[derive(Copy, Clone, Debug, PartialEq, Eq, Structural)]
pub struct TouchTracking {
    pub touch_destination: Option<u64>,
}

/// Whether `msgs` is a run of touch messages that a tracker sends when it
/// starts tracking `open` and ends tracking `close`: a touch begins only
/// when none is open, moves, ends and cancellations go to the open touch
/// and the last two close it.
pub open spec fn touch_run(open: Option<u64>, msgs: Seq<TouchMsg>, close: Option<u64>) -> bool
    decreases msgs.len(),
{
    if msgs.len() == 0 {
        open == close
    } else {
        match msgs[0] {
            TouchMsg::Begin(tag, _, _) => open is None && touch_run(
                Some(tag),
                msgs.drop_first(),
                close,
            ),
            TouchMsg::Move(tag, _, _) => open == Some(tag) && touch_run(
                open,
                msgs.drop_first(),
                close,
            ),
            TouchMsg::End(tag, _, _) => open == Some(tag) && touch_run(
                None,
                msgs.drop_first(),
                close,
            ),
            TouchMsg::Cancel(tag) => open == Some(tag) && touch_run(None, msgs.drop_first(), close),
        }
    }
}

impl TouchTracking {
    /// The pointer is pressed at `(x, y)` over the touch target `hit`, if
    /// any: a touch still open is cancelled, and a touch on `hit` begins.
    pub fn begin_tracking(&mut self, hit: Option<u64>, x: u64, y: u64) -> (msgs: Vec<TouchMsg>)
        ensures
            final(self).touch_destination == hit,
            msgs@ == match (old(self).touch_destination, hit) {
                (Some(open), Some(tag)) => seq![TouchMsg::Cancel(open), TouchMsg::Begin(tag, x, y)],
                (Some(open), None) => seq![TouchMsg::Cancel(open)],
                (None, Some(tag)) => seq![TouchMsg::Begin(tag, x, y)],
                (None, None) => Seq::<TouchMsg>::empty(),
            },
            touch_run(old(self).touch_destination, msgs@, final(self).touch_destination),
    {
        let mut msgs = self.cancel_tracking();
        if let Some(tag) = hit {
            self.touch_destination = Some(tag);
            msgs.push(TouchMsg::Begin(tag, x, y));
        }
        proof {
            lemma_touch_run_append(old(self).touch_destination, msgs@);
            reveal_with_fuel(touch_run, 3);
        }
        msgs
    }

    /// The pointer moves to `(x, y)`: an open touch moves with it.
    pub fn move_tracking(&mut self, x: u64, y: u64) -> (msgs: Vec<TouchMsg>)
        ensures
            final(self).touch_destination == old(self).touch_destination,
            msgs@ == match old(self).touch_destination {
                Some(tag) => seq![TouchMsg::Move(tag, x, y)],
                None => Seq::<TouchMsg>::empty(),
            },
            touch_run(old(self).touch_destination, msgs@, final(self).touch_destination),
    {
        let mut msgs: Vec<TouchMsg> = Vec::new();
        if let Some(tag) = self.touch_destination {
            msgs.push(TouchMsg::Move(tag, x, y));
            proof {
                assert(msgs@.drop_first() =~= Seq::<TouchMsg>::empty());
                reveal_with_fuel(touch_run, 2);
            }
        }
        msgs
    }

    /// Tracking stops without a release: an open touch is cancelled.
    pub fn cancel_tracking(&mut self) -> (msgs: Vec<TouchMsg>)
        ensures
            final(self).touch_destination is None,
            msgs@ == match old(self).touch_destination {
                Some(tag) => seq![TouchMsg::Cancel(tag)],
                None => Seq::<TouchMsg>::empty(),
            },
            touch_run(old(self).touch_destination, msgs@, None),
    {
        let mut msgs: Vec<TouchMsg> = Vec::new();
        if let Some(tag) = self.touch_destination {
            msgs.push(TouchMsg::Cancel(tag));
            proof {
                assert(msgs@.drop_first() =~= Seq::<TouchMsg>::empty());
                reveal_with_fuel(touch_run, 2);
            }
        }
        self.touch_destination = None;
        msgs
    }

    /// The pointer is released at `(x, y)`: an open touch ends there.
    pub fn end_tracking(&mut self, x: u64, y: u64) -> (msgs: Vec<TouchMsg>)
        ensures
            final(self).touch_destination is None,
            msgs@ == match old(self).touch_destination {
                Some(tag) => seq![TouchMsg::End(tag, x, y)],
                None => Seq::<TouchMsg>::empty(),
            },
            touch_run(old(self).touch_destination, msgs@, None),
    {
        let mut msgs: Vec<TouchMsg> = Vec::new();
        if let Some(tag) = self.touch_destination {
            msgs.push(TouchMsg::End(tag, x, y));
            proof {
                assert(msgs@.drop_first() =~= Seq::<TouchMsg>::empty());
                reveal_with_fuel(touch_run, 2);
            }
        }
        self.touch_destination = None;
        msgs
    }
}

proof fn lemma_touch_run_append(open: Option<u64>, msgs: Seq<TouchMsg>)
    ensures
        msgs.len() == 1 ==> msgs.drop_first() =~= Seq::<TouchMsg>::empty(),
        msgs.len() == 2 ==> msgs.drop_first().drop_first() =~= Seq::<TouchMsg>::empty(),
        msgs.len() == 2 ==> msgs.drop_first()[0] == msgs[1],
{
}

/// Runs chain: a run from `a` to `b` followed by a run from `b` to `c` is
/// a run from `a` to `c`. So whatever the order of presses, moves and
/// releases, the screen's touch messages never begin a touch while another
/// is open, and never move, end or cancel a touch that is not open.
pub proof fn lemma_touch_runs_chain(
    a: Option<u64>,
    first: Seq<TouchMsg>,
    b: Option<u64>,
    second: Seq<TouchMsg>,
    c: Option<u64>,
)
    requires
        touch_run(a, first, b),
        touch_run(b, second, c),
    ensures
        touch_run(a, first + second, c),
    decreases first.len(),
{
    if first.len() > 0 {
        assert((first + second).drop_first() =~= first.drop_first() + second);
        assert((first + second)[0] == first[0]);
        match first[0] {
            TouchMsg::Begin(tag, _, _) => lemma_touch_runs_chain(Some(tag), first.drop_first(), b, second, c),
            TouchMsg::Move(tag, _, _) => lemma_touch_runs_chain(a, first.drop_first(), b, second, c),
            TouchMsg::End(tag, _, _) => lemma_touch_runs_chain(None, first.drop_first(), b, second, c),
            TouchMsg::Cancel(tag) => lemma_touch_runs_chain(None, first.drop_first(), b, second, c),
        }
    } else {
        assert(first + second =~= second);
    }
}

/// What the screen's window reports, as far as the screen's decisions go.
/// A key event carries whether the key went down (else up) and whether it
/// is the Escape key; key events without a key code are `Other`.
#[derive(Copy, Clone, Debug, PartialEq, Eq, Structural)]
pub enum WindowInput {
    CloseRequested,
    Key { pressed: bool, escape: bool },
    Resized,
    CursorMoved,
    LeftButton { pressed: bool },
    Other,
}

/// What the screen does about a window input.
#[derive(Copy, Clone, Debug, PartialEq, Eq, Structural)]
pub enum ScreenAction {
    Close,
    ForwardKey,
    Resize,
    MoveTracking,
    BeginTracking,
    EndTracking,
    Nothing,
}

/// The screen closes on a close request and on the Escape key, pressed or
/// released; it forwards every other pressed key, follows resizes, and
/// tracks the pointer with the left button.
pub open spec fn screen_action(input: WindowInput) -> ScreenAction {
    match input {
        WindowInput::CloseRequested => ScreenAction::Close,
        WindowInput::Key { pressed, escape } => if escape {
            ScreenAction::Close
        } else if pressed {
            ScreenAction::ForwardKey
        } else {
            ScreenAction::Nothing
        },
        WindowInput::Resized => ScreenAction::Resize,
        WindowInput::CursorMoved => ScreenAction::MoveTracking,
        WindowInput::LeftButton { pressed } => if pressed {
            ScreenAction::BeginTracking
        } else {
            ScreenAction::EndTracking
        },
        WindowInput::Other => ScreenAction::Nothing,
    }
}

pub fn action_for(input: WindowInput) -> (action: ScreenAction)
    ensures
        action == screen_action(input),
{
    match input {
        WindowInput::CloseRequested => ScreenAction::Close,
        WindowInput::Key { pressed, escape } => {
            if escape {
                ScreenAction::Close
            } else if pressed {
                ScreenAction::ForwardKey
            } else {
                ScreenAction::Nothing
            }
        },
        WindowInput::Resized => ScreenAction::Resize,
        WindowInput::CursorMoved => ScreenAction::MoveTracking,
        WindowInput::LeftButton { pressed } => {
            if pressed {
                ScreenAction::BeginTracking
            } else {
                ScreenAction::EndTracking
            }
        },
        WindowInput::Other => ScreenAction::Nothing,
    }
}

} // verus!
