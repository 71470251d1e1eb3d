//! What a window decides each time it lays out its widget tree: which of
//! the tree's signals carry a message it has not delivered yet, which
//! timeouts are new and need a timer, and what a key press types.
use vstd::prelude::*;
use std::collections::HashMap;
use crate::flood::{Duration, Enabled, Input, Signal, Timeout, Version};
use super::keymap::{code_to_string, key_text, Key};

verus! {

broadcast use vstd::std_specs::hash::group_hash_axioms;

/// The entry stored under `id`, if any.
pub open spec fn stored_under<V>(stored: Map<u64, V>, id: u64) -> Option<V> {
    if stored.contains_key(id) {
        Some(stored[id])
    } else {
        None
    }
}

/// The signals stored after each signal of `signals`, in order, has been
/// stored under its id.
pub open spec fn signals_after<M>(stored: Map<u64, Signal<M>>, signals: Seq<Signal<M>>) -> Map<
    u64,
    Signal<M>,
>
    decreases signals.len(),
{
    if signals.len() == 0 {
        stored
    } else {
        signals_after(stored, signals.drop_last()).insert(signals.last().id, signals.last())
    }
}

/// The signals of `signals`, in order, whose version supersedes the one
/// stored under their id at the moment they are met.
pub open spec fn delivered_signals<M>(stored: Map<u64, Signal<M>>, signals: Seq<Signal<M>>) -> Seq<
    Signal<M>,
>
    decreases signals.len(),
{
    if signals.len() == 0 {
        Seq::empty()
    } else {
        let before = signals_after(stored, signals.drop_last());
        let earlier = delivered_signals(stored, signals.drop_last());
        if signals.last().supersedes_option(stored_under(before, signals.last().id)) {
            earlier.push(signals.last())
        } else {
            earlier
        }
    }
}

/// Stores each of `signals`, in order, under its id, and gives back a copy
/// of the message of each signal that supersedes the one stored before it.
pub fn cycle_signals<MsgT: Clone>(
    stored: &mut HashMap<u64, Signal<MsgT>>,
    signals: Vec<Signal<MsgT>>,
) -> (go_msgs: Vec<MsgT>)
    ensures
        final(stored)@ == signals_after(old(stored)@, signals@),
        go_msgs@.len() == delivered_signals(old(stored)@, signals@).len(),
        forall|i: int|
            0 <= i < go_msgs@.len() ==> cloned(
                #[trigger] delivered_signals(old(stored)@, signals@)[i].version.value,
                go_msgs@[i],
            ),
{
    let ghost start = stored@;
    let ghost all = signals@;
    let mut go_msgs: Vec<MsgT> = Vec::new();
    for signal in it: signals
        invariant
            all == it.seq(),
            stored@ == signals_after(start, all.take(it.index() as int)),
            go_msgs@.len() == delivered_signals(start, all.take(it.index() as int)).len(),
            forall|i: int|
                0 <= i < go_msgs@.len() ==> cloned(
                    #[trigger] delivered_signals(start, all.take(it.index() as int))[i].version.value,
                    go_msgs@[i],
                ),
    {
        let ghost k = it.index() as int;
        proof {
            assert(all.take(k + 1).drop_last() =~= all.take(k));
            assert(all.take(k + 1).last() == signal);
        }
        let id = signal.id;
        let upgrades = match stored.get(&id) {
            Some(old_signal) => signal.upgrades_option(&Some(old_signal)),
            None => signal.upgrades_option(&None),
        };
        if upgrades {
            go_msgs.push(signal.clone_value());
        }
        stored.insert(id, signal);
    }
    proof {
        assert(all.take(all.len() as int) =~= all);
    }
    go_msgs
}

/// The last signal of `signals` with id `id`, if any.
pub open spec fn last_with_id<M>(signals: Seq<Signal<M>>, id: u64) -> Option<Signal<M>>
    decreases signals.len(),
{
    if signals.len() == 0 {
        None
    } else if signals.last().id == id {
        Some(signals.last())
    } else {
        last_with_id(signals.drop_last(), id)
    }
}

/// Whether no two signals of `signals` share an id.
pub open spec fn distinct_ids<M>(signals: Seq<Signal<M>>) -> bool {
    forall|i: int, j: int|
        0 <= i < j < signals.len() ==> #[trigger] signals[i].id != #[trigger] signals[j].id
}

/// After a cycle, the signal stored under an id is the last signal of the
/// batch with that id; an id the batch does not carry keeps what it had.
pub proof fn lemma_stored_after_cycle<M>(stored: Map<u64, Signal<M>>, signals: Seq<Signal<M>>, id: u64)
    ensures
        stored_under(signals_after(stored, signals), id) == match last_with_id(signals, id) {
            Some(s) => Some(s),
            None => stored_under(stored, id),
        },
    decreases signals.len(),
{
    if signals.len() > 0 {
        lemma_stored_after_cycle(stored, signals.drop_last(), id);
    }
}

proof fn lemma_last_with_id_of_distinct<M>(signals: Seq<Signal<M>>, k: int)
    requires
        distinct_ids(signals),
        0 <= k < signals.len(),
    ensures
        last_with_id(signals, signals[k].id) == Some(signals[k]),
        last_with_id(signals.take(k), signals[k].id) is None,
    decreases signals.len(),
{
    let prefix = signals.drop_last();
    if k < signals.len() - 1 {
        assert(distinct_ids(prefix)) by {
            assert forall|i: int, j: int| 0 <= i < j < prefix.len() implies #[trigger] prefix[i].id
                != #[trigger] prefix[j].id by {
                assert(prefix[i] == signals[i] && prefix[j] == signals[j]);
            }
        }
        assert(signals.last().id != signals[k].id) by {
            assert(signals[k].id != signals[signals.len() - 1].id);
        }
        lemma_last_with_id_of_distinct(prefix, k);
        assert(prefix[k] == signals[k]);
        assert(prefix.take(k) =~= signals.take(k));
    } else {
        assert(signals.take(k) =~= prefix);
        lemma_no_earlier_id(signals, k, k);
    }
}

proof fn lemma_no_earlier_id<M>(signals: Seq<Signal<M>>, k: int, m: int)
    requires
        distinct_ids(signals),
        0 <= m <= k < signals.len(),
    ensures
        last_with_id(signals.take(m), signals[k].id) is None,
    decreases m,
{
    if m > 0 {
        assert(signals.take(m).drop_last() =~= signals.take(m - 1));
        assert(signals.take(m).last() == signals[m - 1]);
        assert(signals[m - 1].id != signals[k].id);
        lemma_no_earlier_id(signals, k, m - 1);
    }
}

/// Cycling a batch of signals with distinct ids a second time delivers
/// nothing: each message is delivered once per version.
pub proof fn lemma_second_cycle_delivers_nothing<M>(stored: Map<u64, Signal<M>>, signals: Seq<Signal<M>>)
    requires
        distinct_ids(signals),
    ensures
        delivered_signals(signals_after(stored, signals), signals).len() == 0,
{
    lemma_second_cycle_prefix(stored, signals, signals.len() as int);
    assert(signals.take(signals.len() as int) =~= signals);
}

proof fn lemma_second_cycle_prefix<M>(stored: Map<u64, Signal<M>>, signals: Seq<Signal<M>>, k: int)
    requires
        distinct_ids(signals),
        0 <= k <= signals.len(),
    ensures
        delivered_signals(signals_after(stored, signals), signals.take(k)).len() == 0,
    decreases k,
{
    let seen = signals_after(stored, signals);
    if k > 0 {
        lemma_second_cycle_prefix(stored, signals, k - 1);
        let prefix = signals.take(k);
        assert(prefix.drop_last() =~= signals.take(k - 1));
        assert(prefix.last() == signals[k - 1]);
        let s = signals[k - 1];
        lemma_last_with_id_of_distinct(signals, k - 1);
        lemma_stored_after_cycle(seen, signals.take(k - 1), s.id);
        lemma_stored_after_cycle(stored, signals, s.id);
        assert(stored_under(signals_after(seen, signals.take(k - 1)), s.id) == Some(s));
        assert(!s.version.counter.supersedes(s.version.counter));
    }
}

/// The click signal of a button is delivered by the window once the button
/// was clicked, while the signal from before the click, already stored, is
/// not delivered again.
pub proof fn lemma_click_signal_delivered<M>(
    mdl: crate::material::components::button::ButtonMdl,
    tag: u64,
    before: Signal<M>,
    after: Signal<M>,
)
    requires
        mdl.press_state == crate::material::components::button::PressState::Down,
        mdl.click_msg_version_counter.number < u64::MAX,
        after.id == before.id,
        before.version.counter == mdl.click_msg_version_counter,
        after.version.counter == mdl.updated(
            crate::material::components::button::ButtonMsg::Release(tag),
        ).click_msg_version_counter,
    ensures
        delivered_signals(map![before.id => before], seq![after]) == seq![after],
        delivered_signals(map![before.id => before], seq![before]).len() == 0,
{
    let stored = map![before.id => before];
    let empty = Seq::<Signal<M>>::empty();
    let one_after = seq![after];
    let one_before = seq![before];
    assert(one_after.drop_last() =~= empty);
    assert(one_before.drop_last() =~= empty);
    assert(signals_after(stored, empty) == stored);
    assert(delivered_signals(stored, empty) == empty);
    assert(stored_under(stored, before.id) == Some(before));
    assert(after.supersedes_option(Some(before)));
    assert(!before.supersedes_option(Some(before)));
    assert(delivered_signals(stored, one_after) == empty.push(after));
    assert(empty.push(after) =~= one_after);
    assert(delivered_signals(stored, one_before) == empty);
}

/// A signal under an id the window has not stored yet delivers its message
/// exactly when its counter is enabled; one under a stored id delivers it
/// exactly when its counter is enabled and either the stored counter is
/// not, or its number is greater.
pub proof fn lemma_single_signal_delivered_when_newer<M>(stored: Map<u64, Signal<M>>, s: Signal<M>)
    ensures
        delivered_signals(stored, seq![s]).len() <= 1,
        delivered_signals(stored, seq![s]).len() == 1 ==> delivered_signals(stored, seq![s])[0]
            == s,
        !stored.contains_key(s.id) ==> (delivered_signals(stored, seq![s]).len() == 1
            <==> s.version.counter.enabled == Enabled::True),
        stored.contains_key(s.id) ==> (delivered_signals(stored, seq![s]).len() == 1 <==> (
        s.version.counter.enabled == Enabled::True && (stored[s.id].version.counter.enabled
            == Enabled::False || s.version.counter.number > stored[s.id].version.counter.number))),
{
    let one = seq![s];
    let empty = Seq::<Signal<M>>::empty();
    assert(one.drop_last() =~= empty);
    assert(one.last() == s);
    assert(signals_after(stored, empty) == stored);
    assert(delivered_signals(stored, empty) == empty);
}

/// The timeouts stored after each of `versions`, in order, has been stored
/// under its timeout's id.
pub open spec fn timeouts_after<M>(
    stored: Map<u64, Version<Timeout<M>>>,
    versions: Seq<Version<Timeout<M>>>,
) -> Map<u64, Version<Timeout<M>>>
    decreases versions.len(),
{
    if versions.len() == 0 {
        stored
    } else {
        timeouts_after(stored, versions.drop_last()).insert(
            versions.last().value.id,
            versions.last(),
        )
    }
}

/// The versions of `versions`, in order, that supersede the one stored
/// under their timeout's id at the moment they are met.
pub open spec fn new_timeouts<M>(
    stored: Map<u64, Version<Timeout<M>>>,
    versions: Seq<Version<Timeout<M>>>,
) -> Seq<Version<Timeout<M>>>
    decreases versions.len(),
{
    if versions.len() == 0 {
        Seq::empty()
    } else {
        let before = timeouts_after(stored, versions.drop_last());
        let earlier = new_timeouts(stored, versions.drop_last());
        let v = versions.last();
        if v.counter.supersedes_option(
            match stored_under(before, v.value.id) {
                Some(o) => Some(o.counter),
                None => None,
            },
        ) {
            earlier.push(v)
        } else {
            earlier
        }
    }
}

/// A timeout the window has not stored yet starts a timer exactly when its
/// counter is enabled, and is stored under its id either way.
pub proof fn lemma_unseen_timeout_starts_when_enabled<M>(
    stored: Map<u64, Version<Timeout<M>>>,
    v: Version<Timeout<M>>,
)
    requires
        !stored.contains_key(v.value.id),
    ensures
        v.counter.enabled == Enabled::True ==> new_timeouts(stored, seq![v]) == seq![v],
        v.counter.enabled == Enabled::False ==> new_timeouts(stored, seq![v]).len() == 0,
        timeouts_after(stored, seq![v]) == stored.insert(v.value.id, v),
{
    let one = seq![v];
    let empty = Seq::<Version<Timeout<M>>>::empty();
    assert(one.drop_last() =~= empty);
    assert(one.last() == v);
    assert(timeouts_after(stored, empty) == stored);
    assert(new_timeouts(stored, empty) == empty);
    assert(Seq::<Version<Timeout<M>>>::empty().push(v) =~= one);
}

/// A timeout stored before starts a timer again exactly when its counter is
/// enabled and either the stored counter is not, or its number is greater.
pub proof fn lemma_seen_timeout_starts_when_newer<M>(
    stored: Map<u64, Version<Timeout<M>>>,
    v: Version<Timeout<M>>,
)
    requires
        stored.contains_key(v.value.id),
    ensures
        new_timeouts(stored, seq![v]).len() <= 1,
        new_timeouts(stored, seq![v]).len() == 1 ==> new_timeouts(stored, seq![v])[0] == v,
        new_timeouts(stored, seq![v]).len() == 1 <==> (v.counter.enabled == Enabled::True && (
        stored[v.value.id].counter.enabled == Enabled::False || v.counter.number
            > stored[v.value.id].counter.number)),
{
    let one = seq![v];
    let empty = Seq::<Version<Timeout<M>>>::empty();
    assert(one.drop_last() =~= empty);
    assert(one.last() == v);
    assert(timeouts_after(stored, empty) == stored);
    assert(new_timeouts(stored, empty) == empty);
}

/// Laying out the same timeout twice starts its timer at most once: the
/// second time it is no longer new.
pub proof fn lemma_timeout_starts_once<M>(stored: Map<u64, Version<Timeout<M>>>, v: Version<Timeout<M>>)
    ensures
        new_timeouts(timeouts_after(stored, seq![v]), seq![v]).len() == 0,
{
    let one = seq![v];
    let empty = Seq::<Version<Timeout<M>>>::empty();
    assert(one.drop_last() =~= empty);
    assert(one.last() == v);
    assert(timeouts_after(stored, empty) == stored);
    assert(new_timeouts(stored, empty) == empty);
    let after = timeouts_after(stored, one);
    assert(after == stored.insert(v.value.id, v));
    assert(stored_under(after, v.value.id) == Some(v));
    assert(timeouts_after(after, empty) == after);
    assert(new_timeouts(after, empty) == empty);
    assert(!v.counter.supersedes(v.counter));
}

/// Stores each of `timeout_versions`, in order, under its timeout's id.
/// Where `observing`, gives back a copy of each timeout whose version
/// supersedes the one stored before it: the timers to start. Without an
/// observer no timer is started.
pub fn cycle_timeouts<MsgT: Clone>(
    stored: &mut HashMap<u64, Version<Timeout<MsgT>>>,
    timeout_versions: Vec<Version<Timeout<MsgT>>>,
    observing: bool,
) -> (started: Vec<Timeout<MsgT>>)
    ensures
        final(stored)@ == timeouts_after(old(stored)@, timeout_versions@),
        !observing ==> started@.len() == 0,
        observing ==> started@.len() == new_timeouts(old(stored)@, timeout_versions@).len(),
        observing ==> forall|i: int|
            0 <= i < started@.len() ==> {
                let v = #[trigger] new_timeouts(old(stored)@, timeout_versions@)[i];
                &&& started@[i].id == v.value.id
                &&& started@[i].duration == v.value.duration
                &&& cloned(v.value.msg, started@[i].msg)
            },
{
    let ghost start = stored@;
    let ghost all = timeout_versions@;
    let mut started: Vec<Timeout<MsgT>> = Vec::new();
    for timeout_version in it: timeout_versions
        invariant
            all == it.seq(),
            stored@ == timeouts_after(start, all.take(it.index() as int)),
            !observing ==> started@.len() == 0,
            observing ==> started@.len() == new_timeouts(start, all.take(it.index() as int)).len(),
            observing ==> forall|i: int|
                0 <= i < started@.len() ==> {
                    let v = #[trigger] new_timeouts(start, all.take(it.index() as int))[i];
                    &&& started@[i].id == v.value.id
                    &&& started@[i].duration == v.value.duration
                    &&& cloned(v.value.msg, started@[i].msg)
                },
    {
        let ghost k = it.index() as int;
        proof {
            assert(all.take(k + 1).drop_last() =~= all.take(k));
            assert(all.take(k + 1).last() == timeout_version);
        }
        let id = timeout_version.value.id;
        if observing {
            let upgrades = match stored.get(&id) {
                Some(old_version) => timeout_version.upgrades(old_version),
                None => timeout_version.upgrades_option(&None),
            };
            if upgrades {
                started.push(
                    Timeout {
                        id,
                        msg: timeout_version.value.msg.clone(),
                        duration: timeout_version.value.duration,
                    },
                );
            }
        }
        stored.insert(id, timeout_version);
    }
    proof {
        assert(all.take(all.len() as int) =~= all);
    }
    started
}

/// The edit a key press makes to a text entry: the text the key types, a
/// deletion for the backspace key, and none for any other key.
pub fn key_input(keycode: Key) -> (input: Option<Input>)
    ensures
        match input {
            Some(Input::Insert(text)) => key_text(keycode) == Some(text@),
            Some(Input::DeleteBack) => key_text(keycode) is None && keycode == Key::Back,
            None => key_text(keycode) is None && keycode != Key::Back,
        },
{
    if let Some(string) = code_to_string(keycode) {
        Some(Input::Insert(string))
    } else if keycode == Key::Back {
        Some(Input::DeleteBack)
    } else {
        None
    }
}

/// The ids under which a window sends the blocks of one layout to the
/// screen: consecutive ids starting at `seed`, one per block.
pub fn block_ids(seed: u64, count: usize) -> (ids: Vec<u64>)
    requires
        seed + count <= u64::MAX + 1,
    ensures
        ids@.len() == count,
        forall|i: int| 0 <= i < count ==> ids@[i] == seed + i,
{
    let mut ids: Vec<u64> = Vec::new();
    let mut i: usize = 0;
    while i < count
        invariant
            i <= count,
            seed + count <= u64::MAX + 1,
            ids@.len() == i,
            forall|j: int| 0 <= j < i ==> ids@[j] == seed + j,
        decreases count - i,
    {
        ids.push(seed + (i as u64));
        i = i + 1;
    }
    ids
}

/// Whether some pair of `adapters` carries `tag`.
pub open spec fn has_tag<A>(adapters: Seq<(u64, A)>, tag: u64) -> bool {
    exists|i: int| 0 <= i < adapters.len() && adapters[i].0 == tag
}

/// The adapter of the first pair of `touch_adapters` that carries
/// `recipient_tag`.
pub fn find_touch_adapter<A>(touch_adapters: &Vec<(u64, A)>, recipient_tag: u64) -> (found: Option<
    &A,
>)
    ensures
        found is None <==> !has_tag(touch_adapters@, recipient_tag),
        found matches Some(a) ==> exists|i: int|
            0 <= i < touch_adapters@.len() && touch_adapters@[i].0 == recipient_tag
                && *a == touch_adapters@[i].1 && forall|j: int|
                0 <= j < i ==> touch_adapters@[j].0 != recipient_tag,
{
    let mut i: usize = 0;
    while i < touch_adapters.len()
        invariant
            i <= touch_adapters@.len(),
            forall|j: int| 0 <= j < i ==> touch_adapters@[j].0 != recipient_tag,
        decreases touch_adapters@.len() - i,
    {
        if touch_adapters[i].0 == recipient_tag {
            return Some(&touch_adapters[i].1);
        }
        i = i + 1;
    }
    None
}

} // verus!
