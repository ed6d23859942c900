//! What a dispatch session delivers, mathematically.
//!
//! A session owns a stream of native events. Its full event stream is the
//! queue left over from earlier sessions followed by the fan-out of each
//! native event in order; the caller's callback answers every delivered
//! event with a control-flow signal, and the first `Break` cuts the stream.

use vstd::prelude::*;
use crate::event::Event;
use crate::events_loop::ControlFlow;
use crate::keyboard::Modifiers;
use crate::native::{spec_wakeup_event, NativeEvent};
use crate::translate::{spec_step_modifiers, spec_translate_events, WindowEntry};

verus! {

/// Every canonical event a stream of native events fans out to, in
/// delivery order, threading the modifier state through the stream.
pub open spec fn spec_session_events(
    m: Modifiers,
    windows: Seq<WindowEntry>,
    native: Seq<NativeEvent>,
) -> Seq<Event>
    decreases native.len(),
{
    if native.len() == 0 {
        Seq::<Event>::empty()
    } else {
        spec_translate_events(m, windows, native[0]) + spec_session_events(
            spec_step_modifiers(m, native[0]),
            windows,
            native.drop_first(),
        )
    }
}

/// The tracked modifier state after a stream of native events.
pub open spec fn spec_session_modifiers(m: Modifiers, native: Seq<NativeEvent>) -> Modifiers
    decreases native.len(),
{
    if native.len() == 0 {
        m
    } else {
        spec_session_modifiers(spec_step_modifiers(m, native[0]), native.drop_first())
    }
}

/// Processing a stream in two parts is processing it at once.
pub proof fn lemma_session_append(
    m: Modifiers,
    windows: Seq<WindowEntry>,
    s1: Seq<NativeEvent>,
    s2: Seq<NativeEvent>,
)
    ensures
        spec_session_events(m, windows, s1 + s2) == spec_session_events(m, windows, s1)
            + spec_session_events(spec_session_modifiers(m, s1), windows, s2),
        spec_session_modifiers(m, s1 + s2) == spec_session_modifiers(
            spec_session_modifiers(m, s1),
            s2,
        ),
    decreases s1.len(),
{
    if s1.len() == 0 {
        assert(s1 + s2 =~= s2);
        assert(spec_session_events(m, windows, s1 + s2) =~= spec_session_events(
            m,
            windows,
            s1,
        ) + spec_session_events(spec_session_modifiers(m, s1), windows, s2));
    } else {
        let m1 = spec_step_modifiers(m, s1[0]);
        assert((s1 + s2)[0] == s1[0]);
        assert((s1 + s2).drop_first() =~= s1.drop_first() + s2);
        lemma_session_append(m1, windows, s1.drop_first(), s2);
        assert(spec_session_events(m, windows, s1 + s2) =~= spec_session_events(
            m,
            windows,
            s1,
        ) + spec_session_events(spec_session_modifiers(m, s1), windows, s2));
    }
}

/// A single native event's session is exactly its fan-out.
pub proof fn lemma_session_singleton(m: Modifiers, windows: Seq<WindowEntry>, ev: NativeEvent)
    ensures
        spec_session_events(m, windows, seq![ev]) == spec_translate_events(m, windows, ev),
        spec_session_modifiers(m, seq![ev]) == spec_step_modifiers(m, ev),
{
    reveal_with_fuel(spec_session_events, 2);
    reveal_with_fuel(spec_session_modifiers, 2);
    assert(seq![ev].drop_first() =~= Seq::<NativeEvent>::empty());
    assert(spec_session_events(m, windows, seq![ev]) =~= spec_translate_events(m, windows, ev));
}

/// Whether the callback's answer to the event delivered at position `i`
/// was `Break`; positions past the end of the recorded answers count as
/// `Continue`.
pub open spec fn spec_is_break(decisions: Seq<ControlFlow>, i: int) -> bool {
    0 <= i < decisions.len() && decisions[i] is Break
}

/// The offset, among `count` events delivered from position `base` on, of
/// the first one answered with `Break`; negative when none is.
pub open spec fn spec_first_break_from(
    decisions: Seq<ControlFlow>,
    base: int,
    count: int,
) -> int
    decreases count,
{
    if count <= 0 {
        -1
    } else if spec_is_break(decisions, base) {
        0
    } else {
        let rec = spec_first_break_from(decisions, base + 1, count - 1);
        if rec < 0 {
            -1
        } else {
            1 + rec
        }
    }
}

/// What the first-break offset means: it points at a `Break` answer with
/// none before it, and it is negative exactly when no answer in the range
/// is `Break`.
pub proof fn lemma_first_break_char(decisions: Seq<ControlFlow>, base: int, count: int)
    ensures
        ({
            let fb = spec_first_break_from(decisions, base, count);
            &&& fb >= 0 ==> 0 <= fb < count && spec_is_break(decisions, base + fb) && (forall|
                t: int,
            |
                base <= t < base + fb ==> !spec_is_break(decisions, t))
            &&& fb < 0 ==> forall|t: int| base <= t < base + count ==> !spec_is_break(decisions, t)
        }),
    decreases count,
{
    if count <= 0 {
    } else if spec_is_break(decisions, base) {
    } else {
        lemma_first_break_char(decisions, base + 1, count - 1);
    }
}

/// How many native events a session translates before it has produced
/// `needed` canonical events; the whole stream when it never does.
pub open spec fn spec_natives_consumed(
    m: Modifiers,
    windows: Seq<WindowEntry>,
    native: Seq<NativeEvent>,
    needed: int,
) -> int
    decreases native.len(),
{
    if needed <= 0 || native.len() == 0 {
        0
    } else {
        1 + spec_natives_consumed(
            spec_step_modifiers(m, native[0]),
            windows,
            native.drop_first(),
            needed - spec_translate_events(m, windows, native[0]).len(),
        )
    }
}

/// A longer prefix of the stream never produces fewer events.
pub proof fn lemma_session_prefix_len(
    m: Modifiers,
    windows: Seq<WindowEntry>,
    native: Seq<NativeEvent>,
    k1: int,
    k2: int,
)
    requires
        0 <= k1 <= k2 <= native.len(),
    ensures
        spec_session_events(m, windows, native.take(k1)).len() <= spec_session_events(
            m,
            windows,
            native.take(k2),
        ).len(),
    decreases k2 - k1,
{
    if k1 < k2 {
        lemma_session_prefix_len(m, windows, native, k1, k2 - 1);
        lemma_session_append(m, windows, native.take(k2 - 1), seq![native[k2 - 1]]);
        assert(native.take(k2 - 1) + seq![native[k2 - 1]] =~= native.take(k2));
    }
}

/// The consumed count is where the produced-event count first reaches
/// `needed`: `i` native events were translated exactly when every shorter
/// prefix produced fewer than `needed` events and the prefix of `i` did
/// not.
pub proof fn lemma_natives_consumed_at(
    m: Modifiers,
    windows: Seq<WindowEntry>,
    native: Seq<NativeEvent>,
    needed: int,
    i: int,
)
    requires
        0 <= i <= native.len(),
        forall|k: int|
            0 <= k < i ==> spec_session_events(m, windows, #[trigger] native.take(k)).len()
                < needed,
        spec_session_events(m, windows, native.take(i)).len() >= needed,
    ensures
        spec_natives_consumed(m, windows, native, needed) == i,
    decreases i,
{
    if i == 0 {
        assert(native.take(0) =~= Seq::<NativeEvent>::empty());
        assert(spec_session_events(m, windows, native.take(0)).len() == 0);
    } else {
        assert(spec_session_events(m, windows, native.take(0)).len() < needed);
        assert(native.take(0) =~= Seq::<NativeEvent>::empty());
        assert(needed > 0);
        let m1 = spec_step_modifiers(m, native[0]);
        let needed1 = needed - spec_translate_events(m, windows, native[0]).len();
        let rest = native.drop_first();
        assert forall|k: int|
            0 <= k < i - 1 implies spec_session_events(m1, windows, #[trigger] rest.take(k)).len()
            < needed1 by {
            lemma_session_singleton(m, windows, native[0]);
            lemma_session_append(m, windows, seq![native[0]], rest.take(k));
            assert(seq![native[0]] + rest.take(k) =~= native.take(k + 1));
            assert(spec_session_events(m, windows, native.take(k + 1)).len() < needed);
        }
        assert(spec_session_events(m1, windows, rest.take(i - 1)).len() >= needed1) by {
            lemma_session_singleton(m, windows, native[0]);
            lemma_session_append(m, windows, seq![native[0]], rest.take(i - 1));
            assert(seq![native[0]] + rest.take(i - 1) =~= native.take(i));
        }
        lemma_natives_consumed_at(m1, windows, rest, needed1, i - 1);
    }
}

/// The events a session delivers, out of its full event stream: the whole
/// stream when no delivered event is answered with `Break`, otherwise the
/// stream up to and including the first event answered with `Break`.
pub open spec fn spec_delivered_events(
    full: Seq<Event>,
    decisions: Seq<ControlFlow>,
) -> Seq<Event> {
    let fb = spec_first_break_from(decisions, 0, full.len() as int);
    if fb < 0 {
        full
    } else {
        full.take(fb + 1)
    }
}

/// Fan-out delivery: what a session delivers is a prefix of its full
/// event stream — every event up to the cut is delivered exactly once, in
/// order, and nothing after the cut is ever delivered. Without a `Break`
/// the whole stream is delivered; with one, delivery ends exactly at the
/// first event answered with `Break`.
pub proof fn lemma_delivered_events_prefix(full: Seq<Event>, decisions: Seq<ControlFlow>)
    ensures
        spec_delivered_events(full, decisions).len() <= full.len(),
        forall|i: int|
            0 <= i < spec_delivered_events(full, decisions).len()
                ==> spec_delivered_events(full, decisions)[i] == full[i],
        (forall|i: int| 0 <= i < full.len() ==> !spec_is_break(decisions, i))
            ==> spec_delivered_events(full, decisions) == full,
        ({
            let fb = spec_first_break_from(decisions, 0, full.len() as int);
            fb >= 0 ==> spec_delivered_events(full, decisions).len() == fb + 1
                && spec_is_break(decisions, fb) && (forall|t: int|
                0 <= t < fb ==> !spec_is_break(decisions, t))
        }),
{
    lemma_first_break_char(decisions, 0, full.len() as int);
}

/// Wakeup is never lost and never invented: a stream of `k` posted wakeup
/// events fans out to exactly `k` `Awakened` events — at least one when
/// any wakeup was posted, and never more than were posted — and leaves
/// the modifier state alone.
pub proof fn lemma_wakeup_awakened(m: Modifiers, windows: Seq<WindowEntry>, k: nat)
    ensures
        spec_session_events(m, windows, Seq::new(k, |i: int| spec_wakeup_event())) == Seq::new(
            k,
            |i: int| Event::Awakened,
        ),
        spec_session_modifiers(m, Seq::new(k, |i: int| spec_wakeup_event())) == m,
    decreases k,
{
    let wakeups = Seq::new(k, |i: int| spec_wakeup_event());
    if k == 0 {
        assert(spec_session_events(m, windows, wakeups) =~= Seq::new(k, |i: int| Event::Awakened));
    } else {
        lemma_wakeup_awakened(m, windows, (k - 1) as nat);
        assert(wakeups.drop_first() =~= Seq::new((k - 1) as nat, |i: int| spec_wakeup_event()));
        assert(spec_translate_events(m, windows, wakeups[0]) =~= seq![Event::Awakened]);
        assert(spec_step_modifiers(m, wakeups[0]) == m);
        assert(spec_session_events(m, windows, wakeups) =~= Seq::new(k, |i: int| Event::Awakened));
    }
}

} // verus!
