//! The input translator: one simulated action becomes zero or more native
//! input events, while the modifier flags and the last pointer position are
//! updated in place. The batch fold [`translate_all`] is the reference model
//! for everything a frame's input contains.

use vstd::prelude::*;

use crate::events::{
    Button, ElementState, Key, ModifierState, NativeEvent, PointerPos, SimulatedEvent,
    button_to_native, button_to_native_spec, is_modifier_key, key_to_native, key_to_native_spec,
    modifiers_after_key,
};

verus! {

/// The modifier flags after one simulated event: only key events touch them.
pub open spec fn mods_after(m: ModifierState, e: SimulatedEvent) -> ModifierState {
    match e {
        SimulatedEvent::KeyInput { state, key } => modifiers_after_key(m, key, state is Pressed),
        _ => m,
    }
}

/// The last pointer position after one simulated event: only a move changes it.
pub open spec fn pos_after(p: PointerPos, e: SimulatedEvent) -> PointerPos {
    match e {
        SimulatedEvent::CursorMoved { pos } => pos,
        _ => p,
    }
}

/// The native events one simulated event translates to, given the modifier
/// state and pointer position in force when it is processed. A key event
/// carries the flags as updated by that same event; a button event is stamped
/// with the current pointer position; unmapped ids translate to nothing.
pub open spec fn events_of(m: ModifierState, p: PointerPos, e: SimulatedEvent) -> Seq<NativeEvent> {
    match e {
        SimulatedEvent::CursorMoved { pos } => seq![NativeEvent::PointerMoved(pos)],
        SimulatedEvent::MouseInput { state, button } => match button_to_native_spec(button) {
            Some(b) => seq![
                NativeEvent::PointerButton {
                    button: b,
                    modifiers: m,
                    pos: p,
                    pressed: state is Pressed,
                },
            ],
            None => Seq::<NativeEvent>::empty(),
        },
        SimulatedEvent::KeyInput { state, key } => match key_to_native_spec(key) {
            Some(k) => seq![
                NativeEvent::Key {
                    key: k,
                    modifiers: modifiers_after_key(m, key, state is Pressed),
                    pressed: state is Pressed,
                    repeat: false,
                },
            ],
            None => Seq::<NativeEvent>::empty(),
        },
        SimulatedEvent::Ime(text) => seq![NativeEvent::Text(text)],
        SimulatedEvent::ActionRequest(req) => seq![NativeEvent::AccessKitAction(req)],
    }
}

/// Folding a whole batch of simulated events, in order, through the
/// translator: the final modifier state, the final pointer position, and the
/// concatenation of all produced native events.
pub open spec fn translate_all(
    m: ModifierState,
    p: PointerPos,
    evs: Seq<SimulatedEvent>,
) -> (ModifierState, PointerPos, Seq<NativeEvent>)
    decreases evs.len(),
{
    if evs.len() == 0 {
        (m, p, Seq::<NativeEvent>::empty())
    } else {
        let head = evs[0];
        let rest = translate_all(mods_after(m, head), pos_after(p, head), evs.drop_first());
        (rest.0, rest.1, events_of(m, p, head) + rest.2)
    }
}

/// Translate one simulated event, updating the modifier flags and the last
/// pointer position in place and appending the produced native events.
pub fn translate_event(
    modifiers: &mut ModifierState,
    last_pos: &mut PointerPos,
    event: SimulatedEvent,
    out: &mut Vec<NativeEvent>,
)
    ensures
        *final(modifiers) == mods_after(*old(modifiers), event),
        *final(last_pos) == pos_after(*old(last_pos), event),
        final(out)@ == old(out)@ + events_of(*old(modifiers), *old(last_pos), event),
{
    let ghost m0 = *modifiers;
    let ghost p0 = *last_pos;
    let ghost out0 = out@;
    match event {
        SimulatedEvent::CursorMoved { pos } => {
            out.push(NativeEvent::PointerMoved(pos));
            *last_pos = pos;
            assert(out@ =~= out0 + events_of(m0, p0, SimulatedEvent::CursorMoved { pos }));
        }
        SimulatedEvent::MouseInput { state, button } => {
            if let Some(native) = button_to_native(button) {
                out.push(NativeEvent::PointerButton {
                    button: native,
                    modifiers: *modifiers,
                    pos: *last_pos,
                    pressed: state.is_pressed(),
                });
            }
            assert(out@ =~= out0 + events_of(m0, p0, SimulatedEvent::MouseInput { state, button }));
        }
        SimulatedEvent::KeyInput { state, key } => {
            let pressed = state.is_pressed();
            match key {
                Key::Alt => {
                    modifiers.alt = pressed;
                }
                Key::Command => {
                    modifiers.command = pressed;
                }
                Key::Control => {
                    modifiers.control = pressed;
                }
                Key::Shift => {
                    modifiers.shift = pressed;
                }
                _ => {}
            }
            assert(*modifiers == modifiers_after_key(m0, key, state is Pressed));
            if let Some(native) = key_to_native(key) {
                out.push(NativeEvent::Key {
                    key: native,
                    modifiers: *modifiers,
                    pressed,
                    repeat: false,
                });
            }
            assert(out@ =~= out0 + events_of(m0, p0, SimulatedEvent::KeyInput { state, key }));
        }
        SimulatedEvent::Ime(text) => {
            out.push(NativeEvent::Text(text));
            assert(out@ =~= out0 + events_of(m0, p0, event));
        }
        SimulatedEvent::ActionRequest(req) => {
            out.push(NativeEvent::AccessKitAction(req));
            assert(out@ =~= out0 + events_of(m0, p0, SimulatedEvent::ActionRequest(req)));
        }
    }
}

/// Translate a whole batch in FIFO order, appending every produced native
/// event; the final state and output are exactly the fold [`translate_all`].
pub fn translate_batch(
    modifiers: &mut ModifierState,
    last_pos: &mut PointerPos,
    sims: Vec<SimulatedEvent>,
    out: &mut Vec<NativeEvent>,
)
    ensures
        *final(modifiers) == translate_all(*old(modifiers), *old(last_pos), sims@).0,
        *final(last_pos) == translate_all(*old(modifiers), *old(last_pos), sims@).1,
        final(out)@ == old(out)@ + translate_all(*old(modifiers), *old(last_pos), sims@).2,
{
    let ghost m0 = *modifiers;
    let ghost p0 = *last_pos;
    let ghost out0 = out@;
    let ghost total = translate_all(m0, p0, sims@);
    let mut queue = sims;
    while queue.len() > 0
        invariant
            total == translate_all(m0, p0, sims@),
            translate_all(*modifiers, *last_pos, queue@).0 == total.0,
            translate_all(*modifiers, *last_pos, queue@).1 == total.1,
            out0.len() <= out@.len(),
            out@.take(out0.len() as int) == out0,
            out@.skip(out0.len() as int) + translate_all(*modifiers, *last_pos, queue@).2
                == total.2,
        decreases queue.len(),
    {
        let ghost m_before = *modifiers;
        let ghost p_before = *last_pos;
        let ghost q_before = queue@;
        let ghost emitted_before = out@;
        let event = queue.remove(0);
        proof {
            assert(queue@ =~= q_before.drop_first());
        }
        translate_event(modifiers, last_pos, event, out);
        proof {
            let step = events_of(m_before, p_before, q_before[0]);
            let rest = translate_all(*modifiers, *last_pos, queue@);
            assert(out@.take(out0.len() as int) =~= out0);
            assert(out@.skip(out0.len() as int) =~= emitted_before.skip(out0.len() as int) + step);
            assert((emitted_before.skip(out0.len() as int) + step) + rest.2 =~= emitted_before.skip(
                out0.len() as int,
            ) + (step + rest.2));
        }
    }
    proof {
        assert(out@ =~= out@.take(out0.len() as int) + out@.skip(out0.len() as int));
        assert(out@.skip(out0.len() as int) + Seq::<NativeEvent>::empty() =~= out@.skip(
            out0.len() as int,
        ));
    }
}

/// Appending one more simulated event to a batch translates the batch first
/// and then the new event against the state the batch left behind.
pub proof fn lemma_translate_all_snoc(
    m: ModifierState,
    p: PointerPos,
    s: Seq<SimulatedEvent>,
    e: SimulatedEvent,
)
    ensures
        translate_all(m, p, s.push(e)).0 == mods_after(translate_all(m, p, s).0, e),
        translate_all(m, p, s.push(e)).1 == pos_after(translate_all(m, p, s).1, e),
        translate_all(m, p, s.push(e)).2 == translate_all(m, p, s).2 + events_of(
            translate_all(m, p, s).0,
            translate_all(m, p, s).1,
            e,
        ),
    decreases s.len(),
{
    if s.len() == 0 {
        reveal_with_fuel(translate_all, 3);
        assert(s.push(e)[0] == e);
        assert(s.push(e).drop_first() =~= Seq::<SimulatedEvent>::empty());
        assert(translate_all(mods_after(m, e), pos_after(p, e), s.push(e).drop_first()) == (
            mods_after(m, e),
            pos_after(p, e),
            Seq::<NativeEvent>::empty(),
        ));
        assert(translate_all(m, p, s.push(e)).2 =~= translate_all(m, p, s).2 + events_of(
            translate_all(m, p, s).0,
            translate_all(m, p, s).1,
            e,
        ));
    } else {
        let m1 = mods_after(m, s[0]);
        let p1 = pos_after(p, s[0]);
        lemma_translate_all_snoc(m1, p1, s.drop_first(), e);
        assert(s.push(e)[0] == s[0]);
        assert(s.push(e).drop_first() =~= s.drop_first().push(e));
        let tail = translate_all(m1, p1, s.drop_first());
        assert(translate_all(m, p, s.push(e)).2 =~= translate_all(m, p, s).2 + events_of(
            translate_all(m, p, s).0,
            translate_all(m, p, s).1,
            e,
        ));
    }
}

/// Translating a concatenation of two batches equals translating the first
/// and then the second against the state the first left behind.
pub proof fn lemma_translate_all_concat(
    m: ModifierState,
    p: PointerPos,
    a: Seq<SimulatedEvent>,
    b: Seq<SimulatedEvent>,
)
    ensures
        translate_all(m, p, a + b).0 == translate_all(
            translate_all(m, p, a).0,
            translate_all(m, p, a).1,
            b,
        ).0,
        translate_all(m, p, a + b).1 == translate_all(
            translate_all(m, p, a).0,
            translate_all(m, p, a).1,
            b,
        ).1,
        translate_all(m, p, a + b).2 == translate_all(m, p, a).2 + translate_all(
            translate_all(m, p, a).0,
            translate_all(m, p, a).1,
            b,
        ).2,
    decreases a.len(),
{
    if a.len() == 0 {
        assert(a + b =~= b);
        assert(Seq::<NativeEvent>::empty() + translate_all(m, p, b).2 =~= translate_all(
            m,
            p,
            b,
        ).2);
    } else {
        let m1 = mods_after(m, a[0]);
        let p1 = pos_after(p, a[0]);
        lemma_translate_all_concat(m1, p1, a.drop_first(), b);
        assert((a + b)[0] == a[0]);
        assert((a + b).drop_first() =~= a.drop_first() + b);
        let head = events_of(m, p, a[0]);
        let s = translate_all(m1, p1, a.drop_first());
        let t = translate_all(s.0, s.1, b);
        assert(head + (s.2 + t.2) =~= (head + s.2) + t.2);
    }
}

/// A batch without a pointer move leaves the last pointer position alone.
pub proof fn lemma_pos_unmoved(m: ModifierState, p: PointerPos, s: Seq<SimulatedEvent>)
    requires
        forall|i: int| 0 <= i < s.len() ==> !(s[i] is CursorMoved),
    ensures
        translate_all(m, p, s).1 == p,
    decreases s.len(),
{
    if s.len() > 0 {
        assert(!(s[0] is CursorMoved));
        lemma_pos_unmoved(mods_after(m, s[0]), pos_after(p, s[0]), s.drop_first());
    }
}

/// A non-modifier key event at the end of a batch of modifier key-down events
/// reports exactly the cumulative modifier state those events built up within
/// the same batch.
pub proof fn lemma_chord_reports_batch_modifiers(
    m: ModifierState,
    p: PointerPos,
    prefix: Seq<SimulatedEvent>,
    state: ElementState,
    key: Key,
)
    requires
        forall|i: int| 0 <= i < prefix.len() ==> (#[trigger] prefix[i] matches
            SimulatedEvent::KeyInput { state: st, key: k } && st is Pressed && is_modifier_key(k)),
        !is_modifier_key(key),
        key_to_native_spec(key) is Some,
    ensures
        ({
            let chord = prefix.push(SimulatedEvent::KeyInput { state, key });
            let outputs = translate_all(m, p, chord).2;
            &&& outputs.len() > 0
            &&& outputs.last() == (NativeEvent::Key {
                key: key_to_native_spec(key).unwrap(),
                modifiers: translate_all(m, p, prefix).0,
                pressed: state is Pressed,
                repeat: false,
            })
        }),
{
    let e = SimulatedEvent::KeyInput { state, key };
    let st = translate_all(m, p, prefix);
    lemma_translate_all_snoc(m, p, prefix, e);
    assert(modifiers_after_key(st.0, key, state is Pressed) == st.0);
    let produced = events_of(st.0, st.1, e);
    assert(produced.len() == 1);
    assert((st.2 + produced).last() == produced[0]);
}

/// A pointer-button event reports the position of the most recent pointer
/// move in the same batch — not any earlier position — together with the
/// modifier state in force when it is processed.
pub proof fn lemma_button_reports_latest_move(
    m: ModifierState,
    p: PointerPos,
    prefix: Seq<SimulatedEvent>,
    pos: PointerPos,
    mid: Seq<SimulatedEvent>,
    state: ElementState,
    button: Button,
)
    requires
        forall|i: int| 0 <= i < mid.len() ==> !(#[trigger] mid[i] is CursorMoved),
        button_to_native_spec(button) is Some,
    ensures
        ({
            let left = prefix.push(SimulatedEvent::CursorMoved { pos }) + mid;
            let batch = left.push(SimulatedEvent::MouseInput { state, button });
            let outputs = translate_all(m, p, batch).2;
            &&& outputs.len() > 0
            &&& outputs.last() == (NativeEvent::PointerButton {
                button: button_to_native_spec(button).unwrap(),
                modifiers: translate_all(m, p, left).0,
                pos: pos,
                pressed: state is Pressed,
            })
        }),
{
    let moved = prefix.push(SimulatedEvent::CursorMoved { pos });
    let left = moved + mid;
    let btn = SimulatedEvent::MouseInput { state, button };
    lemma_translate_all_snoc(m, p, prefix, SimulatedEvent::CursorMoved { pos });
    assert(translate_all(m, p, moved).1 == pos);
    lemma_translate_all_concat(m, p, moved, mid);
    lemma_pos_unmoved(translate_all(m, p, moved).0, pos, mid);
    let st = translate_all(m, p, left);
    assert(st.1 == pos);
    lemma_translate_all_snoc(m, p, left, btn);
    let produced = events_of(st.0, st.1, btn);
    assert(produced.len() == 1);
    assert((st.2 + produced).last() == produced[0]);
}

/// An unmapped button or key id translates to no native event at all and
/// leaves both the modifier flags and the last pointer position untouched.
/// (A modifier key id always updates its flag, mapped or not: the flag update
/// in [`mods_after`] never consults the key mapping.)
pub proof fn lemma_unmapped_is_noop(m: ModifierState, p: PointerPos, e: SimulatedEvent)
    requires
        (e matches SimulatedEvent::MouseInput { state, button } && button_to_native_spec(button)
            is None) || (e matches SimulatedEvent::KeyInput { state, key } && key_to_native_spec(
            key,
        ) is None),
    ensures
        events_of(m, p, e) == Seq::<NativeEvent>::empty(),
        mods_after(m, e) == m,
        pos_after(p, e) == p,
{
    if let SimulatedEvent::KeyInput { state, key } = e {
        assert(!is_modifier_key(key));
        assert(modifiers_after_key(m, key, state is Pressed) == m);
    }
}

} // verus!
