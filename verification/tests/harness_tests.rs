use egui_kittest::events::{
    Button, ElementState, Key, ModifierState, NativeButton, NativeEvent, PointerPos,
    SimulatedEvent,
};
use egui_kittest::harness::{
    AccessNode, AccessUpdate, FrameOutput, Harness, HarnessError, PixelDensity, TextureDelta,
};
use egui_kittest::render::{TexOp, ledger_ops, plan_render};

fn update_with_label(id: u64, label: &str) -> AccessUpdate {
    AccessUpdate { nodes: vec![AccessNode { id, label: String::from(label) }] }
}

fn output_with_update(update: AccessUpdate) -> FrameOutput {
    FrameOutput {
        shapes: Vec::new(),
        textures_delta: TextureDelta::empty(),
        accesskit_update: Some(update),
    }
}

fn empty_frame() -> FrameOutput {
    output_with_update(AccessUpdate { nodes: Vec::new() })
}

fn pos_of(x: f32, y: f32) -> PointerPos {
    PointerPos { x_bits: x.to_bits(), y_bits: y.to_bits() }
}

#[test]
fn construction_requires_accessibility() {
    let initial = FrameOutput {
        shapes: Vec::new(),
        textures_delta: TextureDelta::empty(),
        accesskit_update: None,
    };
    match Harness::new(initial) {
        Err(e) => assert_eq!(e, HarnessError::AccessKitDisabled),
        Ok(_) => panic!("construction must fail without an accessibility update"),
    }
}

#[test]
fn construction_feeds_first_update_and_ledger_entry() {
    // A callback that renders nothing but a static label: the first frame's
    // update carries exactly one node with the label's text, and the ledger
    // holds exactly one (here empty) entry for that first frame. A later run
    // replays another frame and appends its own entry.
    let initial = output_with_update(update_with_label(1, "Hello, world!"));
    let (mut harness, update) = Harness::new(initial).unwrap();
    assert_eq!(update.nodes.len(), 1);
    assert_eq!(update.nodes[0].label, "Hello, world!");
    assert_eq!(harness.ledger.len(), 1);
    assert_eq!(harness.ledger[0], TextureDelta::empty());

    let batch = harness.begin_frame(Vec::new());
    assert!(batch.is_empty());
    let second = harness
        .finish_frame(output_with_update(update_with_label(1, "Hello, world!")))
        .unwrap();
    assert_eq!(second.nodes.len(), 1);
    assert_eq!(harness.ledger.len(), 2);
}

#[test]
fn move_then_click_batch() {
    // Queue a pointer-move to (50, 50), then a press of the primary button:
    // the translated batch holds exactly two native events, the second
    // stamped with (50, 50).
    let (mut harness, _) = Harness::new(empty_frame()).unwrap();
    let sims = vec![
        SimulatedEvent::CursorMoved { pos: pos_of(50.0, 50.0) },
        SimulatedEvent::MouseInput { state: ElementState::Pressed, button: Button::Left },
    ];
    let batch = harness.begin_frame(sims);
    assert_eq!(batch.len(), 2);
    assert_eq!(batch[0], NativeEvent::PointerMoved(pos_of(50.0, 50.0)));
    assert_eq!(
        batch[1],
        NativeEvent::PointerButton {
            button: NativeButton::Primary,
            modifiers: ModifierState::no_modifiers(),
            pos: pos_of(50.0, 50.0),
            pressed: true,
        }
    );
    assert!(harness.input().is_empty());
}

#[test]
fn control_then_unmapped_key_batch() {
    // A control-key-down followed by an unmapped key-down: the control flag
    // is set and exactly one native event is emitted, for the modifier key.
    let (mut harness, _) = Harness::new(empty_frame()).unwrap();
    let sims = vec![
        SimulatedEvent::KeyInput { state: ElementState::Pressed, key: Key::Control },
        SimulatedEvent::KeyInput { state: ElementState::Pressed, key: Key::CapsLock },
    ];
    let batch = harness.begin_frame(sims);
    assert!(harness.modifiers.control);
    assert_eq!(batch.len(), 1);
    assert_eq!(
        batch[0],
        NativeEvent::Key {
            key: egui_kittest::events::NativeKey::Control,
            modifiers: ModifierState { shift: false, control: true, alt: false, command: false },
            pressed: true,
            repeat: false,
        }
    );
}

#[test]
fn modifier_and_position_survive_across_frames() {
    let (mut harness, _) = Harness::new(empty_frame()).unwrap();
    let batch = harness.begin_frame(vec![
        SimulatedEvent::KeyInput { state: ElementState::Pressed, key: Key::Shift },
        SimulatedEvent::CursorMoved { pos: pos_of(7.0, 9.0) },
    ]);
    assert_eq!(batch.len(), 2);
    harness.finish_frame(empty_frame()).unwrap();
    // The next frame's button press still sees the shift flag and position.
    let batch = harness.begin_frame(vec![SimulatedEvent::MouseInput {
        state: ElementState::Released,
        button: Button::Right,
    }]);
    assert_eq!(
        batch,
        vec![NativeEvent::PointerButton {
            button: NativeButton::Secondary,
            modifiers: ModifierState { shift: true, control: false, alt: false, command: false },
            pos: pos_of(7.0, 9.0),
            pressed: false,
        }]
    );
}

#[test]
fn finish_frame_without_update_is_fatal_and_changes_nothing() {
    let (mut harness, _) = Harness::new(empty_frame()).unwrap();
    let bad = FrameOutput {
        shapes: vec![3],
        textures_delta: TextureDelta { updates: vec![9], frees: Vec::new() },
        accesskit_update: None,
    };
    assert_eq!(harness.finish_frame(bad), Err(HarnessError::AccessKitDisabled));
    assert_eq!(harness.ledger.len(), 1);
    assert!(harness.output.shapes.is_empty());
}

#[test]
fn ledger_counts_frames_and_render_clears_it() {
    // One ledger entry per frame; a render consumes them all, whatever their
    // number.
    let (mut harness, _) = Harness::new(empty_frame()).unwrap();
    plan_render(&mut harness);
    assert_eq!(harness.ledger.len(), 0);
    for n in 1..=3u64 {
        harness.begin_frame(Vec::new());
        harness.finish_frame(empty_frame()).unwrap();
        assert_eq!(harness.ledger.len() as u64, n);
    }
    plan_render(&mut harness);
    assert_eq!(harness.ledger.len(), 0);
}

#[test]
fn render_twice_plans_identical_work() {
    // Rendering twice with no frame in between: the second plan replays no
    // texture operations and tessellates the same shapes at the same size.
    let (mut harness, _) = Harness::new(FrameOutput {
        shapes: vec![11, 22],
        textures_delta: TextureDelta { updates: vec![1], frees: Vec::new() },
        accesskit_update: Some(AccessUpdate { nodes: Vec::new() }),
    })
    .unwrap();
    let first = plan_render(&mut harness);
    assert_eq!(first.texture_ops, vec![TexOp::Upload(1)]);
    let second = plan_render(&mut harness);
    assert!(second.texture_ops.is_empty());
    assert_eq!(second.width_px, first.width_px);
    assert_eq!(second.height_px, first.height_px);
    assert_eq!(second.shapes, first.shapes);
    assert_eq!(second.shapes, vec![11, 22]);
}

#[test]
fn plan_sizes_round_toward_zero() {
    let (mut harness, _) = Harness::new(empty_frame()).unwrap();
    harness.set_size(101, 50);
    harness.set_dpi(PixelDensity { num: 3, den: 2 });
    let plan = plan_render(&mut harness);
    assert_eq!(plan.width_px, 151); // 101 * 1.5 = 151.5, toward zero
    assert_eq!(plan.height_px, 75);
}

#[test]
fn plan_sizes_at_extremes() {
    let (mut harness, _) = Harness::new(empty_frame()).unwrap();
    harness.set_size(u32::MAX, 10);
    harness.set_dpi(PixelDensity { num: u32::MAX, den: 1 });
    let plan = plan_render(&mut harness);
    assert_eq!(plan.width_px, u32::MAX as u64 * u32::MAX as u64);
    assert_eq!(plan.height_px, 10 * u32::MAX as u64);
    harness.set_dpi(PixelDensity { num: 0, den: 7 });
    let plan = plan_render(&mut harness);
    assert_eq!(plan.width_px, 0);
    assert_eq!(plan.height_px, 0);
}

#[test]
fn ledger_ops_preserve_insertion_order() {
    let ledger = vec![
        TextureDelta { updates: vec![1, 2], frees: Vec::new() },
        TextureDelta { updates: vec![2], frees: vec![1] },
    ];
    let ops = ledger_ops(&ledger);
    assert_eq!(
        ops,
        vec![TexOp::Upload(1), TexOp::Upload(2), TexOp::Upload(2), TexOp::Free(1)]
    );
}

#[test]
fn manual_injection_precedes_translated_events() {
    let (mut harness, _) = Harness::new(empty_frame()).unwrap();
    harness.input_mut().push(NativeEvent::Text(String::from("typed")));
    let batch = harness.begin_frame(vec![SimulatedEvent::CursorMoved { pos: pos_of(1.0, 2.0) }]);
    assert_eq!(batch.len(), 2);
    assert_eq!(batch[0], NativeEvent::Text(String::from("typed")));
    assert_eq!(batch[1], NativeEvent::PointerMoved(pos_of(1.0, 2.0)));
}

#[test]
fn output_reflects_last_frame() {
    let (mut harness, _) = Harness::new(empty_frame()).unwrap();
    harness.begin_frame(Vec::new());
    harness
        .finish_frame(FrameOutput {
            shapes: vec![5, 6, 7],
            textures_delta: TextureDelta { updates: vec![4], frees: Vec::new() },
            accesskit_update: Some(AccessUpdate { nodes: Vec::new() }),
        })
        .unwrap();
    assert_eq!(harness.output().shapes, vec![5, 6, 7]);
    // The delta went to the ledger, not to the stored output.
    assert_eq!(harness.output().textures_delta, TextureDelta::empty());
    assert_eq!(harness.ledger[1], TextureDelta { updates: vec![4], frees: Vec::new() });
}
