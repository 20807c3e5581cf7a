use egui_tetra::accumulator::ScreenSize;
use egui_tetra::batches::{ClipRect, DrawCommand, FrameDrawStep, MeshBatch};
use egui_tetra::effects::{GuiOutput, SideEffect};
use egui_tetra::error::Error;
use egui_tetra::input::{
    ClipboardError, ClipboardRead, GuiEvent, HostEvent, HostInput, ModifierState, PointerPos,
};
use egui_tetra::keys::{GuiKey, HostKey};
use egui_tetra::lifecycle::{EguiWrapper, FramePhase};
use egui_tetra::shim::StateWrapper;
use egui_tetra::atlas::AtlasImage;

type Wrapper = EguiWrapper<&'static str, &'static str>;
type Shim = StateWrapper<&'static str, &'static str, &'static str>;

fn host(ctrl_down: bool) -> HostInput {
    HostInput { ctrl_down, pointer: PointerPos { x_bits: 0, y_bits: 0 } }
}

fn screen() -> ScreenSize {
    ScreenSize { width: 640, height: 480 }
}

fn clip(n: i32) -> ClipRect {
    ClipRect { x: n, y: n, width: 10, height: 10 }
}

fn quiet() -> GuiOutput {
    GuiOutput { copied_text: String::new(), open_url: None }
}

fn image() -> AtlasImage {
    AtlasImage { generation: 1, width: 1, height: 1, alpha: vec![255] }
}

fn with_atlas() -> Wrapper {
    let mut wrapper = Wrapper::new(0);
    wrapper.install_atlas_texture(1, "atlas");
    wrapper
}

#[test]
fn new_wrapper_is_idle_and_empty() {
    let wrapper = Wrapper::new(100);
    assert_eq!(wrapper.current_phase(), FramePhase::Idle);
    assert_eq!(wrapper.pending_len(), 0);
    assert_eq!(wrapper.batch_count(), 0);
    assert_eq!(wrapper.atlas_texture(), None);
    assert_eq!(
        wrapper.modifiers(),
        ModifierState { alt: false, ctrl: false, shift: false, command: false }
    );
}

#[test]
fn begin_frame_predicts_the_time_since_the_frame_before() {
    let mut wrapper = Wrapper::new(1_000);
    let first = wrapper.begin_frame(17_000, screen());
    assert_eq!(first.predicted_dt_nanos, 16_000);
    let second = wrapper.begin_frame(50_000, screen());
    assert_eq!(second.predicted_dt_nanos, 33_000);
    assert_eq!(second.screen, screen());
}

#[test]
fn clock_running_backwards_predicts_no_time() {
    let mut wrapper = Wrapper::new(1_000);
    let frame = wrapper.begin_frame(400, screen());
    assert_eq!(frame.predicted_dt_nanos, 0);
    let next = wrapper.begin_frame(500, screen());
    assert_eq!(next.predicted_dt_nanos, 100);
}

#[test]
fn begin_frame_takes_the_pending_input() {
    let mut wrapper = Wrapper::new(0);
    let result: Result<(), Error<()>> =
        wrapper.event(&host(false), &HostEvent::KeyPressed { key: HostKey::B }, ClipboardRead::NotRead);
    assert!(result.is_ok());
    assert_eq!(wrapper.pending_len(), 1);
    let frame = wrapper.begin_frame(1, screen());
    assert_eq!(
        frame.events,
        vec![GuiEvent::Key {
            key: GuiKey::B,
            pressed: true,
            modifiers: ModifierState { alt: false, ctrl: false, shift: false, command: false },
        }]
    );
    assert_eq!(wrapper.pending_len(), 0);
    assert_eq!(wrapper.current_phase(), FramePhase::FrameBegun);
    assert_eq!(wrapper.begin_frame(2, screen()).events, vec![]);
}

#[test]
fn wrapper_keeps_shift_while_the_right_shift_key_is_held() {
    let mut wrapper = Wrapper::new(0);
    for event in [
        HostEvent::KeyPressed { key: HostKey::LeftShift },
        HostEvent::KeyPressed { key: HostKey::RightShift },
        HostEvent::KeyReleased { key: HostKey::LeftShift },
    ] {
        let result: Result<(), Error<()>> = wrapper.event(&host(false), &event, ClipboardRead::NotRead);
        assert!(result.is_ok());
    }
    let shift = ModifierState { alt: false, ctrl: false, shift: true, command: false };
    assert_eq!(wrapper.modifiers(), shift);
    assert_eq!(wrapper.begin_frame(1, screen()).modifiers, shift);
}

#[test]
fn failed_paste_is_a_clipboard_error() {
    let mut wrapper = Wrapper::new(0);
    let result: Result<(), Error<()>> = wrapper.event(
        &host(true),
        &HostEvent::KeyPressed { key: HostKey::V },
        ClipboardRead::Failed(String::from("denied")),
    );
    match result {
        Err(Error::ClipboardError(ClipboardError::Failed(why))) => assert_eq!(why, "denied"),
        other => panic!("unexpected: {:?}", other),
    }
    assert_eq!(wrapper.pending_len(), 0);
}

#[test]
fn end_frame_stores_the_batches_and_lists_the_effects() {
    let mut wrapper = with_atlas();
    wrapper.begin_frame(1, screen());
    let effects = wrapper.end_frame(
        vec![MeshBatch { clip: clip(1), mesh: "a" }, MeshBatch { clip: clip(2), mesh: "b" }],
        GuiOutput { copied_text: String::from("c"), open_url: Some(String::from("u")) },
    );
    assert_eq!(
        effects,
        vec![SideEffect::OpenUrl(String::from("u")), SideEffect::CopyText(String::from("c"))]
    );
    assert_eq!(wrapper.current_phase(), FramePhase::FrameEnded);
    assert_eq!(wrapper.batch_count(), 2);
    assert_eq!(wrapper.batch(0).mesh, "a");
    assert_eq!(wrapper.batch(1).clip, clip(2));
}

#[test]
fn next_frame_replaces_the_batches() {
    let mut wrapper = with_atlas();
    wrapper.begin_frame(1, screen());
    wrapper.end_frame(
        vec![MeshBatch { clip: clip(1), mesh: "a" }, MeshBatch { clip: clip(2), mesh: "b" }],
        quiet(),
    );
    wrapper.begin_frame(2, screen());
    assert_eq!(wrapper.batch_count(), 0);
    wrapper.end_frame(vec![MeshBatch { clip: clip(3), mesh: "c" }], quiet());
    assert_eq!(wrapper.batch_count(), 1);
    assert_eq!(wrapper.batch(0).mesh, "c");
    assert_eq!(
        wrapper.draw_frame(),
        vec![
            DrawCommand::SetPremultipliedAlphaBlend,
            DrawCommand::SetScissor(clip(3)),
            DrawCommand::DrawMesh(0),
            DrawCommand::ResetScissor,
            DrawCommand::ResetBlend,
        ]
    );
}

#[test]
fn drawing_twice_draws_the_same_batches() {
    let mut wrapper = with_atlas();
    wrapper.begin_frame(1, screen());
    wrapper.end_frame(vec![MeshBatch { clip: clip(1), mesh: "a" }], quiet());
    let first = wrapper.draw_frame();
    let second = wrapper.draw_frame();
    assert_eq!(first, second);
    assert_eq!(first.len(), 5);
}

#[test]
fn without_atlas_texture_no_batch_is_stored() {
    let mut wrapper = Wrapper::new(0);
    wrapper.begin_frame(1, screen());
    wrapper.end_frame(vec![MeshBatch { clip: clip(1), mesh: "a" }], quiet());
    assert_eq!(wrapper.batch_count(), 0);
}

#[test]
fn atlas_is_uploaded_once_per_generation() {
    let mut wrapper = Wrapper::new(0);
    let mut uploads = 0;
    for now in 1..4 {
        wrapper.begin_frame(now, screen());
        if let Some(data) = wrapper.ensure_atlas_texture(&image()) {
            uploads += 1;
            assert_eq!(data.rgba, vec![255, 255, 255, 255]);
            wrapper.install_atlas_texture(data.generation, "atlas");
        }
        wrapper.end_frame(vec![], quiet());
    }
    assert_eq!(uploads, 1);
    assert_eq!(wrapper.atlas_texture(), Some(&"atlas"));
}

#[test]
fn shim_queues_events_for_gui_and_game() {
    let mut shim = Shim::new(0);
    let result: Result<(), Error<()>> = shim.event(
        &host(false),
        &HostEvent::KeyPressed { key: HostKey::A },
        "a down",
        ClipboardRead::NotRead,
    );
    assert!(result.is_ok());
    assert_eq!(shim.deferred_len(), 1);
    assert_eq!(shim.egui().pending_len(), 1);
}

#[test]
fn shim_drops_an_event_whose_translation_failed() {
    let mut shim = Shim::new(0);
    let result: Result<(), Error<()>> = shim.event(
        &host(true),
        &HostEvent::KeyPressed { key: HostKey::V },
        "paste",
        ClipboardRead::NotRead,
    );
    assert!(matches!(result, Err(Error::ClipboardError(ClipboardError::NotRead))));
    assert_eq!(shim.deferred_len(), 0);
    assert_eq!(shim.egui().pending_len(), 0);
}

#[test]
fn shim_deals_out_all_events_of_a_tick_and_keeps_none() {
    let mut shim = Shim::new(0);
    for name in ["one", "two", "three"] {
        let result: Result<(), Error<()>> =
            shim.event(&host(false), &HostEvent::Other, name, ClipboardRead::NotRead);
        assert!(result.is_ok());
    }
    shim.egui_mut().begin_frame(1, screen());
    shim.egui_mut().end_frame(vec![], quiet());
    let mut batch = shim.take_deferred();
    assert_eq!(shim.deferred_len(), 0);
    assert_eq!(shim.egui().current_phase(), FramePhase::Idle);
    let mut seen = vec![];
    while let Some(event) = shim.next_forwarded(&mut batch) {
        seen.push(event);
    }
    assert_eq!(seen, vec!["one", "two", "three"]);
    assert_eq!(batch.len(), 0);
}

#[test]
fn shim_draws_the_game_first() {
    let mut shim = Shim::new(0);
    shim.egui_mut().install_atlas_texture(1, "atlas");
    shim.egui_mut().begin_frame(1, screen());
    shim.egui_mut().end_frame(vec![MeshBatch { clip: clip(4), mesh: "m" }], quiet());
    assert_eq!(
        shim.draw(),
        vec![
            FrameDrawStep::Game,
            FrameDrawStep::Gui(DrawCommand::SetPremultipliedAlphaBlend),
            FrameDrawStep::Gui(DrawCommand::SetScissor(clip(4))),
            FrameDrawStep::Gui(DrawCommand::DrawMesh(0)),
            FrameDrawStep::Gui(DrawCommand::ResetScissor),
            FrameDrawStep::Gui(DrawCommand::ResetBlend),
        ]
    );
}
