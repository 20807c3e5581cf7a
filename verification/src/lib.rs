//! The verified core of a bridge between an immediate-mode GUI and a 2D game
//! framework: input translation, input arbitration, the font atlas and mesh
//! batches, and the order of the steps of a frame.

pub mod accumulator;
pub mod arbitration;
pub mod atlas;
pub mod batches;
pub mod demo;
pub mod effects;
pub mod error;
pub mod gui;
pub mod held_keys;
pub mod input;
pub mod keys;
pub mod lifecycle;
pub mod shim;

pub use accumulator::{FrameInput, RawInputAccumulator, ScreenSize};
pub use arbitration::{Deferred, DeferredEventQueue, EventCategory, GuiVerdict};
pub use atlas::{AtlasImage, FontAtlas, TextureData};
pub use batches::{ClipRect, DrawCommand, FrameDrawStep, MeshBatch, MeshSettings};
pub use demo::MainState;
pub use effects::{GuiOutput, SideEffect};
pub use error::{Error, OpenAttempt, OpenUrlError};
pub use input::{
    ClipboardError, ClipboardRead, GuiEvent, HeldModifiers, HostEvent, HostInput, ModifierState,
    PointerPos,
};
pub use keys::{GuiKey, GuiPointerButton, HostKey, HostMouseButton, ModifierFamily};
pub use lifecycle::{EguiWrapper, FramePhase};
pub use shim::StateWrapper;
