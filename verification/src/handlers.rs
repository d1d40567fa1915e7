//! The fixed table of messages that the interceptor answers itself.
//!
//! Three kinds of message have a handler: a paint request, a pending change
//! of position or size, and the last message of a window that is being
//! destroyed. Every other message has none and passes through.

use vstd::prelude::*;
use crate::effect::Effect;
use crate::win32::{
    dt_center, dt_singleline, dt_vcenter, swp_nomove, swp_nosize, wm_ncdestroy, wm_paint,
    wm_windowposchanging, DT_CENTER, DT_SINGLELINE, DT_VCENTER, SWP_NOMOVE, SWP_NOSIZE,
    WM_NCDESTROY, WM_PAINT, WM_WINDOWPOSCHANGING,
};
use crate::window::WindowHandle;

verus! {

/// The kinds of message that the table tells apart.
#[derive(Clone, Copy, Debug, PartialEq, Eq, Structural)]
pub enum MessageKind {
    /// The window is asked to paint itself.
    Paint,
    /// The window is about to be moved or resized.
    PositionChanging,
    /// The window is being destroyed; no message follows this one.
    Teardown,
    /// Any other message.
    Other,
}

/// The colour that the paint handler fills with.
pub const PAINT_COLOR: u32 = 0x0000F0F0;

/// The kind of the message with identifier `message`.
pub open spec fn kind_of(message: u32) -> MessageKind {
    if message == WM_PAINT {
        MessageKind::Paint
    } else if message == WM_WINDOWPOSCHANGING {
        MessageKind::PositionChanging
    } else if message == WM_NCDESTROY {
        MessageKind::Teardown
    } else {
        MessageKind::Other
    }
}

/// The text that the paint handler draws.
pub open spec fn paint_text() -> &'static str {
    "ZOMG!"
}

/// The layout of the text that the paint handler draws: one line, centred
/// both ways.
pub open spec fn paint_format() -> u32 {
    DT_SINGLELINE | DT_CENTER | DT_VCENTER
}

/// The flags that freeze a window against a pending change: keep the size,
/// keep the position.
pub open spec fn lock_flags() -> u32 {
    SWP_NOSIZE | SWP_NOMOVE
}

/// What the paint handler does to `window`: one paint operation that fills
/// the region and draws the text, and nothing else.
pub open spec fn paint_effects(window: WindowHandle) -> Seq<Effect> {
    seq![
        Effect::BeginPaint { window },
        Effect::FillRegion { color: PAINT_COLOR },
        Effect::DrawText { text: paint_text(), format: paint_format() },
        Effect::EndPaint { window },
    ]
}

/// What the position handler does: it switches on the two freezing flags in
/// the pending change.
pub open spec fn lock_effects() -> Seq<Effect> {
    seq![Effect::SetPositionFlags { flags: lock_flags() }]
}

/// Tells the kind of a message from its identifier.
pub fn classify(message: u32) -> (kind: MessageKind)
    ensures
        kind == kind_of(message),
{
    if message == wm_paint() {
        MessageKind::Paint
    } else if message == wm_windowposchanging() {
        MessageKind::PositionChanging
    } else if message == wm_ncdestroy() {
        MessageKind::Teardown
    } else {
        MessageKind::Other
    }
}

/// The paint handler: begin, fill, draw the text, end.
pub fn paint(window: WindowHandle) -> (effects: Vec<Effect>)
    ensures
        effects@ == paint_effects(window),
{
    let format = dt_singleline() | dt_center() | dt_vcenter();
    let mut effects: Vec<Effect> = Vec::new();
    effects.push(Effect::BeginPaint { window });
    effects.push(Effect::FillRegion { color: PAINT_COLOR });
    effects.push(Effect::DrawText { text: "ZOMG!", format });
    effects.push(Effect::EndPaint { window });
    effects
}

/// The position handler: freeze the window against the pending change.
pub fn lock_position() -> (effects: Vec<Effect>)
    ensures
        effects@ == lock_effects(),
{
    let flags = swp_nosize() | swp_nomove();
    let mut effects: Vec<Effect> = Vec::new();
    effects.push(Effect::SetPositionFlags { flags });
    effects
}

} // verus!
