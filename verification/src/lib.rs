//! A retained-mode GUI widget layer: a tree of positioned, drawable,
//! interactive elements updated once per frame from discrete pointer and
//! keyboard samples.
//!
//! The engine works in whole screen pixels (`i64`) and per-mille fractions,
//! so every frame step is a deterministic function of the sampled input.
//! Rendering is expressed as plain draw-command values; a host program
//! forwards them to whatever graphics backend it uses, and feeds the input
//! samples in.

pub mod num;
pub mod geom;
pub mod event;
pub mod color;
pub mod keys;
pub mod theme;
pub mod node;
pub mod ui_text;
pub mod ui_button;
pub mod ui_radio;
pub mod ui_input;
pub mod ui_box;
pub mod tree;
pub mod laws;
pub mod root;
pub mod draw;
pub mod render;

pub use num::clamp_px;
pub use num::COORD_LIMIT;
pub use geom::{UiSize, UiAlign, UiRect, AbsRect, point_in_rect, resolve_rect};
pub use event::{UiAction, UiMouseAction, EventStep, mouse_action, update_event};
pub use color::{Color, contrast_color, adjust_alpha, mix_colors};
pub use keys::{UiKey, key_char};
pub use theme::UiTheme;
pub use node::{FrameCtx, ActionTarget, UiKind, UiMetaData};
pub use ui_text::{UiText, UiTextParams};
pub use ui_button::{UiButton, UiButtonParams};
pub use ui_radio::{UiRadio, UiRadioParams};
pub use ui_input::{UiInput, UiInputParams};
pub use ui_box::{UiBox, UiBoxParams};
pub use tree::UiElement;
pub use laws::{count_active_elem, count_active_children, count_holding_elem, count_holding_children};
pub use root::{UiRoot, FrameInput, UiCursor, cursor_hint};
pub use draw::{DrawCmd, DrawOp, str_to_chars};
pub use render::{text_render_spec, button_render_spec, input_render_spec, radio_render_spec, elem_render_spec, children_render_spec};
