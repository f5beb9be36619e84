//! Zippify: a small clipping and bit-reduction effect.
//!
//! The verified part of the effect: which block is the input, the run
//! counting that mutes sustained silence, the 8-bit wrap of the precision
//! reduction, the table of host-facing parameters, and the editor's
//! open/close state. The sample arithmetic itself is f32 and lives with the
//! plugin.

mod block;
mod editor;
mod param;
mod precision;
mod silence;

pub use block::{has_input, input_delivered, select_input};
pub use editor::{EditorState, WINDOW_HEIGHT, WINDOW_WIDTH};
pub use param::{
    name_of, parameter_name, spec_switch_text, switch_text, ParamId, TextFormat, PARAM_NUM,
};
pub use precision::{precision_level, wrap_i8, PRECISION_STEPS};
pub use silence::{
    lemma_quiet_run_muted_after_threshold, muted, quiet_count, remove_silence, silence_mask,
    SILENT_THRESHOLD_COUNT,
};
