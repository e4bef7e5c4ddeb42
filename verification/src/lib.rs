//! A pluggable, mockable process invocation abstraction.

mod child;
pub use child::Child;
pub use child::ScriptedChild;

mod command;
pub use command::Command;
pub use command::texts_of;

mod context;
pub use context::Context;
pub use context::ContextView;
pub use context::env_overlay;

mod env;
pub use env::EnvMap;

mod error;
pub use error::IoError;

mod exit;
pub use exit::ExitResult;
pub use exit::raw_code_spec;

mod output;
pub use output::Output;
pub use output::lemma_buffer_rendering_independent;
pub use output::output_text;
pub use output::buffer_text;
pub use output::escape_chars;
pub use output::escape_char;
pub use output::byte_list;
pub use output::dec_nat;
pub use output::dec_int;
pub use output::hex_nat;
pub use output::dec_digit;
pub use output::hex_digit;

mod runner;
pub use runner::Runner;
pub use runner::local::LocalRunner;
pub use runner::scripted::ScriptedRunner;

mod stdio;
pub use stdio::Stdio;
pub use stdio::effective_stdio;
pub use stdio::resolved_stdio;
pub use stdio::output_streams;
pub use stdio::lemma_output_unset_slots_capture;
pub use stdio::lemma_unset_slots_inherit;
