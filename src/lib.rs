pub mod input;
pub mod layout;
pub mod shader;

pub use input::{closes_window, KeyAction, KEY_ESCAPE};
pub use layout::{buffer_bytes, interleaved_attributes, VertexAttribute};
pub use shader::{
    c_string, check_compile_status, check_link_status, info_log_len, BuildError, ShaderProgram,
    ShaderStage,
};
