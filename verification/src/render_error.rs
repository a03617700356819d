//! Error types for rendering operations.

use vstd::prelude::*;
use crate::discord::UserId;

verus! {

/// Errors that can occur during rendering setup or operations.
#[derive(Debug)]
pub enum RenderError {
    /// EGL display not found or initialization failed.
    EglDisplayNotFound(String),
    /// EGL config selection failed.
    EglConfigSelectionFailed(String),
    /// EGL context creation failed.
    EglContextCreationFailed(String),
    /// EGL surface creation failed.
    EglSurfaceCreationFailed(String),
    /// OpenGL shader compilation failed.
    ShaderCompilationFailed { stage: &'static str, log: String },
    /// OpenGL program linking failed.
    ProgramLinkingFailed(String),
    /// Texture creation failed.
    TextureCreationFailed(String),
    /// Buffer object creation failed.
    BufferCreationFailed(String),
    /// Image decoding failed.
    ImageDecodeFailed { user_id: UserId, error: String },
    /// Font rendering failed.
    FontRenderingFailed(String),
}

impl RenderError {
    /// The message that describes the error.
    pub open spec fn message(&self) -> Seq<char> {
        match self {
            RenderError::EglDisplayNotFound(e) => "EGL display not found: "@ + e@,
            RenderError::EglConfigSelectionFailed(e) => "EGL config selection failed: "@ + e@,
            RenderError::EglContextCreationFailed(e) => "EGL context creation failed: "@ + e@,
            RenderError::EglSurfaceCreationFailed(e) => "EGL surface creation failed: "@ + e@,
            RenderError::ShaderCompilationFailed { stage, log } =>
                stage@ + " shader compilation failed: "@ + log@,
            RenderError::ProgramLinkingFailed(e) => "Program linking failed: "@ + e@,
            RenderError::TextureCreationFailed(e) => "Texture creation failed: "@ + e@,
            RenderError::BufferCreationFailed(e) => "Buffer creation failed: "@ + e@,
            RenderError::ImageDecodeFailed { user_id, error } =>
                "Failed to decode avatar image for user "@ + user_id.0@ + ": "@ + error@,
            RenderError::FontRenderingFailed(e) => "Font rendering failed: "@ + e@,
        }
    }

    /// The error's message as a `String`.
    pub fn to_string(&self) -> (r: String)
        ensures
            r@ == self.message(),
    {
        let mut s: String;
        match self {
            RenderError::EglDisplayNotFound(e) => {
                s = "EGL display not found: ".to_owned();
                s.append(e.as_str());
            },
            RenderError::EglConfigSelectionFailed(e) => {
                s = "EGL config selection failed: ".to_owned();
                s.append(e.as_str());
            },
            RenderError::EglContextCreationFailed(e) => {
                s = "EGL context creation failed: ".to_owned();
                s.append(e.as_str());
            },
            RenderError::EglSurfaceCreationFailed(e) => {
                s = "EGL surface creation failed: ".to_owned();
                s.append(e.as_str());
            },
            RenderError::ShaderCompilationFailed { stage, log } => {
                s = (*stage).to_owned();
                s.append(" shader compilation failed: ");
                s.append(log.as_str());
            },
            RenderError::ProgramLinkingFailed(e) => {
                s = "Program linking failed: ".to_owned();
                s.append(e.as_str());
            },
            RenderError::TextureCreationFailed(e) => {
                s = "Texture creation failed: ".to_owned();
                s.append(e.as_str());
            },
            RenderError::BufferCreationFailed(e) => {
                s = "Buffer creation failed: ".to_owned();
                s.append(e.as_str());
            },
            RenderError::ImageDecodeFailed { user_id, error } => {
                s = "Failed to decode avatar image for user ".to_owned();
                s.append(user_id.as_str());
                s.append(": ");
                s.append(error.as_str());
            },
            RenderError::FontRenderingFailed(e) => {
                s = "Font rendering failed: ".to_owned();
                s.append(e.as_str());
            },
        }
        s
    }
}

} // verus!
