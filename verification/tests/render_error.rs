use hypr_overlay_wl::discord::UserId;
use hypr_overlay_wl::render_error::RenderError;

#[test]
fn display_egl_display_not_found() {
    let e = RenderError::EglDisplayNotFound("no display".into());
    assert_eq!(e.to_string(), "EGL display not found: no display");
}

#[test]
fn display_egl_config_selection_failed() {
    let e = RenderError::EglConfigSelectionFailed("bad config".into());
    assert_eq!(e.to_string(), "EGL config selection failed: bad config");
}

#[test]
fn display_egl_context_creation_failed() {
    let e = RenderError::EglContextCreationFailed("ctx err".into());
    assert_eq!(e.to_string(), "EGL context creation failed: ctx err");
}

#[test]
fn display_egl_surface_creation_failed() {
    let e = RenderError::EglSurfaceCreationFailed("surf err".into());
    assert_eq!(e.to_string(), "EGL surface creation failed: surf err");
}

#[test]
fn display_shader_compilation_failed() {
    let e = RenderError::ShaderCompilationFailed {
        stage: "vertex",
        log: "undefined var".into(),
    };
    assert_eq!(e.to_string(), "vertex shader compilation failed: undefined var");
}

#[test]
fn display_program_linking_failed() {
    let e = RenderError::ProgramLinkingFailed("link err".into());
    assert_eq!(e.to_string(), "Program linking failed: link err");
}

#[test]
fn display_texture_creation_failed() {
    let e = RenderError::TextureCreationFailed("tex err".into());
    assert_eq!(e.to_string(), "Texture creation failed: tex err");
}

#[test]
fn display_buffer_creation_failed() {
    let e = RenderError::BufferCreationFailed("buf err".into());
    assert_eq!(e.to_string(), "Buffer creation failed: buf err");
}

#[test]
fn display_image_decode_failed() {
    let e = RenderError::ImageDecodeFailed {
        user_id: UserId::from("u42"),
        error: "bad png".into(),
    };
    assert_eq!(e.to_string(), "Failed to decode avatar image for user u42: bad png");
}

#[test]
fn display_font_rendering_failed() {
    let e = RenderError::FontRenderingFailed("missing glyph".into());
    assert_eq!(e.to_string(), "Font rendering failed: missing glyph");
}
