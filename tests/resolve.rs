use compute_vk::resolve::{resolve_include, IncludeError, IncludeKind};

#[test]
fn relative_request_resolves_against_requesting_directory() {
    let r = resolve_include(IncludeKind::Relative, "common.glsl", "shader/ray3d.glsl");
    assert_eq!(r, Ok(String::from("shader/common.glsl")));
}

#[test]
fn relative_request_normalizes_parent_steps() {
    let r = resolve_include(IncludeKind::Relative, "../lib/./noise.glsl", "shader/sub/main.glsl");
    assert_eq!(r, Ok(String::from("shader/lib/noise.glsl")));
}

#[test]
fn relative_request_from_top_level_file() {
    let r = resolve_include(IncludeKind::Relative, "common.glsl", "main.glsl");
    assert_eq!(r, Ok(String::from("common.glsl")));
}

#[test]
fn relative_request_without_parent_fails() {
    let r = resolve_include(IncludeKind::Relative, "common.glsl", "");
    assert_eq!(r, Err(IncludeError::NoParent));
}

#[test]
fn standard_request_is_taken_as_is() {
    let r = resolve_include(IncludeKind::Standard, "lib/./noise.glsl", "shader/ray3d.glsl");
    assert_eq!(r, Ok(String::from("lib/noise.glsl")));
}

#[test]
fn standard_request_of_absolute_path_fails() {
    let r = resolve_include(IncludeKind::Standard, "/usr/share/noise.glsl", "shader/ray3d.glsl");
    assert_eq!(r, Err(IncludeError::NotRelative));
}
