use dyxel_render_vello::present::{choose_present_path, fallback_present_path, PresentFlags, PresentPath};

fn flags(offscreen: bool, native: bool, presenter: bool, copy: bool, surface: bool) -> PresentFlags {
    PresentFlags {
        render_to_offscreen: offscreen,
        native_frames_enabled: native,
        has_native_presenter: presenter,
        copy_present_enabled: copy,
        has_surface_texture: surface,
    }
}

#[test]
fn offscreen_frames_prefer_the_native_presenter() {
    let f = flags(true, true, true, false, false);
    assert_eq!(choose_present_path(&f), PresentPath::Native);
    assert_eq!(fallback_present_path(PresentPath::Native, &f), Some(PresentPath::LateBlit));
    let f = flags(true, true, true, true, false);
    assert_eq!(fallback_present_path(PresentPath::Native, &f), Some(PresentPath::LateCopy));
}

#[test]
fn offscreen_frames_without_native_presenter_go_late() {
    assert_eq!(choose_present_path(&flags(true, true, false, false, true)), PresentPath::LateBlit);
    assert_eq!(choose_present_path(&flags(true, false, true, true, true)), PresentPath::LateCopy);
    assert_eq!(
        fallback_present_path(PresentPath::LateBlit, &flags(true, false, true, true, true)),
        None
    );
}

#[test]
fn surface_frames_present_directly() {
    assert_eq!(choose_present_path(&flags(false, true, true, true, true)), PresentPath::Direct);
    assert_eq!(choose_present_path(&flags(false, true, true, true, false)), PresentPath::Nothing);
    assert_eq!(fallback_present_path(PresentPath::Direct, &flags(false, false, false, false, true)), None);
}
