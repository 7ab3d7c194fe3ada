use hello_midgar::app::{CreateError, GameApp, LoadedAssets};
use hello_midgar::render::{FontHandle, TextureHandle};
use hello_midgar::screen::screen_projection;

fn both() -> LoadedAssets {
    LoadedAssets { background: Some(TextureHandle(7)), font: Some(FontHandle(3)) }
}

#[test]
fn background_asset_is_the_png() {
    let asset = GameApp::background_asset();
    assert_eq!(asset.path, "assets/textures/background.png");
    assert!(asset.reversed);
}

#[test]
fn font_asset_is_vera_mono() {
    assert_eq!(GameApp::font_asset().path, "assets/fonts/VeraMono.ttf");
}

#[test]
fn create_with_both_assets_succeeds() {
    let app = GameApp::create(both()).expect("both assets are there");
    assert_eq!(app.background, TextureHandle(7));
    assert_eq!(app.font, FontHandle(3));
    assert_eq!(app.projection, screen_projection());
}

#[test]
fn create_twice_gives_equal_states() {
    let first = GameApp::create(both());
    let second = GameApp::create(both());
    assert_eq!(first, second);
    let third = GameApp::create(both());
    assert_eq!(first, third);
}

#[test]
fn create_twice_gives_the_same_error() {
    let assets = LoadedAssets { background: Some(TextureHandle(0)), font: None };
    assert_eq!(GameApp::create(assets), GameApp::create(assets));
}

#[test]
fn create_without_background_fails() {
    let assets = LoadedAssets { background: None, font: Some(FontHandle(3)) };
    assert_eq!(GameApp::create(assets), Err(CreateError::BackgroundMissing));
}

#[test]
fn create_without_font_fails() {
    let assets = LoadedAssets { background: Some(TextureHandle(7)), font: None };
    assert_eq!(GameApp::create(assets), Err(CreateError::FontMissing));
}

#[test]
fn create_without_anything_reports_the_background() {
    let assets = LoadedAssets { background: None, font: None };
    assert_eq!(GameApp::create(assets), Err(CreateError::BackgroundMissing));
}

#[test]
fn create_keeps_the_handles_apart() {
    let a = GameApp::create(LoadedAssets {
        background: Some(TextureHandle(1)),
        font: Some(FontHandle(2)),
    })
    .expect("both assets are there");
    let b = GameApp::create(LoadedAssets {
        background: Some(TextureHandle(2)),
        font: Some(FontHandle(1)),
    })
    .expect("both assets are there");
    assert_ne!(a, b);
    assert_eq!(a.background, TextureHandle(1));
    assert_eq!(b.font, FontHandle(1));
}
