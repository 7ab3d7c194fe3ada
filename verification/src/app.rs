//! The application: what it is made from, and what it does each frame.

use vstd::prelude::*;
use crate::render::{Color, DrawCall, Filter, FontHandle, SpriteDraw, TextDraw, TextureHandle};
use crate::screen::{screen_bounds, screen_center, screen_middle, screen_projection, OrthoBounds};

verus! {

/// A texture file to load before the application is made.
#[derive(Clone, Copy, Debug, PartialEq, Eq)]
pub struct TextureAsset {
    pub path: &'static str,
    /// Whether the rows of the image are taken bottom first.
    pub reversed: bool,
}

/// A font file to load before the application is made.
#[derive(Clone, Copy, Debug, PartialEq, Eq)]
pub struct FontAsset {
    pub path: &'static str,
}

/// What the driver loaded: each asset's handle, or `None` where the file was
/// missing or could not be read as what it should be.
#[derive(Clone, Copy, Debug, PartialEq, Eq, Structural)]
pub struct LoadedAssets {
    pub background: Option<TextureHandle>,
    pub font: Option<FontHandle>,
}

/// Why no application could be made. The driver treats either as fatal.
#[derive(Clone, Copy, Debug, PartialEq, Eq, Structural)]
pub enum CreateError {
    BackgroundMissing,
    FontMissing,
}

/// What the driver saw since the last frame.
#[derive(Clone, Copy, Debug, PartialEq, Eq, Structural)]
pub struct Input {
    /// Whether the Escape key was pressed.
    pub escape_pressed: bool,
}

/// What the driver does once a frame is over.
#[derive(Clone, Copy, Debug, PartialEq, Eq, Structural)]
pub enum ControlSignal {
    Continue,
    Exit,
}

/// One frame's worth of work for the driver.
///
/// With `Continue` the driver takes a render target, carries out `calls` in
/// order and presents the target. With `Exit` it tells the host to stop and
/// touches no render target.
#[derive(Debug, PartialEq, Eq)]
pub struct Frame {
    pub signal: ControlSignal,
    pub calls: Vec<DrawCall>,
}

/// The application's state: fixed when it is made, the same in every frame.
#[derive(Clone, Copy, Debug, PartialEq, Eq, Structural)]
pub struct GameApp {
    pub projection: OrthoBounds,
    pub background: TextureHandle,
    pub font: FontHandle,
}

impl GameApp {
    /// The state is one that `create` makes: it projects the logical screen.
    pub open spec fn well_formed(self) -> bool {
        self.projection == screen_bounds()
    }

    /// What `create` gives for `assets`. The background is loaded first, so
    /// its absence is reported first.
    pub open spec fn created(assets: LoadedAssets) -> Result<GameApp, CreateError> {
        match (assets.background, assets.font) {
            (None, _) => Err(CreateError::BackgroundMissing),
            (Some(_), None) => Err(CreateError::FontMissing),
            (Some(background), Some(font)) => Ok(
                GameApp { projection: screen_bounds(), background, font },
            ),
        }
    }

    /// The call that clears the render target to opaque black.
    pub open spec fn clear_call() -> DrawCall {
        DrawCall::Clear { color: Color::black(), alpha: 1 }
    }

    /// The call that draws the background in the middle of the logical screen.
    pub open spec fn background_call(self) -> DrawCall {
        DrawCall::Sprite(
            SpriteDraw {
                texture: self.background,
                center_x: screen_middle().0,
                center_y: screen_middle().1,
                magnify: Filter::Nearest,
                alpha: true,
                projection: self.projection,
            },
        )
    }

    /// The call that draws the greeting.
    pub open spec fn greeting_call(self) -> DrawCall {
        DrawCall::Text(
            TextDraw {
                text: "Hello Midgar!",
                font: self.font,
                color: Color::white(),
                size: 20,
                extent: 220,
                x: 140,
                y: 300,
                projection: self.projection,
            },
        )
    }

    /// The draw calls of a frame that is shown, in the order they are made.
    pub open spec fn frame_calls(self) -> Seq<DrawCall> {
        seq![Self::clear_call(), self.background_call(), self.greeting_call()]
    }

    /// The frame that answers `input`: nothing but the exit signal where
    /// Escape was pressed, else the three draw calls.
    pub open spec fn frame_for(self, input: Input) -> (ControlSignal, Seq<DrawCall>) {
        if input.escape_pressed {
            (ControlSignal::Exit, Seq::empty())
        } else {
            (ControlSignal::Continue, self.frame_calls())
        }
    }

    /// Says which texture file holds the background.
    pub fn background_asset() -> (asset: TextureAsset)
        ensures
            asset.path@ == "assets/textures/background.png"@,
            asset.reversed,
    {
        TextureAsset { path: "assets/textures/background.png", reversed: true }
    }

    /// Says which font file the greeting is set in.
    pub fn font_asset() -> (asset: FontAsset)
        ensures
            asset.path@ == "assets/fonts/VeraMono.ttf"@,
    {
        FontAsset { path: "assets/fonts/VeraMono.ttf" }
    }

    /// Makes the application from what the driver loaded.
    ///
    /// Succeeds exactly when both assets are there; then the state holds
    /// their handles and the projection of the logical screen. A missing
    /// asset is an error, never a state to go on with.
    pub fn create(assets: LoadedAssets) -> (made: Result<GameApp, CreateError>)
        ensures
            made == Self::created(assets),
            made is Ok <==> assets.background is Some && assets.font is Some,
            made == Err::<GameApp, CreateError>(CreateError::BackgroundMissing)
                <==> assets.background is None,
            made == Err::<GameApp, CreateError>(CreateError::FontMissing)
                <==> assets.background is Some && assets.font is None,
            made matches Ok(app) ==> app.well_formed()
                && Some(app.background) == assets.background
                && Some(app.font) == assets.font,
    {
        match assets.background {
            None => Err(CreateError::BackgroundMissing),
            Some(background) => match assets.font {
                None => Err(CreateError::FontMissing),
                Some(font) => Ok(GameApp { projection: screen_projection(), background, font }),
            },
        }
    }

    /// Runs one frame.
    ///
    /// Where Escape was pressed the frame signals exit and holds no draw
    /// call. Otherwise it signals to go on and holds exactly three calls: the
    /// clear to opaque black, the background centred at (320, 200) with the
    /// nearest filter and alpha blending, and the greeting in white at size
    /// 20 and position (140, 300). The state is left as it was.
    pub fn step(&mut self, input: Input) -> (frame: Frame)
        ensures
            *final(self) == *old(self),
            (frame.signal, frame.calls@) == old(self).frame_for(input),
            input.escape_pressed ==> frame.signal == ControlSignal::Exit && frame.calls@.len() == 0,
            !input.escape_pressed ==> frame.signal == ControlSignal::Continue
                && frame.calls@.len() == 3
                && frame.calls@[0] == (DrawCall::Clear {
                    color: Color { red: 0, green: 0, blue: 0 },
                    alpha: 1,
                })
                && frame.calls@[1] == DrawCall::Sprite(
                    SpriteDraw {
                        texture: old(self).background,
                        center_x: 320,
                        center_y: 200,
                        magnify: Filter::Nearest,
                        alpha: true,
                        projection: old(self).projection,
                    },
                )
                && frame.calls@[2] == DrawCall::Text(
                    TextDraw {
                        text: "Hello Midgar!",
                        font: old(self).font,
                        color: Color { red: 1, green: 1, blue: 1 },
                        size: 20,
                        extent: 220,
                        x: 140,
                        y: 300,
                        projection: old(self).projection,
                    },
                ),
    {
        if input.escape_pressed {
            return Frame { signal: ControlSignal::Exit, calls: Vec::new() };
        }
        let (center_x, center_y) = screen_center();
        let mut calls: Vec<DrawCall> = Vec::new();
        calls.push(DrawCall::Clear { color: Color { red: 0, green: 0, blue: 0 }, alpha: 1 });
        calls.push(
            DrawCall::Sprite(
                SpriteDraw {
                    texture: self.background,
                    center_x,
                    center_y,
                    magnify: Filter::Nearest,
                    alpha: true,
                    projection: self.projection,
                },
            ),
        );
        calls.push(
            DrawCall::Text(
                TextDraw {
                    text: "Hello Midgar!",
                    font: self.font,
                    color: Color { red: 1, green: 1, blue: 1 },
                    size: 20,
                    extent: 220,
                    x: 140,
                    y: 300,
                    projection: self.projection,
                },
            ),
        );
        assert(calls@ =~= self.frame_calls());
        Frame { signal: ControlSignal::Continue, calls }
    }
}

/// Making the application again from the same assets gives the same outcome:
/// an equal state, or the same error.
pub proof fn create_is_repeatable(
    assets: LoadedAssets,
    first: Result<GameApp, CreateError>,
    second: Result<GameApp, CreateError>,
)
    requires
        first == GameApp::created(assets),
        second == GameApp::created(assets),
    ensures
        first == second,
{
}

/// Where an asset is missing no application is made, and the error names the
/// first asset that is missing.
pub proof fn missing_asset_makes_no_state(assets: LoadedAssets)
    requires
        assets.background is None || assets.font is None,
    ensures
        GameApp::created(assets) is Err,
        assets.background is None ==> GameApp::created(assets)
            == Err::<GameApp, CreateError>(CreateError::BackgroundMissing),
        assets.background is Some ==> GameApp::created(assets)
            == Err::<GameApp, CreateError>(CreateError::FontMissing),
{
}

/// A frame in which Escape was pressed signals exit and draws nothing,
/// whatever the state.
pub proof fn escape_exits_without_drawing(app: GameApp, input: Input)
    requires
        input.escape_pressed,
    ensures
        app.frame_for(input).0 == ControlSignal::Exit,
        app.frame_for(input).1.len() == 0,
        DrawCall::clears(app.frame_for(input).1) == 0,
        DrawCall::sprites(app.frame_for(input).1) == 0,
        DrawCall::texts(app.frame_for(input).1) == 0,
{
    let calls = app.frame_for(input).1;
    assert(calls =~= Seq::empty());
}

/// A frame in which Escape was not pressed goes on and holds one clear, one
/// sprite and one text, in that order and nothing else.
pub proof fn shown_frame_has_one_call_of_each_kind(app: GameApp, input: Input)
    requires
        !input.escape_pressed,
    ensures
        app.frame_for(input).0 == ControlSignal::Continue,
        app.frame_for(input).1.len() == 3,
        app.frame_for(input).1[0] is Clear,
        app.frame_for(input).1[1] is Sprite,
        app.frame_for(input).1[2] is Text,
        DrawCall::clears(app.frame_for(input).1) == 1,
        DrawCall::sprites(app.frame_for(input).1) == 1,
        DrawCall::texts(app.frame_for(input).1) == 1,
{
    let calls = app.frame_for(input).1;
    let clear = GameApp::clear_call();
    let sprite = app.background_call();
    let text = app.greeting_call();
    let is_clear = |call: DrawCall| call is Clear;
    let is_sprite = |call: DrawCall| call is Sprite;
    let is_text = |call: DrawCall| call is Text;
    reveal_with_fuel(Seq::filter, 4);
    assert(calls.filter(is_clear) =~= seq![clear]);
    assert(calls.filter(is_sprite) =~= seq![sprite]);
    assert(calls.filter(is_text) =~= seq![text]);
}

/// The application is drawn only with what was loaded: the frames of a
/// state made from `assets` draw the background and the font of `assets`,
/// under the projection of the logical screen.
pub proof fn frames_draw_the_loaded_assets(assets: LoadedAssets, app: GameApp, input: Input)
    requires
        GameApp::created(assets) == Ok::<GameApp, CreateError>(app),
        !input.escape_pressed,
    ensures
        app.well_formed(),
        app.frame_for(input).1[1] matches DrawCall::Sprite(sprite)
            && Some(sprite.texture) == assets.background
            && sprite.projection == screen_bounds(),
        app.frame_for(input).1[2] matches DrawCall::Text(text)
            && Some(text.font) == assets.font
            && text.projection == screen_bounds(),
{
}

} // verus!
