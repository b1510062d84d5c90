use vstd::prelude::*;

pub mod primitive;
pub mod queue;
pub mod sprite;
pub mod text;

verus! {

/// A two-dimensional point or extent in fixed-point scalars, with a
/// resolution of 1/1000 of a drawing unit.
#[derive(Clone, Copy, Debug, PartialEq, Eq, Structural)]
pub struct Vec2 {
    pub x: i32,
    pub y: i32,
}

/// A colour with fixed-point channels, 1000 standing for full intensity.
#[derive(Clone, Copy, Debug, PartialEq, Eq, Structural)]
pub struct Color {
    pub r: i32,
    pub g: i32,
    pub b: i32,
    pub a: i32,
}

/// Horizontal alignment of a text command.
#[derive(Clone, Copy, Debug, PartialEq, Eq, Structural)]
pub enum HorizontalAlign {
    Left,
    Center,
    Right,
}

/// Vertical alignment of a text command.
#[derive(Clone, Copy, Debug, PartialEq, Eq, Structural)]
pub enum VerticalAlign {
    Top,
    Center,
    Bottom,
}

/// A request to load a spritesheet image from storage under a name.
#[derive(Clone, Debug, PartialEq, Eq)]
pub struct SpritesheetLoadRequest {
    pub name: String,
    pub path: String,
}

/// A named sub-rectangle of a loaded spritesheet texture.
#[derive(Clone, Debug, PartialEq, Eq)]
pub struct SpritesheetSlice {
    pub name: String,
    pub spritesheet: String,
    pub offset: Vec2,
    pub size: Vec2,
}

/// The transform bundle shared by sprite and text instance rendering.
#[derive(Clone, Copy, Debug, PartialEq, Eq, Structural)]
pub struct ObjectGeometry {
    pub brighten: Color,
    pub darken: Color,
    pub depth: i32,
    pub desaturation: i32,
    pub origin: Vec2,
    pub position: Vec2,
    pub rotation: i32,
    pub scale: Vec2,
}

/// The default transform bundle: no tint adjustment, unit depth, origin at
/// the centre, no offset, no rotation, unit scale.
pub open spec fn default_geometry() -> ObjectGeometry {
    ObjectGeometry {
        brighten: Color { r: 0, g: 0, b: 0, a: 0 },
        darken: Color { r: 1000, g: 1000, b: 1000, a: 1000 },
        depth: 1000,
        desaturation: 0,
        origin: Vec2 { x: 500, y: 500 },
        position: Vec2 { x: 0, y: 0 },
        rotation: 0,
        scale: Vec2 { x: 1000, y: 1000 },
    }
}

impl Default for ObjectGeometry {
    /// The default transform bundle, exactly `default_geometry()`.
    fn default() -> (r: ObjectGeometry)
        ensures
            r == default_geometry(),
    {
        ObjectGeometry {
            brighten: Color { r: 0, g: 0, b: 0, a: 0 },
            darken: Color { r: 1000, g: 1000, b: 1000, a: 1000 },
            depth: 1000,
            desaturation: 0,
            origin: Vec2 { x: 500, y: 500 },
            position: Vec2 { x: 0, y: 0 },
            rotation: 0,
            scale: Vec2 { x: 1000, y: 1000 },
        }
    }
}

/// One drawing intent, captured as an immutable value snapshot at the
/// moment the scripted call was made. Angles are in fixed-point radians
/// (1/1000 radian resolution), other scalars in fixed-point drawing units.
#[derive(Clone, Debug, PartialEq, Eq)]
pub enum DrawCommand {
    Arc {
        depth: i32,
        color: Color,
        radius: i32,
        thickness: i32,
        from: i32,
        to: i32,
        position: Vec2,
    },
    Circle { depth: i32, color: Color, radius: i32, position: Vec2 },
    Line { depth: i32, color: Color, thickness: i32, from: Vec2, to: Vec2 },
    Rectangle { depth: i32, color: Color, width: i32, height: i32, position: Vec2, rotation: i32 },
    Sprite { sprite: String, geometry: ObjectGeometry },
    Text {
        font: Option<String>,
        depth: i32,
        color: Color,
        position: Vec2,
        size: i32,
        text: String,
        h_align: HorizontalAlign,
        v_align: VerticalAlign,
    },
}

} // verus!
