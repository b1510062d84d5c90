use vstd::prelude::*;

use crate::modules::draw::{Color, DrawCommand, Vec2};

verus! {

/// A point or extent widened to i64, exact for anything derived from i32
/// geometry.
#[derive(Clone, Copy, Debug, PartialEq, Eq, Structural)]
pub struct Vec2Wide {
    pub x: i64,
    pub y: i64,
}

/// The per-draw shader parameterization of one primitive command. Derived
/// extents and offsets are widened to i64 so they are exact for any i32
/// geometry. The sub-image size always equals the image size; the origin is
/// the centre for every shape but a line, whose origin is its corner.
#[derive(Clone, Copy, Debug, PartialEq, Eq, Structural)]
pub enum PrimitiveParams {
    Arc {
        depth: i32,
        color: Color,
        radius: i32,
        thickness: i32,
        arc_from: i32,
        arc_to: i32,
        position: Vec2,
        image_size: Vec2Wide,
    },
    Circle { depth: i32, color: Color, radius: i32, position: Vec2, image_size: Vec2Wide },
    Line {
        depth: i32,
        color: Color,
        thickness: i32,
        image_size: Vec2Wide,
        position: Vec2Wide,
        line_from: Vec2Wide,
        line_to: Vec2Wide,
    },
    Rectangle { depth: i32, color: Color, width: i32, height: i32, position: Vec2, rotation: i32 },
}

/// The shape discriminant handed to the shared primitive shader.
pub open spec fn spec_shape_id(command: DrawCommand) -> i32 {
    match command {
        DrawCommand::Arc { .. } => 0,
        DrawCommand::Circle { .. } => 1,
        DrawCommand::Line { .. } => 2,
        DrawCommand::Rectangle { .. } => 3,
        DrawCommand::Sprite { .. } => 4,
        DrawCommand::Text { .. } => 5,
    }
}

/// The shape discriminant of a command, as the shared shader expects it.
pub fn shape_id(command: &DrawCommand) -> (r: i32)
    ensures
        r == spec_shape_id(*command),
{
    match command {
        DrawCommand::Arc { .. } => 0,
        DrawCommand::Circle { .. } => 1,
        DrawCommand::Line { .. } => 2,
        DrawCommand::Rectangle { .. } => 3,
        DrawCommand::Sprite { .. } => 4,
        DrawCommand::Text { .. } => 5,
    }
}

/// The shader parameters of one queued command: exactly the primitive
/// commands produce parameters, in particular an arc or circle is drawn in
/// a square of twice its radius, and a line is drawn in the bounding box of
/// its endpoints grown by its thickness, with its endpoints made relative
/// to that box. Sprite and text commands are not primitives and produce
/// nothing here.
pub fn primitive_params(command: &DrawCommand) -> (r: Option<PrimitiveParams>)
    ensures
        match *command {
            DrawCommand::Arc { depth, color, radius, thickness, from, to, position } => r == Some(
                (PrimitiveParams::Arc {
                    depth,
                    color,
                    radius,
                    thickness,
                    arc_from: from,
                    arc_to: to,
                    position,
                    image_size: (Vec2Wide { x: (2 * radius) as i64, y: (2 * radius) as i64 }),
                }),
            ),
            DrawCommand::Circle { depth, color, radius, position } => r == Some(
                (PrimitiveParams::Circle {
                    depth,
                    color,
                    radius,
                    position,
                    image_size: (Vec2Wide { x: (2 * radius) as i64, y: (2 * radius) as i64 }),
                }),
            ),
            DrawCommand::Line { depth, color, thickness, from, to } => {
                let min_x = (if from.x <= to.x {
                    from.x
                } else {
                    to.x
                }) - thickness;
                let min_y = (if from.y <= to.y {
                    from.y
                } else {
                    to.y
                }) - thickness;
                let max_x = (if from.x >= to.x {
                    from.x
                } else {
                    to.x
                }) + thickness;
                let max_y = (if from.y >= to.y {
                    from.y
                } else {
                    to.y
                }) + thickness;
                r == Some(
                    (PrimitiveParams::Line {
                        depth,
                        color,
                        thickness,
                        image_size: (Vec2Wide { x: (max_x - min_x) as i64, y: (max_y - min_y) as i64 }),
                        position: (Vec2Wide { x: min_x as i64, y: min_y as i64 }),
                        line_from: (Vec2Wide { x: (from.x - min_x) as i64, y: (from.y - min_y) as i64 }),
                        line_to: (Vec2Wide { x: (to.x - min_x) as i64, y: (to.y - min_y) as i64 }),
                    }),
                )
            },
            DrawCommand::Rectangle { depth, color, width, height, position, rotation } => r
                == Some(
                (PrimitiveParams::Rectangle { depth, color, width, height, position, rotation }),
            ),
            DrawCommand::Sprite { .. } => r is None,
            DrawCommand::Text { .. } => r is None,
        },
{
    match command {
        DrawCommand::Arc { depth, color, radius, thickness, from, to, position } => {
            let side = 2 * (*radius as i64);
            Some(
                PrimitiveParams::Arc {
                    depth: *depth,
                    color: *color,
                    radius: *radius,
                    thickness: *thickness,
                    arc_from: *from,
                    arc_to: *to,
                    position: *position,
                    image_size: Vec2Wide { x: side, y: side },
                },
            )
        }
        DrawCommand::Circle { depth, color, radius, position } => {
            let side = 2 * (*radius as i64);
            Some(
                PrimitiveParams::Circle {
                    depth: *depth,
                    color: *color,
                    radius: *radius,
                    position: *position,
                    image_size: Vec2Wide { x: side, y: side },
                },
            )
        }
        DrawCommand::Line { depth, color, thickness, from, to } => {
            let th = *thickness as i64;
            let fx = from.x as i64;
            let fy = from.y as i64;
            let tx = to.x as i64;
            let ty = to.y as i64;
            let min_x = (if fx <= tx {
                fx
            } else {
                tx
            }) - th;
            let min_y = (if fy <= ty {
                fy
            } else {
                ty
            }) - th;
            let max_x = (if fx >= tx {
                fx
            } else {
                tx
            }) + th;
            let max_y = (if fy >= ty {
                fy
            } else {
                ty
            }) + th;
            Some(
                PrimitiveParams::Line {
                    depth: *depth,
                    color: *color,
                    thickness: *thickness,
                    image_size: Vec2Wide { x: max_x - min_x, y: max_y - min_y },
                    position: Vec2Wide { x: min_x, y: min_y },
                    line_from: Vec2Wide { x: fx - min_x, y: fy - min_y },
                    line_to: Vec2Wide { x: tx - min_x, y: ty - min_y },
                },
            )
        }
        DrawCommand::Rectangle { depth, color, width, height, position, rotation } => Some(
            PrimitiveParams::Rectangle {
                depth: *depth,
                color: *color,
                width: *width,
                height: *height,
                position: *position,
                rotation: *rotation,
            },
        ),
        DrawCommand::Sprite { .. } => None,
        DrawCommand::Text { .. } => None,
    }
}

} // verus!
