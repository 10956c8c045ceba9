//! A rectangle on the screen, and a canvas: a rectangle with a texture to
//! paint on.

use vstd::prelude::*;
use crate::math::mat4::Mat4;
use crate::math::scalar::Scalar;
use crate::math::transform::{scale, scale_spec, translation, translation_spec};
use crate::math::vec3::Vec3;
use crate::math::vec4::Vec4;
use crate::renderer::mesh::{DrawCall, Mesh};
use crate::renderer::shader::Program;
use crate::renderer::texture::{Texture, TextureFmt};

verus! {

/// The corners of the unit square at depth one, three coordinates each: the
/// positions of a widget's mesh.
pub fn widget_vert_pos<T: Scalar>() -> (r: [T; 12])
    ensures
        r@ == seq![
            T::zero_spec(),
            T::zero_spec(),
            T::one_spec(),
            T::zero_spec(),
            T::one_spec(),
            T::one_spec(),
            T::one_spec(),
            T::one_spec(),
            T::one_spec(),
            T::one_spec(),
            T::zero_spec(),
            T::one_spec(),
        ],
{
    let o = T::one();
    let z = T::zero();
    let r = [z, z, o, z, o, o, o, o, o, o, z, o];
    assert(r@ =~= seq![
        T::zero_spec(),
        T::zero_spec(),
        T::one_spec(),
        T::zero_spec(),
        T::one_spec(),
        T::one_spec(),
        T::one_spec(),
        T::one_spec(),
        T::one_spec(),
        T::one_spec(),
        T::zero_spec(),
        T::one_spec(),
    ]);
    r
}

/// The texture coordinates of the four corners of a widget's mesh.
pub fn widget_vert_tex<T: Scalar>() -> (r: [T; 8])
    ensures
        r@ == seq![
            T::zero_spec(),
            T::zero_spec(),
            T::zero_spec(),
            T::one_spec(),
            T::one_spec(),
            T::one_spec(),
            T::one_spec(),
            T::zero_spec(),
        ],
{
    let o = T::one();
    let z = T::zero();
    let r = [z, z, z, o, o, o, o, z];
    assert(r@ =~= seq![
        T::zero_spec(),
        T::zero_spec(),
        T::zero_spec(),
        T::one_spec(),
        T::one_spec(),
        T::one_spec(),
        T::one_spec(),
        T::zero_spec(),
    ]);
    r
}

/// The two triangles of a widget's mesh, by the numbers of their corners.
pub fn widget_index() -> (r: [u32; 6])
    ensures
        r@ == seq![0u32, 1u32, 2u32, 0u32, 2u32, 3u32],
{
    let r: [u32; 6] = [0, 1, 2, 0, 2, 3];
    assert(r@ =~= seq![0u32, 1u32, 2u32, 0u32, 2u32, 3u32]);
    r
}

/// The model matrix of a rectangle of the given size at the given position:
/// the unit square is stretched to the size and then moved to the position.
pub open spec fn model_matrix_spec<T: Scalar>(position: (u32, u32), size: (u32, u32)) -> Mat4<T> {
    scale_spec(
        Vec3 { x: T::from_u32_spec(size.0), y: T::from_u32_spec(size.1), z: T::one_spec() },
    ).mul_spec(
        translation_spec(
            Vec3 {
                x: T::from_u32_spec(position.0),
                y: T::from_u32_spec(position.1),
                z: T::zero_spec(),
            },
        ),
    )
}

/// What the driver is to be given to draw a widget: the program to use, three
/// uniforms with the locations to store them at, and the mesh to draw.
pub struct WidgetDraw<T> {
    pub program: u32,
    pub back_color: (i32, Vec4<T>),
    pub canvas_position: (i32, (T, T)),
    pub canvas_size: (i32, (T, T)),
    pub mesh: DrawCall,
}

/// A rectangle on the screen, drawn in one colour by a shader program.
pub struct Widget<'a, T> {
    pub position: (u32, u32),
    pub size: (u32, u32),
    pub mesh: Mesh,
    pub shader: &'a Program,
    pub back_color: Vec4<T>,
    pub model_matrix: Mat4<T>,
    pub pos_changed: bool,
}

impl<'a, T: Scalar> Widget<'a, T> {
    /// The colour of a new widget: a light grey, nine tenths of white.
    pub open spec fn default_back_color_spec() -> Vec4<T> {
        let tint = T::from_u32_spec(9).over_spec(T::from_u32_spec(10));
        Vec4 { x: tint, y: tint, z: tint, w: T::one_spec() }
    }

    /// A widget at `pos` of size `size`, drawn with `shader_program` from
    /// `mesh`, which holds the unit square. Its model matrix starts as the
    /// identity and is due for an update.
    pub fn new(pos: (u32, u32), size: (u32, u32), shader_program: &'a Program, mesh: Mesh) -> (r:
        Widget<'a, T>)
        ensures
            r.position == pos,
            r.size == size,
            r.mesh == mesh,
            r.shader == shader_program,
            r.back_color == Self::default_back_color_spec(),
            r.model_matrix == Mat4::<T>::identity_spec(),
            r.pos_changed,
    {
        let tint = T::from_u32(9).over(T::from_u32(10));
        Widget {
            position: pos,
            size,
            mesh,
            shader: shader_program,
            back_color: Vec4::new(tint, tint, tint, T::one()),
            model_matrix: Mat4::identity(),
            pos_changed: true,
        }
    }

    /// Brings the model matrix up to date. Where the widget was due for an
    /// update, the matrix is computed anew and returned together with the
    /// location of the uniform `ModelMatrix`, to be stored there; elsewhere
    /// nothing changes and nothing is returned. A program in which that
    /// uniform was never registered is a caller's error.
    pub fn update(&mut self) -> (r: Option<(i32, Mat4<T>)>)
        requires
            old(self).shader.uniform_loc.wf(),
            old(self).pos_changed ==> old(self).shader.uniform_loc@.contains_key("ModelMatrix"@),
        ensures
            !final(self).pos_changed,
            final(self).position == old(self).position,
            final(self).size == old(self).size,
            final(self).mesh == old(self).mesh,
            final(self).shader == old(self).shader,
            final(self).back_color == old(self).back_color,
            final(self).model_matrix == (if old(self).pos_changed {
                model_matrix_spec::<T>(old(self).position, old(self).size)
            } else {
                old(self).model_matrix
            }),
            r == (if old(self).pos_changed {
                Some((old(self).shader.uniform_loc@["ModelMatrix"@], final(self).model_matrix))
            } else {
                None
            }),
    {
        if self.pos_changed {
            self.pos_changed = false;
            let stretch = scale(Vec3::new(T::from_u32(self.size.0), T::from_u32(self.size.1), T::one()));
            let shift = translation(
                Vec3::new(T::from_u32(self.position.0), T::from_u32(self.position.1), T::zero()),
            );
            self.model_matrix = stretch.mul(shift);
            Some((self.shader.get_uniform("ModelMatrix"), self.model_matrix))
        } else {
            None
        }
    }

    /// What to hand the driver to draw the widget. A program in which one of
    /// the uniforms `backColor`, `canvasPosition` and `canvasSize` was never
    /// registered is a caller's error.
    pub fn render(&self) -> (r: WidgetDraw<T>)
        requires
            self.shader.uniform_loc.wf(),
            self.shader.uniform_loc@.contains_key("backColor"@),
            self.shader.uniform_loc@.contains_key("canvasPosition"@),
            self.shader.uniform_loc@.contains_key("canvasSize"@),
        ensures
            r.program == self.shader.program_id,
            r.back_color == (self.shader.uniform_loc@["backColor"@], self.back_color),
            r.canvas_position == (
                self.shader.uniform_loc@["canvasPosition"@],
                (T::from_u32_spec(self.position.0), T::from_u32_spec(self.position.1)),
            ),
            r.canvas_size == (
                self.shader.uniform_loc@["canvasSize"@],
                (T::from_u32_spec(self.size.0), T::from_u32_spec(self.size.1)),
            ),
            r.mesh == (DrawCall { vao: self.mesh.vao.id, index_count: self.mesh.index_count }),
    {
        WidgetDraw {
            program: self.shader.program_id,
            back_color: (self.shader.get_uniform("backColor"), self.back_color),
            canvas_position: (
                self.shader.get_uniform("canvasPosition"),
                (T::from_u32(self.position.0), T::from_u32(self.position.1)),
            ),
            canvas_size: (
                self.shader.get_uniform("canvasSize"),
                (T::from_u32(self.size.0), T::from_u32(self.size.1)),
            ),
            mesh: self.mesh.render(),
        }
    }
}

/// A widget with a texture of its own size to paint on.
pub struct Canvas<'a, T> {
    pub texture: Texture,
    pub widget: Widget<'a, T>,
}

impl<'a, T: Scalar> Canvas<'a, T> {
    /// A canvas at `pos` of size `size`. `mesh` holds the unit square, and
    /// `texture_id` names an empty texture of three channels and of the
    /// canvas's size.
    pub fn new(
        pos: (u32, u32),
        size: (u32, u32),
        shader_program: &'a Program,
        mesh: Mesh,
        texture_id: u32,
    ) -> (r: Canvas<'a, T>)
        ensures
            r.texture == (Texture { id: texture_id, size, fmt: TextureFmt::RGB8U }),
            r.widget.position == pos,
            r.widget.size == size,
            r.widget.mesh == mesh,
            r.widget.shader == shader_program,
            r.widget.back_color == Widget::<T>::default_back_color_spec(),
            r.widget.model_matrix == Mat4::<T>::identity_spec(),
            r.widget.pos_changed,
    {
        let widget = Widget::new(pos, size, shader_program, mesh);
        let texture = Texture::from_empty(texture_id, size, TextureFmt::RGB8U);
        Canvas { texture, widget }
    }

    /// Brings the widget up to date, as [`Widget::update`] does.
    pub fn update(&mut self) -> (r: Option<(i32, Mat4<T>)>)
        requires
            old(self).widget.shader.uniform_loc.wf(),
            old(self).widget.pos_changed ==> old(self).widget.shader.uniform_loc@.contains_key(
                "ModelMatrix"@,
            ),
        ensures
            final(self).texture == old(self).texture,
            !final(self).widget.pos_changed,
            final(self).widget.position == old(self).widget.position,
            final(self).widget.size == old(self).widget.size,
            final(self).widget.mesh == old(self).widget.mesh,
            final(self).widget.shader == old(self).widget.shader,
            final(self).widget.back_color == old(self).widget.back_color,
            final(self).widget.model_matrix == (if old(self).widget.pos_changed {
                model_matrix_spec::<T>(old(self).widget.position, old(self).widget.size)
            } else {
                old(self).widget.model_matrix
            }),
            r == (if old(self).widget.pos_changed {
                Some(
                    (
                        old(self).widget.shader.uniform_loc@["ModelMatrix"@],
                        final(self).widget.model_matrix,
                    ),
                )
            } else {
                None
            }),
    {
        self.widget.update()
    }

    /// What to hand the driver to draw the canvas: the texture to bind, and
    /// what [`Widget::render`] gives for the widget.
    pub fn render(&self) -> (r: (u32, WidgetDraw<T>))
        requires
            self.widget.shader.uniform_loc.wf(),
            self.widget.shader.uniform_loc@.contains_key("backColor"@),
            self.widget.shader.uniform_loc@.contains_key("canvasPosition"@),
            self.widget.shader.uniform_loc@.contains_key("canvasSize"@),
        ensures
            r.0 == self.texture.id,
            r.1.program == self.widget.shader.program_id,
            r.1.back_color == (self.widget.shader.uniform_loc@["backColor"@], self.widget.back_color),
            r.1.canvas_position == (
                self.widget.shader.uniform_loc@["canvasPosition"@],
                (T::from_u32_spec(self.widget.position.0), T::from_u32_spec(self.widget.position.1)),
            ),
            r.1.canvas_size == (
                self.widget.shader.uniform_loc@["canvasSize"@],
                (T::from_u32_spec(self.widget.size.0), T::from_u32_spec(self.widget.size.1)),
            ),
            r.1.mesh == (DrawCall {
                vao: self.widget.mesh.vao.id,
                index_count: self.widget.mesh.index_count,
            }),
    {
        (self.texture.id, self.widget.render())
    }
}

} // verus!
