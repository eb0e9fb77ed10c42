use crate::shader_program::ShaderProgram;
use crate::shapes::{Mesh, ONE, ZERO};
use crate::texture::{SamplerFilter, Texture2D, TextureView};
use vstd::prelude::*;

verus! {

/// How what is drawn combines with what is already there.
#[derive(PartialEq, Eq, Clone, Copy, Debug, Structural)]
pub enum BlendMode {
    Additive,
    Alpha,
    Opaque,
    /// The source scaled by its alpha overwrites the destination.
    NoBlend,
}

/// A factor by which the source or the destination is multiplied.
#[derive(PartialEq, Eq, Clone, Copy, Debug, Structural)]
pub enum LinearBlendingFactor {
    Zero,
    One,
    SourceAlpha,
    OneMinusSourceAlpha,
}

/// How the GPU computes one of colour and alpha from source and
/// destination.
#[derive(PartialEq, Eq, Clone, Copy, Debug, Structural)]
pub enum BlendingFunction {
    /// The source overwrites the destination.
    AlwaysReplace,
    /// `source_factor * source + destination_factor * destination`.
    Addition { source: LinearBlendingFactor, destination: LinearBlendingFactor },
}

/// Red, green, blue and alpha as single-precision bit patterns.
#[derive(PartialEq, Eq, Clone, Copy, Debug, Structural)]
pub struct Color {
    pub r: u32,
    pub g: u32,
    pub b: u32,
    pub a: u32,
}

/// The blend state of a draw call.
#[derive(PartialEq, Eq, Clone, Copy, Debug, Structural)]
pub struct Blend {
    pub color: BlendingFunction,
    pub alpha: BlendingFunction,
    pub constant_value: Color,
}

/// A 4x4 matrix of single-precision bit patterns, column by column.
#[derive(PartialEq, Eq, Clone, Copy, Debug)]
pub struct Matrix4 {
    pub cells: [u32; 16],
}

/// One texture bound to a sampler slot. Every sampler repeats the texture
/// outside [0, 1].
#[derive(PartialEq, Eq, Clone, Copy, Debug, Structural)]
pub struct Sampler {
    pub texture: u32,
    pub minify_filter: SamplerFilter,
    pub magnify_filter: SamplerFilter,
}

/// One colour attachment of a render target: the name under which the
/// fragment shader writes to it, and the texture written to.
#[derive(PartialEq, Eq, Clone, Copy, Debug)]
pub struct Output {
    pub name: &'static str,
    pub texture: u32,
}

/// White, fully opaque.
pub open spec fn white() -> Color {
    Color { r: ONE, g: ONE, b: ONE, a: ONE }
}

/// Every component zero.
pub open spec fn transparent_black() -> Color {
    Color { r: ZERO, g: ZERO, b: ZERO, a: ZERO }
}

/// The colour (0.1, 0.33, 1, 1) to which every new frame is cleared.
pub open spec fn frame_clear_color() -> Color {
    Color { r: 0x3DCC_CCCD, g: 0x3EA8_F5C3, b: ONE, a: ONE }
}

/// The blend state that stands for `mode`.
pub open spec fn blend_of(mode: BlendMode) -> Blend {
    match mode {
        BlendMode::Additive => Blend {
            color: BlendingFunction::Addition {
                source: LinearBlendingFactor::SourceAlpha,
                destination: LinearBlendingFactor::One,
            },
            alpha: BlendingFunction::Addition {
                source: LinearBlendingFactor::Zero,
                destination: LinearBlendingFactor::One,
            },
            constant_value: transparent_black(),
        },
        BlendMode::Alpha => Blend {
            color: BlendingFunction::Addition {
                source: LinearBlendingFactor::SourceAlpha,
                destination: LinearBlendingFactor::OneMinusSourceAlpha,
            },
            alpha: BlendingFunction::Addition {
                source: LinearBlendingFactor::One,
                destination: LinearBlendingFactor::Zero,
            },
            constant_value: transparent_black(),
        },
        BlendMode::Opaque => Blend {
            color: BlendingFunction::AlwaysReplace,
            alpha: BlendingFunction::AlwaysReplace,
            constant_value: white(),
        },
        BlendMode::NoBlend => Blend {
            color: BlendingFunction::Addition {
                source: LinearBlendingFactor::SourceAlpha,
                destination: LinearBlendingFactor::Zero,
            },
            alpha: BlendingFunction::Addition {
                source: LinearBlendingFactor::One,
                destination: LinearBlendingFactor::Zero,
            },
            constant_value: transparent_black(),
        },
    }
}

/// The sampler that shows a texture with the texture's own filters.
pub open spec fn sampler_of_view(texture: TextureView) -> Sampler {
    Sampler {
        texture: texture.handle,
        minify_filter: texture.min_filter,
        magnify_filter: texture.max_filter,
    }
}

/// The sampler that shows `texture` with the texture's own filters.
pub open spec fn sampler_of(texture: &Texture2D) -> Sampler {
    sampler_of_view(texture@)
}

/// The sampler of slot `index`: the texture supplied for the slot, or the
/// default texture where none is.
pub open spec fn sampler_at(
    default_texture: TextureView,
    textures: Seq<&Texture2D>,
    index: int,
) -> Sampler {
    if 0 <= index < textures.len() {
        sampler_of(textures[index])
    } else {
        sampler_of_view(default_texture)
    }
}

/// The eight samplers of a draw call.
pub open spec fn samplers_of(default_texture: TextureView, textures: Seq<&Texture2D>) -> Seq<
    Sampler,
> {
    Seq::new(8, |i: int| sampler_at(default_texture, textures, i))
}

/// A draw call with fewer than eight textures binds the textures in
/// order and the default texture in every slot after them.
pub proof fn lemma_open_slots_hold_default(
    default_texture: TextureView,
    textures: Seq<&Texture2D>,
    slot: int,
)
    requires
        0 <= slot < 8,
    ensures
        samplers_of(default_texture, textures).len() == 8,
        slot < textures.len() ==> samplers_of(default_texture, textures)[slot] == sampler_of(
            textures[slot],
        ),
        textures.len() <= slot ==> samplers_of(default_texture, textures)[slot]
            == sampler_of_view(default_texture),
{
}

/// The name of colour attachment `index` of a render target.
pub open spec fn output_name(index: int) -> Seq<char> {
    if index == 0 {
        "output0"@
    } else if index == 1 {
        "output1"@
    } else if index == 2 {
        "output2"@
    } else {
        "output3"@
    }
}

/// The attachments that bind `textures`, in order, to the output names.
pub open spec fn outputs_match(outputs: Seq<Output>, textures: Seq<&Texture2D>) -> bool {
    &&& outputs.len() == textures.len()
    &&& forall|i: int|
        0 <= i < outputs.len() ==> (#[trigger] outputs[i]).texture == textures[i]@.handle
            && outputs[i].name@ == output_name(i)
}


/// One recorded GPU command. A target of `None` is the window's own
/// framebuffer.
#[derive(PartialEq, Eq, Debug)]
pub enum Command {
    /// Clear every attachment of the target to the colour.
    Clear { target: Option<Vec<Output>>, color: Color },
    /// Draw the mesh with the shader, the uniforms and the blend state.
    /// `model` is absent in a fullscreen pass.
    Draw {
        target: Option<Vec<Output>>,
        mesh: u32,
        shader: u32,
        time: u64,
        model: Option<Matrix4>,
        view: Matrix4,
        projection: Matrix4,
        blend_color: Color,
        samplers: [Sampler; 8],
        blend: Blend,
    },
}

/// A [`Command`] as plain values.
pub enum CommandView {
    Clear { target: Option<Seq<Output>>, color: Color },
    Draw {
        target: Option<Seq<Output>>,
        mesh: u32,
        shader: u32,
        time: u64,
        model: Option<Matrix4>,
        view: Matrix4,
        projection: Matrix4,
        blend_color: Color,
        samplers: Seq<Sampler>,
        blend: Blend,
    },
}

/// The attachments of a recorded target as plain values.
pub open spec fn target_view(target: Option<Vec<Output>>) -> Option<Seq<Output>> {
    match target {
        Some(outputs) => Some(outputs@),
        None => None,
    }
}

impl View for Command {
    type V = CommandView;

    open spec fn view(&self) -> CommandView {
        match *self {
            Command::Clear { target, color } => CommandView::Clear {
                target: target_view(target),
                color,
            },
            Command::Draw {
                target,
                mesh,
                shader,
                time,
                model,
                view,
                projection,
                blend_color,
                samplers,
                blend,
            } => CommandView::Draw {
                target: target_view(target),
                mesh,
                shader,
                time,
                model,
                view,
                projection,
                blend_color,
                samplers: samplers@,
                blend,
            },
        }
    }
}

/// The commands of `commands`, each as plain values.
pub open spec fn command_views(commands: Seq<Command>) -> Seq<CommandView> {
    commands.map_values(|c: Command| c@)
}

/// An off-screen framebuffer of up to four colour attachments.
pub struct RenderTarget<'a> {
    outputs: Vec<Output>,
    textures: Vec<&'a Texture2D>,
}

impl<'a> RenderTarget<'a> {
    /// The attachments, in order.
    pub closed spec fn outputs(&self) -> Seq<Output> {
        self.outputs@
    }

    /// The textures behind the attachments, in order.
    pub closed spec fn textures(&self) -> Seq<&'a Texture2D> {
        self.textures@
    }

    /// The attachments, in order.
    pub fn attachments(&self) -> (outputs: &Vec<Output>)
        ensures
            outputs@ == self.outputs(),
    {
        &self.outputs
    }
}

/// The recording of one frame: the commands so far, and the state that
/// the next draw call picks up.
pub struct CommandBuffer<'a> {
    default_texture: &'a Texture2D,
    fullscreen_quad: &'a Mesh,
    time: u64,
    current_blend_mode: BlendMode,
    blend_color: Color,
    commands: Vec<Command>,
}

/// Everything a [`CommandBuffer`] holds, as plain values.
pub struct CommandBufferView {
    pub default_texture: TextureView,
    pub fullscreen_quad: u32,
    pub time: u64,
    pub blend_mode: BlendMode,
    pub blend_color: Color,
    pub commands: Seq<CommandView>,
}

impl<'a> View for CommandBuffer<'a> {
    type V = CommandBufferView;

    closed spec fn view(&self) -> CommandBufferView {
        CommandBufferView {
            default_texture: self.default_texture@,
            fullscreen_quad: self.fullscreen_quad.spec_handle(),
            time: self.time,
            blend_mode: self.current_blend_mode,
            blend_color: self.blend_color,
            commands: command_views(self.commands@),
        }
    }
}

fn name_of_output(index: usize) -> (name: &'static str)
    requires
        index < 4,
    ensures
        name@ == output_name(index as int),
{
    if index == 0 {
        "output0"
    } else if index == 1 {
        "output1"
    } else if index == 2 {
        "output2"
    } else {
        "output3"
    }
}

fn copy_outputs(outputs: &Vec<Output>) -> (copy: Vec<Output>)
    ensures
        copy@ == outputs@,
{
    let mut copy: Vec<Output> = Vec::new();
    let mut i: usize = 0;
    while i < outputs.len()
        invariant
            i <= outputs@.len(),
            copy@ == outputs@.take(i as int),
        decreases outputs@.len() - i,
    {
        copy.push(outputs[i]);
        proof {
            assert(copy@ == outputs@.take(i + 1));
        }
        i += 1;
    }
    proof {
        assert(outputs@.take(i as int) == outputs@);
    }
    copy
}

impl<'a> CommandBuffer<'a> {
    /// The recording of a new frame at `time`. Its first command clears
    /// the window's framebuffer; blending starts as `Alpha` with a white
    /// blend colour.
    pub fn new(default_texture: &'a Texture2D, fullscreen_quad: &'a Mesh, time: u64) -> (buffer:
        CommandBuffer<'a>)
        ensures
            buffer@ == (CommandBufferView {
                default_texture: default_texture@,
                fullscreen_quad: fullscreen_quad.spec_handle(),
                time,
                blend_mode: BlendMode::Alpha,
                blend_color: white(),
                commands: seq![CommandView::Clear { target: None, color: frame_clear_color() }],
            }),
    {
        let mut commands: Vec<Command> = Vec::new();
        commands.push(
            Command::Clear {
                target: None,
                color: Color { r: 0x3DCC_CCCD, g: 0x3EA8_F5C3, b: ONE, a: ONE },
            },
        );
        proof {
            assert(command_views(commands@) == seq![
                CommandView::Clear { target: None, color: frame_clear_color() },
            ]);
        }
        CommandBuffer {
            default_texture,
            fullscreen_quad,
            time,
            current_blend_mode: BlendMode::Alpha,
            blend_color: Color { r: ONE, g: ONE, b: ONE, a: ONE },
            commands,
        }
    }

    /// The sampler of slot `index` for a draw call with `textures`: the
    /// texture at that place, or the default texture where there is none.
    pub fn create_sampler_uniform(&self, index: usize, textures: &Vec<&Texture2D>) -> (sampler:
        Sampler)
        ensures
            sampler == sampler_at(self@.default_texture, textures@, index as int),
    {
        let texture_handle: &Texture2D = if index >= textures.len() {
            self.default_texture
        } else {
            textures[index]
        };
        let filtering = texture_handle.filtering();
        Sampler {
            texture: texture_handle.texture(),
            minify_filter: filtering.0,
            magnify_filter: filtering.1,
        }
    }

    /// A render target that binds `textures`, in order, to the names
    /// `output0` to `output3`.
    pub fn render_target<'t>(&self, textures: Vec<&'t Texture2D>) -> (target: RenderTarget<'t>)
        requires
            textures@.len() <= 4,
        ensures
            target.textures() == textures@,
            outputs_match(target.outputs(), textures@),
    {
        let mut outputs: Vec<Output> = Vec::new();
        let mut i: usize = 0;
        while i < textures.len()
            invariant
                i <= textures@.len() <= 4,
                outputs_match(outputs@, textures@.take(i as int)),
            decreases textures@.len() - i,
        {
            let ghost before = outputs@;
            let texture: &Texture2D = textures[i];
            let output = Output { name: name_of_output(i), texture: texture.texture() };
            outputs.push(output);
            proof {
                let seen = textures@.take(i + 1);
                assert forall|k: int| 0 <= k < outputs@.len() implies (#[trigger] outputs@[k]).texture
                    == seen[k]@.handle && outputs@[k].name@ == output_name(k) by {
                    if k < i {
                        assert(outputs@[k] == before[k]);
                        assert(seen[k] == textures@.take(i as int)[k]);
                    }
                }
            }
            i += 1;
        }
        proof {
            assert(textures@.take(i as int) == textures@);
        }
        RenderTarget { outputs, textures }
    }

    /// The blend state that draw calls use under `blend_mode`.
    pub fn create_draw_params(blend_mode: &BlendMode) -> (blend: Blend)
        ensures
            blend == blend_of(*blend_mode),
    {
        let zero = Color { r: ZERO, g: ZERO, b: ZERO, a: ZERO };
        match blend_mode {
            BlendMode::Additive => Blend {
                color: BlendingFunction::Addition {
                    source: LinearBlendingFactor::SourceAlpha,
                    destination: LinearBlendingFactor::One,
                },
                alpha: BlendingFunction::Addition {
                    source: LinearBlendingFactor::Zero,
                    destination: LinearBlendingFactor::One,
                },
                constant_value: zero,
            },
            BlendMode::Alpha => Blend {
                color: BlendingFunction::Addition {
                    source: LinearBlendingFactor::SourceAlpha,
                    destination: LinearBlendingFactor::OneMinusSourceAlpha,
                },
                alpha: BlendingFunction::Addition {
                    source: LinearBlendingFactor::One,
                    destination: LinearBlendingFactor::Zero,
                },
                constant_value: zero,
            },
            BlendMode::Opaque => Blend {
                color: BlendingFunction::AlwaysReplace,
                alpha: BlendingFunction::AlwaysReplace,
                constant_value: Color { r: ONE, g: ONE, b: ONE, a: ONE },
            },
            BlendMode::NoBlend => Blend {
                color: BlendingFunction::Addition {
                    source: LinearBlendingFactor::SourceAlpha,
                    destination: LinearBlendingFactor::Zero,
                },
                alpha: BlendingFunction::Addition {
                    source: LinearBlendingFactor::One,
                    destination: LinearBlendingFactor::Zero,
                },
                constant_value: zero,
            },
        }
    }

    /// Later draw calls blend by the source's alpha over the destination.
    pub fn alpha_blend(&mut self)
        ensures
            final(self)@ == (CommandBufferView { blend_mode: BlendMode::Alpha, ..old(self)@ }),
    {
        self.current_blend_mode = BlendMode::Alpha;
    }

    /// Later draw calls add the source, scaled by its alpha, to the
    /// destination.
    pub fn additive_blend(&mut self)
        ensures
            final(self)@ == (CommandBufferView { blend_mode: BlendMode::Additive, ..old(self)@ }),
    {
        self.current_blend_mode = BlendMode::Additive;
    }

    /// Later draw calls overwrite the destination.
    pub fn opaque_blend(&mut self)
        ensures
            final(self)@ == (CommandBufferView { blend_mode: BlendMode::Opaque, ..old(self)@ }),
    {
        self.current_blend_mode = BlendMode::Opaque;
    }

    /// Later draw calls write the source scaled by its alpha.
    pub fn no_blend(&mut self)
        ensures
            final(self)@ == (CommandBufferView { blend_mode: BlendMode::NoBlend, ..old(self)@ }),
    {
        self.current_blend_mode = BlendMode::NoBlend;
    }

    /// Sets the colour that later draw calls hand to the shader as `blend`.
    pub fn set_blend_color(&mut self, r: u32, g: u32, b: u32, a: u32)
        ensures
            final(self)@ == (CommandBufferView {
                blend_color: Color { r, g, b, a },
                ..old(self)@
            }),
    {
        self.blend_color = Color { r, g, b, a };
    }

    fn record(&mut self, command: Command)
        ensures
            final(self)@ == (CommandBufferView {
                commands: old(self)@.commands.push(command@),
                ..old(self)@
            }),
    {
        self.commands.push(command);
        proof {
            assert(command_views(self.commands@) == command_views(old(self).commands@).push(
                command@,
            ));
        }
    }

    fn sampler_uniforms(&self, textures: &Vec<&Texture2D>) -> (samplers: [Sampler; 8])
        ensures
            samplers@ == samplers_of(self@.default_texture, textures@),
    {
        let samplers = [
            self.create_sampler_uniform(0, textures),
            self.create_sampler_uniform(1, textures),
            self.create_sampler_uniform(2, textures),
            self.create_sampler_uniform(3, textures),
            self.create_sampler_uniform(4, textures),
            self.create_sampler_uniform(5, textures),
            self.create_sampler_uniform(6, textures),
            self.create_sampler_uniform(7, textures),
        ];
        proof {
            assert(samplers@ =~= samplers_of(self@.default_texture, textures@));
        }
        samplers
    }

    /// Records the clearing of every attachment of `target` to the colour.
    pub fn clear(&mut self, target: &RenderTarget, r: u32, g: u32, b: u32, a: u32)
        ensures
            final(self)@ == (CommandBufferView {
                commands: old(self)@.commands.push(
                    CommandView::Clear {
                        target: Some(target.outputs()),
                        color: Color { r, g, b, a },
                    },
                ),
                ..old(self)@
            }),
    {
        let outputs = copy_outputs(&target.outputs);
        self.record(Command::Clear { target: Some(outputs), color: Color { r, g, b, a } });
    }

    /// Records a draw of `mesh` into the window's framebuffer. The call
    /// carries the frame time, the three matrices, the blend colour and
    /// blend mode as they stand, and eight samplers: the given textures in
    /// order, then the default texture in every slot left.
    pub fn draw(
        &mut self,
        view: Matrix4,
        projection: Matrix4,
        mesh: &Mesh,
        model: Matrix4,
        shader: &ShaderProgram,
        textures: &Vec<&Texture2D>,
    )
        ensures
            final(self)@ == (CommandBufferView {
                commands: old(self)@.commands.push(
                    CommandView::Draw {
                        target: None,
                        mesh: mesh.spec_handle(),
                        shader: shader@.program,
                        time: old(self)@.time,
                        model: Some(model),
                        view,
                        projection,
                        blend_color: old(self)@.blend_color,
                        samplers: samplers_of(old(self)@.default_texture, textures@),
                        blend: blend_of(old(self)@.blend_mode),
                    },
                ),
                ..old(self)@
            }),
    {
        let samplers = self.sampler_uniforms(textures);
        let blend = CommandBuffer::create_draw_params(&self.current_blend_mode);
        self.record(
            Command::Draw {
                target: None,
                mesh: mesh.handle(),
                shader: shader.program(),
                time: self.time,
                model: Some(model),
                view,
                projection,
                blend_color: self.blend_color,
                samplers,
                blend,
            },
        );
    }

    /// Records the same draw call as [`CommandBuffer::draw`], into
    /// `target` instead of the window's framebuffer.
    pub fn draw_into_target(
        &mut self,
        target: &RenderTarget,
        view: Matrix4,
        projection: Matrix4,
        mesh: &Mesh,
        model: Matrix4,
        shader: &ShaderProgram,
        textures: &Vec<&Texture2D>,
    )
        ensures
            final(self)@ == (CommandBufferView {
                commands: old(self)@.commands.push(
                    CommandView::Draw {
                        target: Some(target.outputs()),
                        mesh: mesh.spec_handle(),
                        shader: shader@.program,
                        time: old(self)@.time,
                        model: Some(model),
                        view,
                        projection,
                        blend_color: old(self)@.blend_color,
                        samplers: samplers_of(old(self)@.default_texture, textures@),
                        blend: blend_of(old(self)@.blend_mode),
                    },
                ),
                ..old(self)@
            }),
    {
        let samplers = self.sampler_uniforms(textures);
        let blend = CommandBuffer::create_draw_params(&self.current_blend_mode);
        let outputs = copy_outputs(&target.outputs);
        self.record(
            Command::Draw {
                target: Some(outputs),
                mesh: mesh.handle(),
                shader: shader.program(),
                time: self.time,
                model: Some(model),
                view,
                projection,
                blend_color: self.blend_color,
                samplers,
                blend,
            },
        );
    }

    /// Records a draw of the fullscreen quad into the window's
    /// framebuffer, without a model matrix.
    pub fn fullscreen_pass(
        &mut self,
        view: Matrix4,
        projection: Matrix4,
        shader: &ShaderProgram,
        textures: &Vec<&Texture2D>,
    )
        ensures
            final(self)@ == (CommandBufferView {
                commands: old(self)@.commands.push(
                    CommandView::Draw {
                        target: None,
                        mesh: old(self)@.fullscreen_quad,
                        shader: shader@.program,
                        time: old(self)@.time,
                        model: None,
                        view,
                        projection,
                        blend_color: old(self)@.blend_color,
                        samplers: samplers_of(old(self)@.default_texture, textures@),
                        blend: blend_of(old(self)@.blend_mode),
                    },
                ),
                ..old(self)@
            }),
    {
        let samplers = self.sampler_uniforms(textures);
        let blend = CommandBuffer::create_draw_params(&self.current_blend_mode);
        self.record(
            Command::Draw {
                target: None,
                mesh: self.fullscreen_quad.handle(),
                shader: shader.program(),
                time: self.time,
                model: None,
                view,
                projection,
                blend_color: self.blend_color,
                samplers,
                blend,
            },
        );
    }

    /// Ends the recording and hands out the frame: every command, in the
    /// order in which it was recorded.
    pub fn end(self) -> (frame: Vec<Command>)
        ensures
            command_views(frame@) == self@.commands,
    {
        self.commands
    }
}

} // verus!
