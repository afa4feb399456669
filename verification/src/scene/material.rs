use vstd::prelude::*;
use crate::device::backend::Device;
use crate::device::descriptor_set::DescriptorSet;
use crate::device::descriptor_set_layout::{
    basic_binding, DescriptorSetLayout, DescriptorSetLayoutHandle,
};
use crate::device::pipeline::{
    GraphicsPipelineInfo, Pipeline, PipelineCache, PipelineLayout, PipelineParameters,
};
use crate::device::raw_handle::{many, one, AsRawHandle, Gpu, ObjectKind, RenderPassHandle};
use crate::device::types::{
    ColorBlendAttachment, DescriptorSetLayoutBinding, FixedFunctionState, PushConstantRange,
    ShaderStage, VertexInputAttributeDescription, VertexInputBindingDescription, BLEND_FACTOR_ONE,
    BLEND_FACTOR_ONE_MINUS_SRC_ALPHA, BLEND_FACTOR_SRC_COLOR, BLEND_OP_ADD, COLOR_COMPONENT_ALL,
    CULL_MODE_BACK, FRONT_FACE_COUNTER_CLOCKWISE, PRIMITIVE_TOPOLOGY_TRIANGLE_LIST,
    SHADER_STAGE_FRAGMENT, SHADER_STAGE_VERTEX, VERTEX_INPUT_RATE_VERTEX,
};
use crate::error::Error;
use crate::resources::shader::Shader;
use crate::scene::definition::{Descriptor, Program, StageType, VertexInputBinding};

verus! {

/// The size of the model matrix that is pushed for every model.
pub const MODEL_MATRIX_SIZE: u32 = 64;

/// The flag bits of all of `stages` together.
pub open spec fn stage_mask(stages: Seq<StageType>) -> u32
    decreases stages.len(),
{
    if stages.len() == 0 {
        0
    } else {
        stage_mask(stages.drop_last()) | stages.last().spec_stage_flags()
    }
}

/// The layout binding of one declared descriptor.
pub open spec fn descriptor_binding(descriptor: Descriptor) -> DescriptorSetLayoutBinding {
    basic_binding(
        descriptor.binding,
        descriptor.ty.spec_descriptor_type(),
        stage_mask(descriptor.stages@),
    )
}

/// The layout bindings of a program's declared descriptors, in
/// declaration order.
pub open spec fn program_bindings(descriptors: Seq<Descriptor>) -> Seq<DescriptorSetLayoutBinding> {
    Seq::new(descriptors.len(), |i: int| descriptor_binding(descriptors[i]))
}

/// The vertex buffer bindings of a program's declared vertex input.
pub open spec fn binding_descriptions(input: Seq<VertexInputBinding>) -> Seq<
    VertexInputBindingDescription,
> {
    Seq::new(
        input.len(),
        |i: int|
            VertexInputBindingDescription {
                binding: input[i].binding,
                stride: input[i].stride,
                input_rate: VERTEX_INPUT_RATE_VERTEX,
            },
    )
}

/// The attributes read from one declared vertex buffer binding.
pub open spec fn binding_attributes(binding: VertexInputBinding) -> Seq<
    VertexInputAttributeDescription,
> {
    Seq::new(
        binding.attributes@.len(),
        |j: int|
            VertexInputAttributeDescription {
                location: binding.attributes@[j].location,
                binding: binding.binding,
                format: binding.attributes@[j].format.spec_format(),
                offset: binding.attributes@[j].offset,
            },
    )
}

/// The attributes of a program's declared vertex input: those of the
/// first binding, then those of the second, and so on.
pub open spec fn attribute_descriptions(input: Seq<VertexInputBinding>) -> Seq<
    VertexInputAttributeDescription,
>
    decreases input.len(),
{
    if input.len() == 0 {
        Seq::empty()
    } else {
        attribute_descriptions(input.drop_last()) + binding_attributes(input.last())
    }
}

/// The flag bits of all of `stages` together.
pub fn stages_to_mask(stages: &Vec<StageType>) -> (mask: u32)
    ensures
        mask == stage_mask(stages@),
{
    let mut mask: u32 = 0;
    let mut index: usize = 0;
    while index < stages.len()
        invariant
            index <= stages@.len(),
            mask == stage_mask(stages@.take(index as int)),
        decreases stages@.len() - index,
    {
        proof {
            assert(stages@.take(index + 1).drop_last() =~= stages@.take(index as int));
        }
        mask = mask | stages[index].stage_flags();
        index = index + 1;
    }
    proof {
        assert(stages@.take(index as int) =~= stages@);
    }
    mask
}

/// The vertex buffer bindings and attributes of a declared vertex input.
pub fn describe_vertex_input(input: &Vec<VertexInputBinding>) -> (described: (
    Vec<VertexInputBindingDescription>,
    Vec<VertexInputAttributeDescription>,
))
    ensures
        described.0@ == binding_descriptions(input@),
        described.1@ == attribute_descriptions(input@),
{
    let mut bindings: Vec<VertexInputBindingDescription> = Vec::new();
    let mut attributes: Vec<VertexInputAttributeDescription> = Vec::new();
    let mut index: usize = 0;
    while index < input.len()
        invariant
            index <= input@.len(),
            bindings@ == binding_descriptions(input@.take(index as int)),
            attributes@ == attribute_descriptions(input@.take(index as int)),
        decreases input@.len() - index,
    {
        let binding = &input[index];
        bindings.push(
            VertexInputBindingDescription {
                binding: binding.binding,
                stride: binding.stride,
                input_rate: VERTEX_INPUT_RATE_VERTEX,
            },
        );
        let ghost before = attributes@;
        let mut at: usize = 0;
        while at < binding.attributes.len()
            invariant
                at <= binding.attributes@.len(),
                attributes@ == before + binding_attributes(*binding).take(at as int),
            decreases binding.attributes@.len() - at,
        {
            attributes.push(
                VertexInputAttributeDescription {
                    location: binding.attributes[at].location,
                    binding: binding.binding,
                    format: binding.attributes[at].format.format(),
                    offset: binding.attributes[at].offset,
                },
            );
            proof {
                assert(attributes@ =~= before + binding_attributes(*binding).take(at + 1));
            }
            at = at + 1;
        }
        proof {
            assert(binding_attributes(*binding).take(at as int) =~= binding_attributes(*binding));
            assert(input@.take(index + 1).drop_last() =~= input@.take(index as int));
            assert(input@.take(index + 1).last() == input@[index as int]);
            assert(bindings@ =~= binding_descriptions(input@.take(index + 1)));
        }
        index = index + 1;
    }
    proof {
        assert(input@.take(index as int) =~= input@);
    }
    (bindings, attributes)
}

/// The fixed-function state of every material pipeline: triangle lists,
/// back faces culled, blending by source alpha, viewport and scissor set
/// while recording.
pub open spec fn material_state(samples: u32) -> FixedFunctionState {
    FixedFunctionState {
        topology: PRIMITIVE_TOPOLOGY_TRIANGLE_LIST,
        viewport_count: 1,
        scissor_count: 1,
        line_width: 1,
        front_face: FRONT_FACE_COUNTER_CLOCKWISE,
        cull_mode: CULL_MODE_BACK,
        rasterization_samples: samples,
        blend: ColorBlendAttachment {
            blend_enable: true,
            src_color_blend_factor: BLEND_FACTOR_SRC_COLOR,
            dst_color_blend_factor: BLEND_FACTOR_ONE_MINUS_SRC_ALPHA,
            color_blend_op: BLEND_OP_ADD,
            src_alpha_blend_factor: BLEND_FACTOR_ONE,
            dst_alpha_blend_factor: BLEND_FACTOR_ONE_MINUS_SRC_ALPHA,
            alpha_blend_op: BLEND_OP_ADD,
            color_write_mask: COLOR_COMPONENT_ALL,
        },
        dynamic_viewport: true,
        dynamic_scissor: true,
    }
}

/// What every material of one program shares: the pipeline cache, the
/// layouts, the two shaders and the vertex input.
pub struct MaterialProgram {
    pub cache: PipelineCache,
    pub descriptors_layout: DescriptorSetLayout,
    pub pipeline_layout: PipelineLayout,
    pub vs: Shader,
    pub fs: Shader,
    pub vertex_binding_descriptions: Vec<VertexInputBindingDescription>,
    pub vertex_attribute_descriptions: Vec<VertexInputAttributeDescription>,
}

impl MaterialProgram {
    /// What a program adds to the live objects of kind `kind`.
    pub open spec fn footprint(kind: ObjectKind) -> int {
        one(ObjectKind::PipelineCache, kind) + one(ObjectKind::DescriptorSetLayout, kind) + one(
            ObjectKind::PipelineLayout,
            kind,
        ) + many(2, ObjectKind::ShaderModule, kind)
    }

    /// The program was made from `definition` for a view layout
    /// `view_descriptors_layout`: slot 0 of its pipeline layout holds the
    /// view layout, slot 1 its own; the model matrix is pushed to the vertex
    /// stage.
    pub open spec fn matches(
        &self,
        definition: &Program,
        view_descriptors_layout: DescriptorSetLayoutHandle,
    ) -> bool {
        &&& self.descriptors_layout@ == program_bindings(definition.descriptors@)
        &&& self.pipeline_layout.set_layouts() == seq![
            view_descriptors_layout,
            self.descriptors_layout.raw_handle(),
        ]
        &&& self.pipeline_layout.push_constant_ranges() == seq![
            PushConstantRange {
                stage_flags: SHADER_STAGE_VERTEX,
                offset: 0,
                size: MODEL_MATRIX_SIZE,
            },
        ]
        &&& self.vs.1 == SHADER_STAGE_VERTEX
        &&& self.fs.1 == SHADER_STAGE_FRAGMENT
        &&& self.vertex_binding_descriptions@ == binding_descriptions(definition.vertex_input@)
        &&& self.vertex_attribute_descriptions@ == attribute_descriptions(definition.vertex_input@)
    }

    /// Creates what the materials of one program share, from the program's
    /// declaration and its two shaders as compiled code: the vertex shader
    /// from `vertex_code`, the fragment shader from `fragment_code`. If any
    /// step fails, what the earlier steps made is destroyed.
    pub fn create<D: Device>(
        gpu: &mut Gpu<D>,
        definition: &Program,
        vertex_code: &[u32],
        fragment_code: &[u32],
        view_descriptors_layout: DescriptorSetLayoutHandle,
    ) -> (created: Result<Self, Error>)
        ensures
            final(gpu).memory_types == old(gpu).memory_types,
            final(gpu).requests() == old(gpu).requests(),
            created matches Err(e) ==> e is Vk,
            created matches Ok(program) ==> {
                &&& program.matches(definition, view_descriptors_layout)
                &&& program.vs.2@ == vertex_code@
                &&& program.fs.2@ == fragment_code@
            },
            forall|k: ObjectKind| #[trigger]
                final(gpu).live(k) == old(gpu).live(k) + (if created is Ok {
                    Self::footprint(k)
                } else {
                    0
                }),
    {
        let cache = PipelineCache::create(gpu)?;
        let mut layout_builder = DescriptorSetLayout::builder();
        let mut index: usize = 0;
        while index < definition.descriptors.len()
            invariant
                index <= definition.descriptors@.len(),
                layout_builder@ == program_bindings(definition.descriptors@).take(index as int),
            decreases definition.descriptors@.len() - index,
        {
            let descriptor = &definition.descriptors[index];
            layout_builder = layout_builder.add_basic(
                descriptor.binding,
                descriptor.ty.descriptor_type(),
                stages_to_mask(&descriptor.stages),
            );
            proof {
                assert(layout_builder@ =~= program_bindings(definition.descriptors@).take(
                    index + 1,
                ));
            }
            index = index + 1;
        }
        proof {
            assert(program_bindings(definition.descriptors@).take(index as int)
                =~= program_bindings(definition.descriptors@));
        }
        let descriptors_layout = match layout_builder.build(gpu) {
            Ok(layout) => layout,
            Err(e) => {
                cache.destroy(gpu);
                return Err(e);
            },
        };
        let set_layouts = [view_descriptors_layout, descriptors_layout.as_raw()];
        let push_constant_ranges = [
            PushConstantRange {
                stage_flags: SHADER_STAGE_VERTEX,
                offset: 0,
                size: MODEL_MATRIX_SIZE,
            },
        ];
        proof {
            assert(set_layouts@ =~= seq![view_descriptors_layout, descriptors_layout.raw_handle()]);
            assert(push_constant_ranges@ =~= seq![push_constant_ranges@[0]]);
        }
        let pipeline_layout = match PipelineLayout::create(
            gpu,
            &set_layouts,
            &push_constant_ranges,
        ) {
            Ok(layout) => layout,
            Err(e) => {
                descriptors_layout.destroy(gpu);
                cache.destroy(gpu);
                return Err(e);
            },
        };
        let vs = match Shader::new(gpu, vertex_code, SHADER_STAGE_VERTEX) {
            Ok(shader) => shader,
            Err(e) => {
                pipeline_layout.destroy(gpu);
                descriptors_layout.destroy(gpu);
                cache.destroy(gpu);
                return Err(e);
            },
        };
        let fs = match Shader::new(gpu, fragment_code, SHADER_STAGE_FRAGMENT) {
            Ok(shader) => shader,
            Err(e) => {
                vs.destroy(gpu);
                pipeline_layout.destroy(gpu);
                descriptors_layout.destroy(gpu);
                cache.destroy(gpu);
                return Err(e);
            },
        };
        let (vertex_binding_descriptions, vertex_attribute_descriptions) = describe_vertex_input(
            &definition.vertex_input,
        );
        Ok(
            Self {
                cache,
                descriptors_layout,
                pipeline_layout,
                vs,
                fs,
                vertex_binding_descriptions,
                vertex_attribute_descriptions,
            },
        )
    }

    /// What the pipeline of a material of this program is compiled from:
    /// the vertex and the fragment shader, the program's vertex input and
    /// layout, the state all material pipelines share, for subpass 0 of
    /// `render_pass`.
    pub open spec fn pipeline_parameters(
        &self,
        render_pass: RenderPassHandle,
        samples: u32,
    ) -> PipelineParameters {
        PipelineParameters {
            stages: seq![
                ShaderStage { stage: SHADER_STAGE_VERTEX, module: self.vs.raw_handle() },
                ShaderStage { stage: SHADER_STAGE_FRAGMENT, module: self.fs.raw_handle() },
            ],
            vertex_bindings: self.vertex_binding_descriptions@,
            vertex_attributes: self.vertex_attribute_descriptions@,
            state: material_state(samples),
            layout: self.pipeline_layout.raw_handle(),
            render_pass,
            subpass: 0,
        }
    }

    /// What the pipeline of a material of this program is compiled from.
    pub fn pipeline_info(&self, render_pass: RenderPassHandle, samples: u32) -> (info:
        GraphicsPipelineInfo)
        ensures
            info@ == self.pipeline_parameters(render_pass, samples),
    {
        let mut stages: Vec<ShaderStage> = Vec::new();
        stages.push(ShaderStage { stage: SHADER_STAGE_VERTEX, module: self.vs.as_raw() });
        stages.push(ShaderStage { stage: SHADER_STAGE_FRAGMENT, module: self.fs.as_raw() });
        proof {
            assert(stages@ =~= seq![
                ShaderStage { stage: SHADER_STAGE_VERTEX, module: self.vs.raw_handle() },
                ShaderStage { stage: SHADER_STAGE_FRAGMENT, module: self.fs.raw_handle() },
            ]);
        }
        GraphicsPipelineInfo {
            stages,
            vertex_bindings: vstd::slice::slice_to_vec(self.vertex_binding_descriptions.as_slice()),
            vertex_attributes: vstd::slice::slice_to_vec(
                self.vertex_attribute_descriptions.as_slice(),
            ),
            state: FixedFunctionState {
                topology: PRIMITIVE_TOPOLOGY_TRIANGLE_LIST,
                viewport_count: 1,
                scissor_count: 1,
                line_width: 1,
                front_face: FRONT_FACE_COUNTER_CLOCKWISE,
                cull_mode: CULL_MODE_BACK,
                rasterization_samples: samples,
                blend: ColorBlendAttachment {
                    blend_enable: true,
                    src_color_blend_factor: BLEND_FACTOR_SRC_COLOR,
                    dst_color_blend_factor: BLEND_FACTOR_ONE_MINUS_SRC_ALPHA,
                    color_blend_op: BLEND_OP_ADD,
                    src_alpha_blend_factor: BLEND_FACTOR_ONE,
                    dst_alpha_blend_factor: BLEND_FACTOR_ONE_MINUS_SRC_ALPHA,
                    alpha_blend_op: BLEND_OP_ADD,
                    color_write_mask: COLOR_COMPONENT_ALL,
                },
                dynamic_viewport: true,
                dynamic_scissor: true,
            },
            layout: self.pipeline_layout.as_raw(),
            render_pass,
            subpass: 0,
        }
    }

    /// Compiles the pipeline of a material of this program for
    /// `render_pass` at `samples` samples.
    pub fn create_material_pipeline<D: Device>(
        &self,
        gpu: &mut Gpu<D>,
        render_pass: RenderPassHandle,
        samples: u32,
    ) -> (created: Result<Pipeline, Error>)
        ensures
            final(gpu).memory_types == old(gpu).memory_types,
            final(gpu).requests() == old(gpu).requests(),
            created matches Err(e) ==> e is Vk,
            created matches Ok(pipeline) ==> pipeline.info@ == self.pipeline_parameters(
                render_pass,
                samples,
            ),
            forall|k: ObjectKind| #[trigger]
                final(gpu).live(k) == old(gpu).live(k) + (if created is Ok {
                    one(ObjectKind::Pipeline, k)
                } else {
                    0
                }),
    {
        let info = self.pipeline_info(render_pass, samples);
        self.cache.create_pipeline(gpu, &info)
    }

    /// Destroys the shaders, the layouts and the cache.
    pub fn destroy<D: Device>(self, gpu: &mut Gpu<D>)
        ensures
            final(gpu).memory_types == old(gpu).memory_types,
            final(gpu).requests() == old(gpu).requests(),
            forall|k: ObjectKind| #[trigger]
                final(gpu).live(k) == old(gpu).live(k) - Self::footprint(k),
    {
        self.fs.destroy(gpu);
        self.vs.destroy(gpu);
        self.pipeline_layout.destroy(gpu);
        self.descriptors_layout.destroy(gpu);
        self.cache.destroy(gpu);
    }
}

/// A material: a pipeline of its program and the descriptor set that holds
/// its textures.
pub struct Material {
    pub program: u32,
    pub pipeline: Pipeline,
    pub descriptors: DescriptorSet,
}

} // verus!
