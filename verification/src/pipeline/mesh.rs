//! The mesh pipeline: the layout of its device resources, the plan of each
//! synchronisation with the scene, and the draws of each pass.

use crate::pipeline::{
    array_buffer, array_size, create_storage_buffer, create_uniform_buffer, BufferDescriptor,
    BufferUsage,
};
use crate::scene::{InitData, Model, Scene};
use vstd::prelude::*;

verus! {

/// A buffer that a binding set makes visible to the shader.
#[derive(Clone, Copy, Debug, PartialEq, Eq, Structural)]
pub enum Binding {
    /// The camera uniform.
    Camera,
    /// The uniform of the object with this index.
    Object(usize),
    /// The light array.
    Lights,
}

/// A binding set: `entries[k]` is bound at binding number `k`.
#[derive(Debug, PartialEq, Eq)]
pub struct BindGroup {
    pub entries: Vec<Binding>,
}

/// Every device resource of the mesh pipeline, as plain data. The sizes are
/// fixed when the layout is made and never change afterwards.
#[derive(Debug, PartialEq, Eq)]
pub struct MeshLayout {
    /// One binding set per object: the camera, then that object.
    pub uniform_groups: Vec<BindGroup>,
    /// The binding set shared by all objects: the lights.
    pub storage_group: BindGroup,
    pub lights_buffer: BufferDescriptor,
    pub camera_buffer: BufferDescriptor,
    /// One uniform buffer per object.
    pub object_buffers: Vec<BufferDescriptor>,
    /// One vertex buffer per model.
    pub vertex_buffers: Vec<BufferDescriptor>,
    /// One index buffer per model.
    pub index_buffers: Vec<BufferDescriptor>,
    /// The number of indices of each model.
    pub index_lengths: Vec<u32>,
    /// The number of lights that the light array holds, which is also the
    /// constant that the shader is compiled with.
    pub light_count: usize,
}

impl MeshLayout {
    /// Each object has its binding set, and each model its vertex buffer, its
    /// index buffer and its index count.
    pub open spec fn wf(&self) -> bool {
        &&& self.uniform_groups@.len() == self.object_buffers@.len()
        &&& self.index_buffers@.len() == self.vertex_buffers@.len()
        &&& self.index_lengths@.len() == self.vertex_buffers@.len()
    }
}

/// The buffer sizes of the model fit the device's 64-bit sizes, and its
/// indices can be counted in 32 bits.
pub open spec fn model_fits<V>(model: Model<V>) -> bool {
    &&& array_size::<V>(model.vertex_buffer@.len()) <= u64::MAX
    &&& model.index_buffer@.len() <= u32::MAX
}

/// Every buffer that the models and `lights` lights of type `P` need can be
/// described.
pub open spec fn fits<V, P>(models: Seq<Model<V>>, lights: nat) -> bool {
    &&& array_size::<P>(lights) <= u64::MAX
    &&& forall|i: int| 0 <= i < models.len() ==> model_fits(#[trigger] models[i])
}

/// `layout` is the layout for the given models, `objects` objects of type
/// `O`, `lights` lights of type `P` and a camera uniform of type `U`.
pub open spec fn lays_out<V, O, P, U>(
    layout: MeshLayout,
    models: Seq<Model<V>>,
    objects: nat,
    lights: nat,
) -> bool {
    &&& layout.light_count == lights
    &&& layout.lights_buffer == array_buffer::<P>(lights, BufferUsage::Storage)
    &&& layout.camera_buffer == array_buffer::<U>(1, BufferUsage::Uniform)
    &&& layout.object_buffers@.len() == objects
    &&& forall|i: int|
        0 <= i < objects ==> #[trigger] layout.object_buffers@[i] == array_buffer::<O>(
            1,
            BufferUsage::Uniform,
        )
    &&& layout.uniform_groups@.len() == objects
    &&& forall|i: int|
        0 <= i < objects ==> (#[trigger] layout.uniform_groups@[i]).entries@ == seq![
            Binding::Camera,
            Binding::Object(i as usize),
        ]
    &&& layout.storage_group.entries@ == seq![Binding::Lights]
    &&& layout.vertex_buffers@.len() == models.len()
    &&& forall|i: int|
        0 <= i < models.len() ==> #[trigger] layout.vertex_buffers@[i] == array_buffer::<V>(
            models[i].vertex_buffer@.len(),
            BufferUsage::Vertex,
        )
    &&& layout.index_buffers@.len() == models.len()
    &&& forall|i: int|
        0 <= i < models.len() ==> #[trigger] layout.index_buffers@[i] == array_buffer::<u32>(
            models[i].index_buffer@.len(),
            BufferUsage::Index,
        )
    &&& layout.index_lengths@.len() == models.len()
    &&& forall|i: int|
        0 <= i < models.len() ==> #[trigger] layout.index_lengths@[i]
            == models[i].index_buffer@.len()
}

/// One buffer write of a synchronisation. Each write replaces the whole
/// content of its buffer.
#[derive(Clone, Copy, Debug, PartialEq, Eq, Structural)]
pub enum BufferWrite {
    /// The whole light array into the light buffer.
    Lights,
    /// The camera uniform into the camera buffer.
    Camera,
    /// The object with this index into its own buffer.
    Object(usize),
}

/// What one synchronisation uploads: which parts of the scene were dirty, and
/// the buffer writes that bring them to the device, in the order in which
/// they are issued.
#[derive(Debug, PartialEq, Eq)]
pub struct SyncPlan {
    pub lights: bool,
    pub camera: bool,
    pub objects: bool,
    pub writes: Vec<BufferWrite>,
}

/// Why a scene cannot be synchronised: one of its sequences does not have
/// the length that the buffers were made for.
#[derive(Clone, Copy, Debug, PartialEq, Eq, Structural)]
pub enum CapacityError {
    Lights,
    Objects,
}

/// One indexed draw: the buffers and the binding set to bind, and how many
/// indices to draw from the start of the index buffer.
#[derive(Clone, Copy, Debug, PartialEq, Eq, Structural)]
pub struct DrawCall {
    pub vertex_buffer: usize,
    pub index_buffer: usize,
    pub uniform_group: usize,
    pub index_count: u32,
}

/// The writes of one synchronisation: the lights if they are dirty, then the
/// camera if it is dirty, then every object in sequence order if the objects
/// are dirty.
pub open spec fn sync_writes(lights: bool, camera: bool, objects: bool, object_count: nat) -> Seq<
    BufferWrite,
> {
    (if lights {
        seq![BufferWrite::Lights]
    } else {
        Seq::empty()
    }) + (if camera {
        seq![BufferWrite::Camera]
    } else {
        Seq::empty()
    }) + (if objects {
        Seq::new(object_count, |i: int| BufferWrite::Object(i as usize))
    } else {
        Seq::empty()
    })
}

/// The draws of one pass: one for each object that has a model, in sequence
/// order, over all the indices of that model.
pub open spec fn draw_calls(index_lengths: Seq<u32>, objects: nat) -> Seq<DrawCall> {
    Seq::new(
        if index_lengths.len() <= objects {
            index_lengths.len()
        } else {
            objects
        },
        |i: int|
            DrawCall {
                vertex_buffer: i as usize,
                index_buffer: i as usize,
                uniform_group: i as usize,
                index_count: index_lengths[i],
            },
    )
}

/// Describes the buffer of the given use for `count` values of type `T`, or
/// nothing where its size does not fit 64 bits.
fn describe_array<T>(count: usize, usage: BufferUsage) -> (descriptor: Option<BufferDescriptor>)
    ensures
        descriptor == if array_size::<T>(count as nat) <= u64::MAX {
            Some(array_buffer::<T>(count as nat, usage))
        } else {
            None
        },
{
    match (std::mem::size_of::<T>() as u64).checked_mul(count as u64) {
        Some(size) => Some(BufferDescriptor { size, usage, mapped_at_creation: false }),
        None => None,
    }
}

/// The mesh pipeline's device resources: a layout that is known to be well
/// formed.
pub struct Mesh {
    layout: MeshLayout,
}

impl View for Mesh {
    type V = MeshLayout;

    closed spec fn view(&self) -> MeshLayout {
        self.layout
    }
}

impl Mesh {
    #[verifier::type_invariant]
    spec fn well_formed(&self) -> bool {
        self.layout.wf()
    }

    /// `planned` is what synchronising `scene` comes to: the plan for what is
    /// dirty where the point lights and the objects are as many as the buffers
    /// were made for, and otherwise the first of the two that is not.
    pub open spec fn plans<O, P, D, C>(
        &self,
        scene: &Scene<O, P, D, C>,
        planned: Result<SyncPlan, CapacityError>,
    ) -> bool {
        match planned {
            Ok(plan) => {
                &&& scene.point_lights.values@.len() == self@.light_count
                &&& scene.objects.values@.len() == self@.object_buffers@.len()
                &&& plan.lights == scene.point_lights.dirty
                &&& plan.camera == scene.camera.dirty
                &&& plan.objects == scene.objects.dirty
                &&& plan.writes@ == sync_writes(
                    plan.lights,
                    plan.camera,
                    plan.objects,
                    self@.object_buffers@.len(),
                )
            },
            Err(CapacityError::Lights) => scene.point_lights.values@.len() != self@.light_count,
            Err(CapacityError::Objects) => {
                &&& scene.point_lights.values@.len() == self@.light_count
                &&& scene.objects.values@.len() != self@.object_buffers@.len()
            },
        }
    }

    /// Lays out the device resources for the models of `init_data` and for
    /// the objects and point lights of `scene`, with a camera uniform of type
    /// `U`. Fails where a buffer would be larger than 64 bits can say, or a
    /// model has more indices than 32 bits can count.
    pub fn new<V, O, P, D, C, U>(init_data: &InitData<V>, scene: &Scene<O, P, D, C>) -> (made:
        Result<Mesh, ()>)
        ensures
            match made {
                Ok(mesh) => {
                    &&& fits::<V, P>(init_data.models@, scene.point_lights.values@.len())
                    &&& mesh@.wf()
                    &&& lays_out::<V, O, P, U>(
                        mesh@,
                        init_data.models@,
                        scene.objects.values@.len(),
                        scene.point_lights.values@.len(),
                    )
                },
                Err(_) => !fits::<V, P>(init_data.models@, scene.point_lights.values@.len()),
            },
    {
        let light_count = scene.point_lights.values.len();
        if (std::mem::size_of::<P>() as u64).checked_mul(light_count as u64).is_none() {
            return Err(());
        }
        let lights_buffer = create_storage_buffer::<P>(Some(light_count as u64));
        let camera_buffer = create_uniform_buffer::<U>(None);

        let object_count = scene.objects.values.len();
        let mut object_buffers: Vec<BufferDescriptor> = Vec::new();
        while object_buffers.len() < object_count
            invariant
                object_buffers@.len() <= object_count,
                forall|i: int|
                    0 <= i < object_buffers@.len() ==> #[trigger] object_buffers@[i]
                        == array_buffer::<O>(1, BufferUsage::Uniform),
            decreases object_count - object_buffers@.len(),
        {
            let object_buffer = create_uniform_buffer::<O>(None);
            object_buffers.push(object_buffer);
        }

        let mut uniform_groups: Vec<BindGroup> = Vec::new();
        while uniform_groups.len() < object_buffers.len()
            invariant
                uniform_groups@.len() <= object_buffers@.len(),
                forall|i: int|
                    0 <= i < uniform_groups@.len() ==> (#[trigger] uniform_groups@[i]).entries@
                        == seq![Binding::Camera, Binding::Object(i as usize)],
            decreases object_buffers@.len() - uniform_groups@.len(),
        {
            let object = uniform_groups.len();
            let uniform_group = BindGroup {
                entries: vec![Binding::Camera, Binding::Object(object)],
            };
            uniform_groups.push(uniform_group);
        }

        let storage_group = BindGroup { entries: vec![Binding::Lights] };

        let model_count = init_data.models.len();
        let mut vertex_buffers: Vec<BufferDescriptor> = Vec::new();
        while vertex_buffers.len() < model_count
            invariant
                model_count == init_data.models@.len(),
                vertex_buffers@.len() <= model_count,
                forall|i: int|
                    0 <= i < vertex_buffers@.len() ==> array_size::<V>(
                        (#[trigger] init_data.models@[i]).vertex_buffer@.len(),
                    ) <= u64::MAX,
                forall|i: int|
                    0 <= i < vertex_buffers@.len() ==> #[trigger] vertex_buffers@[i]
                        == array_buffer::<V>(
                        init_data.models@[i].vertex_buffer@.len(),
                        BufferUsage::Vertex,
                    ),
            decreases model_count - vertex_buffers@.len(),
        {
            let model = &init_data.models[vertex_buffers.len()];
            match describe_array::<V>(model.vertex_buffer.len(), BufferUsage::Vertex) {
                Some(buffer) => { vertex_buffers.push(buffer); },
                None => { return Err(()); },
            }
        }

        let mut index_buffers: Vec<BufferDescriptor> = Vec::new();
        let mut index_lengths: Vec<u32> = Vec::new();
        while index_buffers.len() < model_count
            invariant
                model_count == init_data.models@.len(),
                index_buffers@.len() <= model_count,
                index_lengths@.len() == index_buffers@.len(),
                forall|i: int|
                    0 <= i < index_buffers@.len() ==> (
                    #[trigger] init_data.models@[i]).index_buffer@.len() <= u32::MAX,
                forall|i: int|
                    0 <= i < index_buffers@.len() ==> #[trigger] index_buffers@[i]
                        == array_buffer::<u32>(
                        init_data.models@[i].index_buffer@.len(),
                        BufferUsage::Index,
                    ),
                forall|i: int|
                    0 <= i < index_lengths@.len() ==> #[trigger] index_lengths@[i]
                        == init_data.models@[i].index_buffer@.len(),
            decreases model_count - index_buffers@.len(),
        {
            let model = &init_data.models[index_buffers.len()];
            let index_count = model.index_buffer.len();
            if index_count > u32::MAX as usize {
                return Err(());
            }
            proof {
                broadcast use vstd::layout::layout_of_primitives;

                assert(array_size::<u32>(index_count as nat) == 4 * index_count);
            }
            index_buffers.push(
                BufferDescriptor {
                    size: (std::mem::size_of::<u32>() as u64) * (index_count as u64),
                    usage: BufferUsage::Index,
                    mapped_at_creation: false,
                },
            );
            index_lengths.push(index_count as u32);
        }

        let layout = MeshLayout {
            uniform_groups,
            storage_group,
            lights_buffer,
            camera_buffer,
            object_buffers,
            vertex_buffers,
            index_buffers,
            index_lengths,
            light_count,
        };
        assert(layout.storage_group.entries@ == seq![Binding::Lights]);
        Ok(Mesh { layout })
    }

    /// The layout, for whoever makes the device resources.
    pub fn layout(&self) -> (layout: &MeshLayout)
        ensures
            *layout == self@,
            layout.wf(),
    {
        proof {
            use_type_invariant(self);
        }
        &self.layout
    }

    /// Plans the upload of what changed in `scene`. A scene whose point
    /// lights or objects are not as many as the buffers were made for is
    /// refused. The flags of `scene` stay as they are: they are cleared with
    /// `SyncPlan::clear`, once the writes have been issued.
    pub fn update<O, P, D, C>(&self, scene: &Scene<O, P, D, C>) -> (planned: Result<
        SyncPlan,
        CapacityError,
    >)
        ensures
            self.plans(scene, planned),
    {
        if scene.point_lights.values.len() != self.layout.light_count {
            return Err(CapacityError::Lights);
        }
        let object_count = self.layout.object_buffers.len();
        if scene.objects.values.len() != object_count {
            return Err(CapacityError::Objects);
        }
        let mut writes: Vec<BufferWrite> = Vec::new();
        if scene.point_lights.is_dirty() {
            writes.push(BufferWrite::Lights);
        }
        if scene.camera.is_dirty() {
            writes.push(BufferWrite::Camera);
        }
        let ghost before = writes@;
        if scene.objects.is_dirty() {
            let mut object: usize = 0;
            while object < object_count
                invariant
                    object <= object_count,
                    writes@ == before + Seq::new(
                        object as nat,
                        |i: int| BufferWrite::Object(i as usize),
                    ),
                decreases object_count - object,
            {
                writes.push(BufferWrite::Object(object));
                object += 1;
            }
        }
        let plan = SyncPlan {
            lights: scene.point_lights.is_dirty(),
            camera: scene.camera.is_dirty(),
            objects: scene.objects.is_dirty(),
            writes,
        };
        assert(plan.writes@ =~= sync_writes(
            plan.lights,
            plan.camera,
            plan.objects,
            object_count as nat,
        ));
        Ok(plan)
    }

    /// The draws of one render pass.
    pub fn draw(&self) -> (calls: Vec<DrawCall>)
        ensures
            calls@ == draw_calls(self@.index_lengths@, self@.uniform_groups@.len()),
    {
        proof {
            use_type_invariant(self);
        }
        let model_count = self.layout.vertex_buffers.len();
        let object_count = self.layout.uniform_groups.len();
        let count = if model_count <= object_count {
            model_count
        } else {
            object_count
        };
        let mut calls: Vec<DrawCall> = Vec::new();
        let mut i: usize = 0;
        while i < count
            invariant
                i <= count,
                count <= self.layout.index_lengths@.len(),
                calls@.len() == i,
                forall|k: int|
                    0 <= k < i ==> #[trigger] calls@[k] == (DrawCall {
                        vertex_buffer: k as usize,
                        index_buffer: k as usize,
                        uniform_group: k as usize,
                        index_count: self.layout.index_lengths@[k],
                    }),
            decreases count - i,
        {
            calls.push(
                DrawCall {
                    vertex_buffer: i,
                    index_buffer: i,
                    uniform_group: i,
                    index_count: self.layout.index_lengths[i],
                },
            );
            i += 1;
        }
        calls
    }
}

impl SyncPlan {
    /// `after` is `before` with the flag cleared of each part that the plan
    /// uploaded. The values, and the flags of the other parts, are the same.
    pub open spec fn clears<O, P, D, C>(
        &self,
        before: Scene<O, P, D, C>,
        after: Scene<O, P, D, C>,
    ) -> bool {
        &&& after.point_lights.dirty == (before.point_lights.dirty && !self.lights)
        &&& after.camera.dirty == (before.camera.dirty && !self.camera)
        &&& after.objects.dirty == (before.objects.dirty && !self.objects)
        &&& after.point_lights.values == before.point_lights.values
        &&& after.camera.value == before.camera.value
        &&& after.objects.values == before.objects.values
        &&& after.directional_lights == before.directional_lights
    }

    /// Closes a synchronisation, once every write of the plan has been
    /// issued: clears the flag of each part that the plan uploaded.
    pub fn clear<O, P, D, C>(self, scene: &mut Scene<O, P, D, C>)
        ensures
            self.clears(*old(scene), *final(scene)),
    {
        if self.lights {
            scene.point_lights.clear();
        }
        if self.camera {
            scene.camera.clear();
        }
        if self.objects {
            scene.objects.clear();
        }
    }
}

/// A scene with another number of objects than the mesh has object buffers
/// is never given a plan.
pub proof fn lemma_capacity_guard<O, P, D, C>(
    mesh: Mesh,
    scene: Scene<O, P, D, C>,
    planned: Result<SyncPlan, CapacityError>,
)
    requires
        mesh.plans(&scene, planned),
        scene.objects.values@.len() != mesh@.object_buffers@.len(),
    ensures
        planned is Err,
{
}

/// A synchronisation that is planned and then closed leaves the point lights,
/// the camera and the objects clean, and every value as it was.
pub proof fn lemma_sync_leaves_clean<O, P, D, C>(
    mesh: Mesh,
    before: Scene<O, P, D, C>,
    plan: SyncPlan,
    after: Scene<O, P, D, C>,
)
    requires
        mesh.plans(&before, Ok(plan)),
        plan.clears(before, after),
    ensures
        !after.point_lights.dirty,
        !after.camera.dirty,
        !after.objects.dirty,
        after.point_lights.values == before.point_lights.values,
        after.camera.value == before.camera.value,
        after.objects.values == before.objects.values,
{
}

/// A plan writes the lights before the camera and the camera before the
/// objects, writes the objects in sequence order, and writes nothing that is
/// clean.
pub proof fn lemma_sync_order(lights: bool, camera: bool, objects: bool, object_count: nat)
    ensures
        ({
            let writes = sync_writes(lights, camera, objects, object_count);
            let first = if lights { 1int } else { 0int };
            let second = first + if camera { 1int } else { 0int };
            &&& writes.len() == second + if objects { object_count as int } else { 0int }
            &&& lights ==> writes[0] == BufferWrite::Lights
            &&& camera ==> writes[first] == BufferWrite::Camera
            &&& objects ==> forall|i: int|
                0 <= i < object_count ==> #[trigger] writes[second + i] == BufferWrite::Object(
                    i as usize,
                )
        }),
{
}

} // verus!
