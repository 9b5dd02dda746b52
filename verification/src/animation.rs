//! Animations: samplers (key-frame times and values) and channels (the node property they
//! drive), and the key-frame helpers that store times and values in the binary buffer.

use vstd::prelude::*;
use crate::builder::{GltfBuilder, buffer_after_adding, buffers_after_growing};
use crate::bytes::{FloatBits, pad4, u32s_le, flatten, append_u32s_le, append_arrays_le};
use crate::models::{items, push_item, appended_one, Gltf, Accessor, BufferView, Animation, AnimationChannel, AnimationChannelTarget, AnimationSampler};

verus! {

/// The node property an animation channel drives.
#[derive(Debug, Clone, Copy, PartialEq, Eq, Structural)]
pub enum AnimationPath {
    Translation,
    Rotation,
    Scale,
    Weights,
}

/// The glTF name of each animation path.
pub open spec fn path_name(p: AnimationPath) -> Seq<char> {
    match p {
        AnimationPath::Translation => "translation"@,
        AnimationPath::Rotation => "rotation"@,
        AnimationPath::Scale => "scale"@,
        AnimationPath::Weights => "weights"@,
    }
}

impl AnimationPath {
    /// The glTF name of the path: "translation", "rotation", "scale" or "weights".
    pub fn to_string(&self) -> (s: String)
        ensures
            s@ == path_name(*self),
    {
        match self {
            AnimationPath::Translation => "translation".to_string(),
            AnimationPath::Rotation => "rotation".to_string(),
            AnimationPath::Scale => "scale".to_string(),
            AnimationPath::Weights => "weights".to_string(),
        }
    }
}

/// How values are interpolated between key frames.
#[derive(Debug, Clone, Copy, PartialEq, Eq, Structural)]
pub enum InterpolationType {
    Linear,
    Step,
    CubicSpline,
}

/// The glTF name of each interpolation method.
pub open spec fn interpolation_name(i: InterpolationType) -> Seq<char> {
    match i {
        InterpolationType::Linear => "LINEAR"@,
        InterpolationType::Step => "STEP"@,
        InterpolationType::CubicSpline => "CUBICSPLINE"@,
    }
}

impl InterpolationType {
    /// The glTF name of the method: "LINEAR", "STEP" or "CUBICSPLINE".
    pub fn to_string(&self) -> (s: String)
        ensures
            s@ == interpolation_name(*self),
    {
        match self {
            InterpolationType::Linear => "LINEAR".to_string(),
            InterpolationType::Step => "STEP".to_string(),
            InterpolationType::CubicSpline => "CUBICSPLINE".to_string(),
        }
    }
}

/// An accessor of 32-bit floats over a whole buffer view, with no offset, bounds or
/// normalization.
pub open spec fn plain_float_accessor(a: Accessor, view: int, count: int, kind_name: Seq<char>) -> bool {
    &&& a.buffer_view == view
    &&& a.component_type == 5126
    &&& a.count == count
    &&& a.type_@ == kind_name
    &&& a.byte_offset is None
    &&& a.min is None
    &&& a.max is None
    &&& a.normalized is None
}

/// `after` differs from `before` at most at `index`, which holds `at`.
pub open spec fn updated_at(before: Option<Vec<Animation>>, after: Option<Vec<Animation>>, index: int) -> bool {
    &&& after is Some
    &&& items(after).len() == items(before).len()
    &&& forall|i: int| 0 <= i < items(before).len() && i != index ==> items(after)[i] == items(before)[i]
}

/// A sampler reading key-frame times from accessor `input` and values from accessor `output`.
pub open spec fn sampler_is(s: AnimationSampler, input: int, output: int, interpolation: InterpolationType) -> bool {
    &&& s.input == input
    &&& s.output == output
    &&& s.interpolation matches Some(name) && name@ == interpolation_name(interpolation)
}

/// A channel driving the `path` property of node `node` from sampler `sampler`.
pub open spec fn channel_is(c: AnimationChannel, sampler: int, node: int, path: AnimationPath) -> bool {
    &&& c.sampler == sampler
    &&& c.target.node == node
    &&& c.target.path@ == path_name(path)
}

/// The effect of storing a key-frame track: the times and then the values are added to the
/// binary buffer, each gets a buffer view and a float accessor (`SCALAR` for the times,
/// `value_type` for the values), and the animation gains a sampler reading these accessors
/// and a channel driving `path` of node `node` from that sampler. `r` is (channel index,
/// sampler index).
pub open spec fn keyframes_added(
    before: GltfBuilder,
    after: GltfBuilder,
    animation_index: int,
    node: int,
    times: Seq<u8>,
    n_times: int,
    values: Seq<u8>,
    n_values: int,
    value_type: Seq<char>,
    interpolation: InterpolationType,
    path: AnimationPath,
    r: (usize, usize),
) -> bool {
    let buf1 = buffer_after_adding(before.buffer_data@, times);
    let time_offset = before.buffer_data@.len() + pad4(before.buffer_data@.len() as int);
    let value_offset = buf1.len() + pad4(buf1.len() as int);
    let views = items(before.gltf.buffer_views);
    let accs = items(before.gltf.accessors);
    let new_accs = items(after.gltf.accessors);
    let old_anim = items(before.gltf.animations)[animation_index];
    let new_anim = items(after.gltf.animations)[animation_index];
    let old_samplers = items(old_anim.samplers);
    let old_channels = items(old_anim.channels);
    &&& after.buffer_data@ == buffer_after_adding(buf1, values)
    &&& after.gltf.buffer_views is Some
    &&& items(after.gltf.buffer_views) == views.push(
        BufferView {
            buffer: 0,
            byte_offset: time_offset as usize,
            byte_length: times.len() as usize,
            byte_stride: None,
            target: None,
        },
    ).push(
        BufferView {
            buffer: 0,
            byte_offset: value_offset as usize,
            byte_length: values.len() as usize,
            byte_stride: None,
            target: None,
        },
    )
    &&& after.gltf.accessors is Some
    &&& new_accs.len() == accs.len() + 2
    &&& new_accs.subrange(0, accs.len() as int) == accs
    &&& plain_float_accessor(new_accs[accs.len() as int], views.len() as int, n_times, "SCALAR"@)
    &&& plain_float_accessor(new_accs[accs.len() + 1int], views.len() + 1int, n_values, value_type)
    &&& updated_at(before.gltf.animations, after.gltf.animations, animation_index)
    &&& new_anim.name == old_anim.name
    &&& appended_one(old_anim.samplers, new_anim.samplers)
    &&& sampler_is(items(new_anim.samplers)[old_samplers.len() as int], accs.len() as int, accs.len() + 1int, interpolation)
    &&& appended_one(old_anim.channels, new_anim.channels)
    &&& channel_is(items(new_anim.channels)[old_channels.len() as int], old_samplers.len() as int, node, path)
    &&& r.0 == old_channels.len()
    &&& r.1 == old_samplers.len()
    &&& buffers_after_growing(before.gltf.buffers, after.gltf.buffers, after.buffer_data@.len() as int)
    &&& after.gltf == (Gltf {
        buffer_views: after.gltf.buffer_views,
        accessors: after.gltf.accessors,
        animations: after.gltf.animations,
        buffers: after.gltf.buffers,
        ..before.gltf
    })
}

impl GltfBuilder {
    /// Appends an animation with empty channel and sampler lists and returns its index.
    pub fn add_animation(&mut self, name: Option<String>) -> (index: usize)
        ensures
            index == items(old(self).gltf.animations).len(),
            appended_one(old(self).gltf.animations, final(self).gltf.animations),
            items(final(self).gltf.animations)[index as int].name == name,
            items(final(self).gltf.animations)[index as int].channels matches Some(c) && c@.len() == 0,
            items(final(self).gltf.animations)[index as int].samplers matches Some(s) && s@.len() == 0,
            final(self).gltf == (Gltf { animations: final(self).gltf.animations, ..old(self).gltf }),
            final(self).buffer_data == old(self).buffer_data,
    {
        let animation = Animation { name, channels: Some(Vec::new()), samplers: Some(Vec::new()) };
        let index = push_item(&mut self.gltf.animations, animation);
        assert(items(self.gltf.animations).subrange(0, index as int) =~= items(old(self).gltf.animations));
        index
    }

    /// Appends a sampler reading key-frame times from accessor `input_accessor` and values from
    /// accessor `output_accessor` to animation `animation_index`, and returns its index within
    /// the animation. The animation must exist.
    pub fn add_animation_sampler(
        &mut self,
        animation_index: usize,
        input_accessor: usize,
        output_accessor: usize,
        interpolation: InterpolationType,
    ) -> (index: usize)
        requires
            old(self).gltf.animations is Some,
            animation_index < items(old(self).gltf.animations).len(),
        ensures
            ({
                let old_anim = items(old(self).gltf.animations)[animation_index as int];
                let new_anim = items(final(self).gltf.animations)[animation_index as int];
                &&& updated_at(old(self).gltf.animations, final(self).gltf.animations, animation_index as int)
                &&& new_anim.name == old_anim.name
                &&& new_anim.channels == old_anim.channels
                &&& appended_one(old_anim.samplers, new_anim.samplers)
                &&& sampler_is(items(new_anim.samplers)[index as int], input_accessor as int, output_accessor as int, interpolation)
                &&& index == items(old_anim.samplers).len()
            }),
            final(self).gltf == (Gltf { animations: final(self).gltf.animations, ..old(self).gltf }),
            final(self).buffer_data == old(self).buffer_data,
    {
        let sampler = AnimationSampler {
            input: input_accessor,
            interpolation: Some(interpolation.to_string()),
            output: output_accessor,
        };
        match &mut self.gltf.animations {
            Some(animations) => {
                let animation = &mut animations[animation_index];
                let index = push_item(&mut animation.samplers, sampler);
                assert(items(animation.samplers).subrange(0, index as int) =~= items(
                    old(self).gltf.animations.unwrap()@[animation_index as int].samplers,
                ));
                index
            },
            None => 0,
        }
    }

    /// Appends a channel driving property `target_path` of node `target_node` from sampler
    /// `sampler_index` to animation `animation_index`, and returns its index within the
    /// animation. The animation must exist.
    pub fn add_animation_channel(
        &mut self,
        animation_index: usize,
        sampler_index: usize,
        target_node: usize,
        target_path: AnimationPath,
    ) -> (index: usize)
        requires
            old(self).gltf.animations is Some,
            animation_index < items(old(self).gltf.animations).len(),
        ensures
            ({
                let old_anim = items(old(self).gltf.animations)[animation_index as int];
                let new_anim = items(final(self).gltf.animations)[animation_index as int];
                &&& updated_at(old(self).gltf.animations, final(self).gltf.animations, animation_index as int)
                &&& new_anim.name == old_anim.name
                &&& new_anim.samplers == old_anim.samplers
                &&& appended_one(old_anim.channels, new_anim.channels)
                &&& channel_is(items(new_anim.channels)[index as int], sampler_index as int, target_node as int, target_path)
                &&& index == items(old_anim.channels).len()
            }),
            final(self).gltf == (Gltf { animations: final(self).gltf.animations, ..old(self).gltf }),
            final(self).buffer_data == old(self).buffer_data,
    {
        let channel = AnimationChannel {
            sampler: sampler_index,
            target: AnimationChannelTarget { node: target_node, path: target_path.to_string() },
        };
        match &mut self.gltf.animations {
            Some(animations) => {
                let animation = &mut animations[animation_index];
                let index = push_item(&mut animation.channels, channel);
                assert(items(animation.channels).subrange(0, index as int) =~= items(
                    old(self).gltf.animations.unwrap()@[animation_index as int].channels,
                ));
                index
            },
            None => 0,
        }
    }

    /// Stores a key-frame track (see [`keyframes_added`]) and returns (channel index, sampler
    /// index).
    fn add_keyframes(
        &mut self,
        animation_index: usize,
        node_index: usize,
        time_data: &[u8],
        time_count: usize,
        value_data: &[u8],
        value_count: usize,
        value_type: &str,
        interpolation: InterpolationType,
        path: AnimationPath,
    ) -> (r: (usize, usize))
        requires
            old(self).gltf.animations is Some,
            animation_index < items(old(self).gltf.animations).len(),
        ensures
            keyframes_added(*old(self), *final(self), animation_index as int, node_index as int,
                time_data@, time_count as int, value_data@, value_count as int, value_type@,
                interpolation, path, r),
    {
        let (time_offset, time_length) = self.add_buffer_data(time_data);
        let time_buffer_view = self.add_buffer_view(time_offset, time_length, None);
        let input_accessor = self.add_accessor(
            time_buffer_view,
            5126,
            time_count,
            "SCALAR".to_string(),
            None,
            None,
            None,
        );
        let (value_offset, value_length) = self.add_buffer_data(value_data);
        let value_buffer_view = self.add_buffer_view(value_offset, value_length, None);
        let output_accessor = self.add_accessor(
            value_buffer_view,
            5126,
            value_count,
            value_type.to_string(),
            None,
            None,
            None,
        );
        let ghost mid = *self;
        let sampler_index = self.add_animation_sampler(
            animation_index,
            input_accessor,
            output_accessor,
            interpolation,
        );
        let channel_index = self.add_animation_channel(
            animation_index,
            sampler_index,
            node_index,
            path,
        );
        proof {
            let accs = items(old(self).gltf.accessors);
            assert(items(self.gltf.accessors).subrange(0, accs.len() as int) =~= accs);
            assert(buffers_after_growing(old(self).gltf.buffers, self.gltf.buffers, self.buffer_data@.len() as int));
        }
        (channel_index, sampler_index)
    }

    /// Stores translation key frames (one [x, y, z] per time stamp) for node `node_index` in
    /// animation `animation_index` and returns (channel index, sampler index). The times and
    /// values go to the binary buffer as little-endian floats; there must be as many values as
    /// time stamps and the animation must exist.
    pub fn create_translation_animation(
        &mut self,
        animation_index: usize,
        node_index: usize,
        timestamps: Vec<FloatBits>,
        translations: Vec<[FloatBits; 3]>,
        interpolation: InterpolationType,
    ) -> (r: (usize, usize))
        requires
            timestamps.len() == translations.len(),
            old(self).gltf.animations is Some,
            animation_index < items(old(self).gltf.animations).len(),
        ensures
            keyframes_added(*old(self), *final(self), animation_index as int, node_index as int,
                u32s_le(timestamps@), timestamps.len() as int, u32s_le(flatten(translations@)),
                translations.len() as int, "VEC3"@, interpolation, AnimationPath::Translation, r),
    {
        let mut time_data: Vec<u8> = Vec::new();
        append_u32s_le(&mut time_data, timestamps.as_slice());
        let mut value_data: Vec<u8> = Vec::new();
        append_arrays_le(&mut value_data, translations.as_slice());
        self.add_keyframes(
            animation_index,
            node_index,
            time_data.as_slice(),
            timestamps.len(),
            value_data.as_slice(),
            translations.len(),
            "VEC3",
            interpolation,
            AnimationPath::Translation,
        )
    }

    /// Stores rotation key frames (one [x, y, z, w] quaternion per time stamp); otherwise as
    /// [`GltfBuilder::create_translation_animation`].
    pub fn create_rotation_animation(
        &mut self,
        animation_index: usize,
        node_index: usize,
        timestamps: Vec<FloatBits>,
        rotations: Vec<[FloatBits; 4]>,
        interpolation: InterpolationType,
    ) -> (r: (usize, usize))
        requires
            timestamps.len() == rotations.len(),
            old(self).gltf.animations is Some,
            animation_index < items(old(self).gltf.animations).len(),
        ensures
            keyframes_added(*old(self), *final(self), animation_index as int, node_index as int,
                u32s_le(timestamps@), timestamps.len() as int, u32s_le(flatten(rotations@)),
                rotations.len() as int, "VEC4"@, interpolation, AnimationPath::Rotation, r),
    {
        let mut time_data: Vec<u8> = Vec::new();
        append_u32s_le(&mut time_data, timestamps.as_slice());
        let mut value_data: Vec<u8> = Vec::new();
        append_arrays_le(&mut value_data, rotations.as_slice());
        self.add_keyframes(
            animation_index,
            node_index,
            time_data.as_slice(),
            timestamps.len(),
            value_data.as_slice(),
            rotations.len(),
            "VEC4",
            interpolation,
            AnimationPath::Rotation,
        )
    }

    /// Stores scale key frames (one [x, y, z] per time stamp); otherwise as
    /// [`GltfBuilder::create_translation_animation`].
    pub fn create_scale_animation(
        &mut self,
        animation_index: usize,
        node_index: usize,
        timestamps: Vec<FloatBits>,
        scales: Vec<[FloatBits; 3]>,
        interpolation: InterpolationType,
    ) -> (r: (usize, usize))
        requires
            timestamps.len() == scales.len(),
            old(self).gltf.animations is Some,
            animation_index < items(old(self).gltf.animations).len(),
        ensures
            keyframes_added(*old(self), *final(self), animation_index as int, node_index as int,
                u32s_le(timestamps@), timestamps.len() as int, u32s_le(flatten(scales@)),
                scales.len() as int, "VEC3"@, interpolation, AnimationPath::Scale, r),
    {
        let mut time_data: Vec<u8> = Vec::new();
        append_u32s_le(&mut time_data, timestamps.as_slice());
        let mut value_data: Vec<u8> = Vec::new();
        append_arrays_le(&mut value_data, scales.as_slice());
        self.add_keyframes(
            animation_index,
            node_index,
            time_data.as_slice(),
            timestamps.len(),
            value_data.as_slice(),
            scales.len(),
            "VEC3",
            interpolation,
            AnimationPath::Scale,
        )
    }
}

} // verus!
