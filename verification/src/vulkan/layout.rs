//! The descriptor set layouts of the render passes, the descriptor writes
//! that fill their sets, and the pool sizes that follow from them.

use vstd::prelude::*;
use crate::render::{cull_frame_setup, depth_setup, scene_frame_setup};
use crate::vulkan::descriptor::{spec_times, DescriptorPoolSetup, MAX_MIP_LEVELS};

verus! {

/// The kinds of descriptor the render passes use.
#[derive(Clone, Copy, PartialEq, Eq, Debug)]
pub enum DescriptorKind {
    StorageBuffer,
    UniformBuffer,
    CombinedImageSampler,
    StorageImage,
}

/// One descriptor at a binding of a set: a binding of a set layout, or a
/// write that fills it.
#[derive(Clone, Copy, PartialEq, Eq, Debug)]
pub struct Binding {
    pub binding: u32,
    pub kind: DescriptorKind,
}

/// How many of `bindings` hold a descriptor of `kind`.
pub open spec fn count_kind(bindings: Seq<Binding>, kind: DescriptorKind) -> nat
    decreases bindings.len(),
{
    if bindings.len() == 0 {
        0
    } else {
        count_kind(bindings.drop_last(), kind) + if bindings.last().kind == kind {
            1nat
        } else {
            0nat
        }
    }
}

/// The pool needs of one set with the layout `bindings`.
pub open spec fn spec_set_setup(bindings: Seq<Binding>) -> DescriptorPoolSetup {
    DescriptorPoolSetup {
        storage_buffers: count_kind(bindings, DescriptorKind::StorageBuffer) as u32,
        uniform_buffers: count_kind(bindings, DescriptorKind::UniformBuffer) as u32,
        sets: 1,
        combined_image_samplers: count_kind(bindings, DescriptorKind::CombinedImageSampler) as u32,
        storage_images: count_kind(bindings, DescriptorKind::StorageImage) as u32,
    }
}

proof fn lemma_count_bounded(bindings: Seq<Binding>, kind: DescriptorKind)
    ensures
        count_kind(bindings, kind) <= bindings.len(),
    decreases bindings.len(),
{
    if bindings.len() > 0 {
        lemma_count_bounded(bindings.drop_last(), kind);
    }
}

/// The pool needs of one set with the layout `bindings`.
pub fn set_setup(bindings: &Vec<Binding>) -> (s: DescriptorPoolSetup)
    requires
        bindings@.len() <= u32::MAX,
    ensures
        s == spec_set_setup(bindings@),
{
    let mut s = DescriptorPoolSetup {
        storage_buffers: 0,
        uniform_buffers: 0,
        sets: 1,
        combined_image_samplers: 0,
        storage_images: 0,
    };
    let mut i: usize = 0;
    while i < bindings.len()
        invariant
            i <= bindings@.len() <= u32::MAX,
            s == spec_set_setup(bindings@.take(i as int)),
        decreases bindings@.len() - i,
    {
        let ghost prefix = bindings@.take(i as int);
        let ghost next = bindings@.take(i + 1);
        assert(next.drop_last() =~= prefix);
        proof {
            lemma_count_bounded(prefix, DescriptorKind::StorageBuffer);
            lemma_count_bounded(prefix, DescriptorKind::UniformBuffer);
            lemma_count_bounded(prefix, DescriptorKind::CombinedImageSampler);
            lemma_count_bounded(prefix, DescriptorKind::StorageImage);
        }
        match bindings[i].kind {
            DescriptorKind::StorageBuffer => s.storage_buffers = s.storage_buffers + 1,
            DescriptorKind::UniformBuffer => s.uniform_buffers = s.uniform_buffers + 1,
            DescriptorKind::CombinedImageSampler => {
                s.combined_image_samplers = s.combined_image_samplers + 1
            },
            DescriptorKind::StorageImage => s.storage_images = s.storage_images + 1,
        }
        i = i + 1;
    }
    assert(bindings@.take(i as int) =~= bindings@);
    s
}

/// The layout of the culling pass's set: the scene constants, the depth
/// pyramid, then the objects, models, draw count, draw commands and draw
/// data.
pub open spec fn spec_cull_layout() -> Seq<Binding> {
    seq![
        Binding { binding: 0, kind: DescriptorKind::UniformBuffer },
        Binding { binding: 1, kind: DescriptorKind::CombinedImageSampler },
        Binding { binding: 2, kind: DescriptorKind::StorageBuffer },
        Binding { binding: 3, kind: DescriptorKind::StorageBuffer },
        Binding { binding: 4, kind: DescriptorKind::StorageBuffer },
        Binding { binding: 5, kind: DescriptorKind::StorageBuffer },
        Binding { binding: 6, kind: DescriptorKind::StorageBuffer },
    ]
}

/// The writes that fill a culling frame's set when it is created: every
/// binding but the depth pyramid's.
pub open spec fn spec_cull_buffer_writes() -> Seq<Binding> {
    seq![
        Binding { binding: 0, kind: DescriptorKind::UniformBuffer },
        Binding { binding: 2, kind: DescriptorKind::StorageBuffer },
        Binding { binding: 3, kind: DescriptorKind::StorageBuffer },
        Binding { binding: 4, kind: DescriptorKind::StorageBuffer },
        Binding { binding: 5, kind: DescriptorKind::StorageBuffer },
        Binding { binding: 6, kind: DescriptorKind::StorageBuffer },
    ]
}

/// The write that a view's setup makes to a culling frame's set: the depth
/// pyramid's sampler.
pub open spec fn spec_cull_view_writes() -> Seq<Binding> {
    seq![Binding { binding: 1, kind: DescriptorKind::CombinedImageSampler }]
}

/// The layout of the scene pass's set: the objects, then the constants.
pub open spec fn spec_scene_layout() -> Seq<Binding> {
    seq![
        Binding { binding: 0, kind: DescriptorKind::StorageBuffer },
        Binding { binding: 1, kind: DescriptorKind::UniformBuffer },
    ]
}

/// The layout of a depth-pyramid level's set: the source level's sampler
/// and the destination level's storage image.
pub open spec fn spec_depth_layout() -> Seq<Binding> {
    seq![
        Binding { binding: 0, kind: DescriptorKind::CombinedImageSampler },
        Binding { binding: 1, kind: DescriptorKind::StorageImage },
    ]
}

/// The writes that fill each depth-pyramid level's set: the source
/// level's sampler at binding 0, the destination level's storage image at
/// binding 1.
pub open spec fn spec_depth_writes() -> Seq<Binding> {
    seq![
        Binding { binding: 0, kind: DescriptorKind::CombinedImageSampler },
        Binding { binding: 1, kind: DescriptorKind::StorageImage },
    ]
}

/// The layout of the culling pass's set.
pub fn cull_set_layout() -> (l: Vec<Binding>)
    ensures
        l@ == spec_cull_layout(),
{
    let l = vec![
        Binding { binding: 0, kind: DescriptorKind::UniformBuffer },
        Binding { binding: 1, kind: DescriptorKind::CombinedImageSampler },
        Binding { binding: 2, kind: DescriptorKind::StorageBuffer },
        Binding { binding: 3, kind: DescriptorKind::StorageBuffer },
        Binding { binding: 4, kind: DescriptorKind::StorageBuffer },
        Binding { binding: 5, kind: DescriptorKind::StorageBuffer },
        Binding { binding: 6, kind: DescriptorKind::StorageBuffer },
    ];
    assert(l@ =~= spec_cull_layout());
    l
}

/// The writes that fill a culling frame's set when it is created.
pub fn cull_buffer_writes() -> (w: Vec<Binding>)
    ensures
        w@ == spec_cull_buffer_writes(),
{
    let w = vec![
        Binding { binding: 0, kind: DescriptorKind::UniformBuffer },
        Binding { binding: 2, kind: DescriptorKind::StorageBuffer },
        Binding { binding: 3, kind: DescriptorKind::StorageBuffer },
        Binding { binding: 4, kind: DescriptorKind::StorageBuffer },
        Binding { binding: 5, kind: DescriptorKind::StorageBuffer },
        Binding { binding: 6, kind: DescriptorKind::StorageBuffer },
    ];
    assert(w@ =~= spec_cull_buffer_writes());
    w
}

/// The write that setting up a view makes to a culling frame's set.
pub fn cull_view_writes() -> (w: Vec<Binding>)
    ensures
        w@ == spec_cull_view_writes(),
{
    let w = vec![Binding { binding: 1, kind: DescriptorKind::CombinedImageSampler }];
    assert(w@ =~= spec_cull_view_writes());
    w
}

/// The layout of the scene pass's set (which a scene frame's creation
/// fills binding for binding).
pub fn scene_set_layout() -> (l: Vec<Binding>)
    ensures
        l@ == spec_scene_layout(),
{
    let l = vec![
        Binding { binding: 0, kind: DescriptorKind::StorageBuffer },
        Binding { binding: 1, kind: DescriptorKind::UniformBuffer },
    ];
    assert(l@ =~= spec_scene_layout());
    l
}

/// The layout of a depth-pyramid level's set.
pub fn depth_set_layout() -> (l: Vec<Binding>)
    ensures
        l@ == spec_depth_layout(),
{
    let l = vec![
        Binding { binding: 0, kind: DescriptorKind::CombinedImageSampler },
        Binding { binding: 1, kind: DescriptorKind::StorageImage },
    ];
    assert(l@ =~= spec_depth_layout());
    l
}

/// The writes that fill each depth-pyramid level's set.
pub fn depth_level_writes() -> (w: Vec<Binding>)
    ensures
        w@ == spec_depth_writes(),
{
    let w = vec![
        Binding { binding: 0, kind: DescriptorKind::CombinedImageSampler },
        Binding { binding: 1, kind: DescriptorKind::StorageImage },
    ];
    assert(w@ =~= spec_depth_writes());
    w
}

/// A depth-pyramid level's set samples the source level at binding 0 and
/// writes the destination level as a storage image at binding 1: the
/// layout has exactly these two bindings, one per number, and the writes
/// that fill a level's set are exactly the layout's bindings.
pub proof fn lemma_depth_layout_bindings()
    ensures
        spec_depth_layout().len() == 2,
        forall|b: Binding|
            spec_depth_layout().contains(b) <==> ((b.binding == 0 && b.kind
                == DescriptorKind::CombinedImageSampler) || (b.binding == 1 && b.kind
                == DescriptorKind::StorageImage)),
        forall|b: Binding| spec_depth_writes().contains(b) <==> spec_depth_layout().contains(b),
{
    let l = spec_depth_layout();
    let w = spec_depth_writes();
    let s = Binding { binding: 0, kind: DescriptorKind::CombinedImageSampler };
    let t = Binding { binding: 1, kind: DescriptorKind::StorageImage };
    assert(l[0] == s && l[1] == t);
    assert(w[0] == s && w[1] == t);
    assert forall|b: Binding|
        l.contains(b) <==> ((b.binding == 0 && b.kind == DescriptorKind::CombinedImageSampler) || (
        b.binding == 1 && b.kind == DescriptorKind::StorageImage)) by {
        if l.contains(b) {
            let i = choose|i: int| 0 <= i < l.len() && l[i] == b;
        }
        if b == s {
            assert(l[0] == b);
        }
        if b == t {
            assert(l[1] == b);
        }
    }
    assert forall|b: Binding| w.contains(b) <==> l.contains(b) by {
        if w.contains(b) {
            let i = choose|i: int| 0 <= i < w.len() && w[i] == b;
            assert(l[i] == b);
        }
        if l.contains(b) {
            let i = choose|i: int| 0 <= i < l.len() && l[i] == b;
            assert(w[i] == b);
        }
    }
}

/// The culling set holds the scene constants as a uniform buffer at
/// binding 0, the depth pyramid's sampler at binding 1 and storage buffers
/// at bindings 2 to 6; the scene set holds the objects as a storage buffer
/// at binding 0 and the constants as a uniform buffer at binding 1. Each
/// binding number occurs once.
pub proof fn lemma_cull_and_scene_layout_bindings()
    ensures
        forall|i: int, j: int|
            0 <= i < j < spec_cull_layout().len() ==> spec_cull_layout()[i].binding
                != spec_cull_layout()[j].binding,
        forall|b: Binding|
            spec_cull_layout().contains(b) <==> ((b.binding == 0 && b.kind
                == DescriptorKind::UniformBuffer) || (b.binding == 1 && b.kind
                == DescriptorKind::CombinedImageSampler) || (2 <= b.binding <= 6 && b.kind
                == DescriptorKind::StorageBuffer)),
        forall|b: Binding|
            spec_scene_layout().contains(b) <==> ((b.binding == 0 && b.kind
                == DescriptorKind::StorageBuffer) || (b.binding == 1 && b.kind
                == DescriptorKind::UniformBuffer)),
{
    let c = spec_cull_layout();
    let sc = spec_scene_layout();
    assert forall|b: Binding|
        c.contains(b) <==> ((b.binding == 0 && b.kind == DescriptorKind::UniformBuffer) || (b.binding
            == 1 && b.kind == DescriptorKind::CombinedImageSampler) || (2 <= b.binding <= 6 && b.kind
            == DescriptorKind::StorageBuffer)) by {
        if c.contains(b) {
            let i = choose|i: int| 0 <= i < c.len() && c[i] == b;
        }
        if 0 <= b.binding <= 6 && ((b.binding == 0 && b.kind == DescriptorKind::UniformBuffer) || (
        b.binding == 1 && b.kind == DescriptorKind::CombinedImageSampler) || (2 <= b.binding <= 6
            && b.kind == DescriptorKind::StorageBuffer)) {
            assert(c[b.binding as int] == b);
        }
    }
    assert forall|b: Binding|
        sc.contains(b) <==> ((b.binding == 0 && b.kind == DescriptorKind::StorageBuffer) || (
        b.binding == 1 && b.kind == DescriptorKind::UniformBuffer)) by {
        if sc.contains(b) {
            let i = choose|i: int| 0 <= i < sc.len() && sc[i] == b;
        }
        if (b.binding == 0 && b.kind == DescriptorKind::StorageBuffer) || (b.binding == 1 && b.kind
            == DescriptorKind::UniformBuffer) {
            assert(sc[b.binding as int] == b);
        }
    }
}

/// The descriptor pools are sized for the layouts: a culling frame's pool
/// share is one set of the culling layout, a scene frame's one set of the
/// scene layout, and the depth pyramid's one set of the depth layout per
/// level. A culling frame's creation and its view setup together fill every
/// binding of its layout, and nothing else.
pub proof fn lemma_pools_match_layouts()
    ensures
        spec_set_setup(spec_cull_layout()) == cull_frame_setup(),
        spec_set_setup(spec_scene_layout()) == scene_frame_setup(),
        spec_times(spec_set_setup(spec_depth_layout()), MAX_MIP_LEVELS as u32) == depth_setup(),
        spec_cull_buffer_writes() + spec_cull_view_writes() =~= seq![
            spec_cull_layout()[0],
            spec_cull_layout()[2],
            spec_cull_layout()[3],
            spec_cull_layout()[4],
            spec_cull_layout()[5],
            spec_cull_layout()[6],
            spec_cull_layout()[1],
        ],
        forall|b: Binding|
            (spec_cull_buffer_writes() + spec_cull_view_writes()).contains(b)
                <==> spec_cull_layout().contains(b),
{
    reveal_with_fuel(count_kind, 8);
    let cull = spec_cull_layout();
    let writes = spec_cull_buffer_writes() + spec_cull_view_writes();
    assert(writes =~= seq![cull[0], cull[2], cull[3], cull[4], cull[5], cull[6], cull[1]]);
    assert forall|b: Binding| writes.contains(b) <==> cull.contains(b) by {
        if writes.contains(b) {
            let i = choose|i: int| 0 <= i < writes.len() && writes[i] == b;
            let j = if i == 6 { 1int } else if i == 0 { 0int } else { i + 1 };
            assert(cull[j] == b);
        }
        if cull.contains(b) {
            let j = choose|j: int| 0 <= j < cull.len() && cull[j] == b;
            let i = if j == 1 { 6int } else if j == 0 { 0int } else { j - 1 };
            assert(writes[i] == b);
        }
    }
}

} // verus!
