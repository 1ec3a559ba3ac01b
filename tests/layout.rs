use compute_vk::loader::{
    DescriptorDesc, DescriptorType, MainInput, MainLayout, MainOutput, PushConstantRange,
    ShaderStages,
};

fn compute() -> ShaderStages {
    ShaderStages {
        vertex: false,
        tessellation_control: false,
        tessellation_evaluation: false,
        geometry: false,
        fragment: false,
        compute: true,
    }
}

#[test]
fn new_layout_is_empty_and_compute_only() {
    let l = MainLayout::new();
    assert_eq!(l.num_sets(), 0);
    assert_eq!(l.num_push_constants_ranges(), 0);
    assert_eq!(l.num_bindings_in_set(0), None);
    assert_eq!(l.descriptor(0, 0), None);
    assert_eq!(l.stages, compute());
}

#[test]
fn bindings_count_per_set_and_gaps_are_filled() {
    let mut l = MainLayout::new();
    l.add_buffer(2, true);
    l.add_image(0);
    l.add_buffer(0, false);
    l.add_buffer(2, false);
    l.add_sampled_image_array(4, 2, false);
    assert_eq!(l.num_sets(), 5);
    assert_eq!(l.num_bindings_in_set(0), Some(2));
    assert_eq!(l.num_bindings_in_set(1), Some(0));
    assert_eq!(l.num_bindings_in_set(2), Some(2));
    assert_eq!(l.num_bindings_in_set(3), Some(0));
    assert_eq!(l.num_bindings_in_set(4), Some(1));
    assert_eq!(l.num_bindings_in_set(5), None);
}

#[test]
fn layout_of_the_ray_tracer() {
    let mut l = MainLayout::new();
    l.add_image(0);
    for _ in 0..9 {
        l.add_buffer(0, false);
    }
    l.add_sampled_image_array(0, 2, true);
    l.add_push_constant_range(0, 32);
    assert_eq!(l.num_sets(), 1);
    assert_eq!(l.num_bindings_in_set(0), Some(11));
    assert_eq!(l.num_push_constants_ranges(), 1);
}

#[test]
fn descriptors_keep_their_kind_and_order() {
    let mut l = MainLayout::new();
    l.add_image(0);
    l.add_buffer(0, true);
    l.add_sampled_image_array(0, 3, false);
    l.add_sampled_image_array(1, 2, true);
    assert_eq!(
        l.descriptor(0, 0),
        Some(DescriptorDesc {
            ty: DescriptorType::StorageImage,
            array_count: 1,
            stages: compute(),
            readonly: false,
        })
    );
    assert_eq!(
        l.descriptor(0, 1),
        Some(DescriptorDesc {
            ty: DescriptorType::StorageBuffer,
            array_count: 1,
            stages: compute(),
            readonly: true,
        })
    );
    assert_eq!(
        l.descriptor(0, 2),
        Some(DescriptorDesc {
            ty: DescriptorType::SampledImageArray,
            array_count: 3,
            stages: compute(),
            readonly: true,
        })
    );
    assert_eq!(l.descriptor(1, 0).unwrap().stages, ShaderStages::all());
    assert_eq!(l.descriptor(0, 3), None);
    assert_eq!(l.descriptor(2, 0), None);
}

#[test]
fn push_constant_payload_must_match_declared_range() {
    let mut l = MainLayout::new();
    l.add_push_constant_range(0, 32);
    assert_eq!(
        l.push_constants_range(0),
        Some(PushConstantRange { offset: 0, size: 32, stages: compute() })
    );
    assert_eq!(l.push_constants_range(1), None);
    assert!(l.accepts_push_constants(0, 32));
    assert!(!l.accepts_push_constants(0, 16));
    assert!(!l.accepts_push_constants(0, 33));
    assert!(!l.accepts_push_constants(4, 32));
}

#[test]
fn push_constant_ranges_leave_sets_alone() {
    let mut l = MainLayout::new();
    l.add_image(1);
    l.add_push_constant_range(16, 16);
    l.add_push_constant_range(0, 16);
    assert_eq!(l.num_sets(), 2);
    assert_eq!(l.num_push_constants_ranges(), 2);
    assert!(l.accepts_push_constants(16, 16));
    assert!(l.accepts_push_constants(0, 16));
    assert!(!l.accepts_push_constants(0, 32));
}

#[test]
fn shader_interfaces_are_empty() {
    let mut input = MainInput.elements();
    assert!(input.next().is_none());
    assert_eq!(input.size_hint(), (0, Some(0)));
    let mut output = MainOutput.elements();
    assert!(output.next().is_none());
    assert_eq!(output.size_hint(), (0, Some(0)));
}
