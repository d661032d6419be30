use fluid_euler::bind_group::{
    BindGroup, BindGroupEntry, BindGroupError, BindGroupLayoutEntry, BindingType, GroupEntry,
    ShaderStages,
};

fn stages(vertex: bool, fragment: bool) -> ShaderStages {
    ShaderStages { vertex, fragment, compute: false }
}

fn entry(resource: u32, ty: BindingType, count: Option<u32>) -> BindGroupEntry<u32> {
    BindGroupEntry { resource, layout: BindGroupLayoutEntry::new(stages(true, false), ty, count).unwrap() }
}

#[test]
fn insertion_order_gives_bindings() {
    let mut g: BindGroup<u32> = BindGroup::new("camera".to_string());
    assert_eq!(g.insert("a".to_string(), entry(10, BindingType::Uniform, None)), Ok(0));
    assert_eq!(g.insert("b".to_string(), entry(20, BindingType::Storage { read_only: true }, None)), Ok(1));
    assert_eq!(g.insert("c".to_string(), entry(30, BindingType::Texture, Some(2))), Ok(2));
    let d = g.finalize().unwrap();
    assert_eq!(d.label, "camera");
    assert_eq!(d.layout_label, "camera_layout");
    assert_eq!(d.layout_entries.len(), 3);
    assert_eq!(d.entries.len(), 3);
    let tys: Vec<BindingType> = d.layout_entries.iter().map(|e| e.ty).collect();
    assert_eq!(tys, vec![BindingType::Uniform, BindingType::Storage { read_only: true }, BindingType::Texture]);
    let bindings: Vec<u32> = d.layout_entries.iter().map(|e| e.binding).collect();
    assert_eq!(bindings, vec![0, 1, 2]);
    assert_eq!(d.layout_entries[2].count, Some(2));
    assert_eq!(
        d.entries,
        vec![
            GroupEntry { binding: 0, resource: 0 },
            GroupEntry { binding: 1, resource: 1 },
            GroupEntry { binding: 2, resource: 2 }
        ]
    );
    assert_eq!(g.entry_label(1), "b");
    assert_eq!(g.label(), "camera");
    let resources: Vec<u32> = d.entries.iter().map(|e| *g.resource(e.resource)).collect();
    assert_eq!(resources, vec![10, 20, 30]);
}

#[test]
fn finalize_empty_is_rejected() {
    let mut g: BindGroup<u32> = BindGroup::new("empty".to_string());
    assert_eq!(g.finalize().err(), Some(BindGroupError::Empty));
}

#[test]
fn finalize_twice_is_rejected() {
    let mut g: BindGroup<u32> = BindGroup::new("g".to_string());
    g.insert("a".to_string(), entry(1, BindingType::Uniform, None)).unwrap();
    assert!(g.finalize().is_ok());
    assert_eq!(g.finalize().err(), Some(BindGroupError::AlreadyFinalized));
}

#[test]
fn insert_after_finalize_is_rejected() {
    let mut g: BindGroup<u32> = BindGroup::new("g".to_string());
    g.insert("a".to_string(), entry(1, BindingType::Sampler, None)).unwrap();
    g.finalize().unwrap();
    assert_eq!(g.insert("b".to_string(), entry(2, BindingType::Uniform, None)), Err(BindGroupError::AlreadyFinalized));
    assert_eq!(g.len(), 1);
}

#[test]
fn array_count_only_on_textures() {
    assert_eq!(
        BindGroupLayoutEntry::new(stages(false, true), BindingType::Uniform, Some(2)).err(),
        Some(BindGroupError::ArrayNotAllowed)
    );
    assert_eq!(
        BindGroupLayoutEntry::new(stages(false, true), BindingType::Texture, Some(0)).err(),
        Some(BindGroupError::ZeroArrayCount)
    );
    let e = BindGroupLayoutEntry::new(stages(false, true), BindingType::Texture, Some(4)).unwrap();
    assert_eq!(e.count, Some(4));
    let placed = e.to_wgpu(7);
    assert_eq!(placed.binding, 7);
    assert_eq!(placed.ty, BindingType::Texture);
    assert_eq!(placed.visibility, stages(false, true));
}

#[test]
fn insert_rejects_array_on_non_texture() {
    let mut g: BindGroup<u32> = BindGroup::new("g".to_string());
    let bad = BindGroupLayoutEntry { visibility: stages(true, true), ty: BindingType::Uniform, count: Some(1) };
    assert_eq!(g.insert("a".to_string(), BindGroupEntry { resource: 1, layout: bad }), Err(BindGroupError::ArrayNotAllowed));
    let zero = BindGroupLayoutEntry { visibility: stages(true, true), ty: BindingType::Texture, count: Some(0) };
    assert_eq!(g.insert("b".to_string(), BindGroupEntry { resource: 2, layout: zero }), Err(BindGroupError::ZeroArrayCount));
    assert_eq!(g.len(), 0);
    assert_eq!(g.finalize().err(), Some(BindGroupError::Empty));
}
