use render_prototype::resources::{
    build_resource_set, Handle, RegistryError, ResourceField, ResourceKind, ResourceRegistry, ResourceTag,
    ShaderBinding, ShaderResource,
};

fn tagged(name: &str, tags: Vec<ResourceTag>) -> ResourceField {
    ResourceField { name: name.to_string(), tags }
}

#[test]
fn same_slot_twice_is_refused() {
    let mut reg = ResourceRegistry::new();
    assert!(reg.register("a".to_string(), 0, 0, ResourceKind::Uniform).is_ok());
    match reg.register("b".to_string(), 0, 0, ResourceKind::Texture) {
        Err(RegistryError::DuplicateBinding { set, binding, existing_name, new_name }) => {
            assert_eq!((set, binding), (0, 0));
            assert_eq!(existing_name, "a");
            assert_eq!(new_name, "b");
        }
        other => panic!("unexpected {:?}", other),
    }
    let set = reg.finalize();
    assert_eq!(set.bindings().len(), 1);
}

#[test]
fn same_binding_in_another_set_is_accepted() {
    let mut reg = ResourceRegistry::new();
    assert!(reg.register("a".to_string(), 0, 0, ResourceKind::Uniform).is_ok());
    assert!(reg.register("b".to_string(), 1, 0, ResourceKind::Buffer).is_ok());
    let set = reg.finalize();
    let bs = set.bindings();
    assert_eq!(bs.len(), 2);
    assert_eq!(bs[0].name, "a");
    assert_eq!(bs[0].binding, ShaderBinding { set: 0, binding: 0 });
    assert_eq!(bs[0].kind, ResourceKind::Uniform);
    assert_eq!(bs[1].name, "b");
    assert_eq!(bs[1].binding, ShaderBinding { set: 1, binding: 0 });
    assert_eq!(bs[1].kind, ResourceKind::Buffer);
}

#[test]
fn specialization_names_are_unique() {
    let mut reg = ResourceRegistry::new();
    assert!(reg.register_specialization("SHADING".to_string(), true).is_ok());
    match reg.register_specialization("SHADING".to_string(), false) {
        Err(RegistryError::DuplicateSpecialization { name }) => assert_eq!(name, "SHADING"),
        other => panic!("unexpected {:?}", other),
    }
    assert!(reg.register_specialization("FOG".to_string(), false).is_ok());
    let set = reg.finalize();
    let fs = set.specializations();
    assert_eq!(fs.len(), 2);
    assert_eq!((fs[0].name.as_str(), fs[0].enabled), ("SHADING", true));
    assert_eq!((fs[1].name.as_str(), fs[1].enabled), ("FOG", false));
}

#[test]
fn schema_with_uniform_buffer_and_texture() {
    let fields = vec![
        tagged("my_uniform", vec![ResourceTag::Uniform { set: 0, binding: 0 }]),
        tagged("my_buffer", vec![ResourceTag::Buffer { set: 0, binding: 1 }]),
        tagged("my_texture", vec![ResourceTag::Texture { set: 0, binding: 2 }]),
        tagged("shading_enabled", vec![ResourceTag::Specialize { define: None, enabled: true }]),
        tagged(
            "foobar_enabled",
            vec![ResourceTag::Specialize { define: Some("ENABLE_FOOBAR".to_string()), enabled: false }],
        ),
    ];
    let set = build_resource_set(&fields).unwrap();
    let bs = set.bindings();
    assert_eq!(bs.len(), 3);
    assert_eq!(bs[0].name, "my_uniform");
    assert_eq!(bs[0].kind, ResourceKind::Uniform);
    assert_eq!(bs[1].name, "my_buffer");
    assert_eq!(bs[1].binding, ShaderBinding { set: 0, binding: 1 });
    assert_eq!(bs[1].kind, ResourceKind::Buffer);
    assert_eq!(bs[2].name, "my_texture");
    assert_eq!(bs[2].kind, ResourceKind::Texture);
    let fs = set.specializations();
    assert_eq!(fs.len(), 2);
    assert_eq!((fs[0].name.as_str(), fs[0].enabled), ("shading_enabled", true));
    assert_eq!((fs[1].name.as_str(), fs[1].enabled), ("ENABLE_FOOBAR", false));
}

#[test]
fn schema_field_without_tag_is_refused() {
    let fields = vec![
        tagged("a", vec![ResourceTag::Uniform { set: 0, binding: 0 }]),
        tagged("plain", vec![]),
    ];
    match build_resource_set(&fields) {
        Err(RegistryError::MissingResourceTag { field_name }) => assert_eq!(field_name, "plain"),
        other => panic!("unexpected {:?}", other.map(|_| ())),
    }
}

#[test]
fn schema_field_with_two_tags_is_refused() {
    let fields = vec![tagged(
        "both",
        vec![
            ResourceTag::Uniform { set: 0, binding: 0 },
            ResourceTag::Specialize { define: None, enabled: true },
        ],
    )];
    match build_resource_set(&fields) {
        Err(RegistryError::ConflictingResourceTags { field_name }) => assert_eq!(field_name, "both"),
        other => panic!("unexpected {:?}", other.map(|_| ())),
    }
}

#[test]
fn schema_with_colliding_slots_is_refused() {
    let fields = vec![
        tagged("first", vec![ResourceTag::Uniform { set: 2, binding: 3 }]),
        tagged("second", vec![ResourceTag::Buffer { set: 2, binding: 3 }]),
        tagged("never_reached", vec![]),
    ];
    match build_resource_set(&fields) {
        Err(RegistryError::DuplicateBinding { set, binding, existing_name, new_name }) => {
            assert_eq!((set, binding), (2, 3));
            assert_eq!(existing_name, "first");
            assert_eq!(new_name, "second");
        }
        other => panic!("unexpected {:?}", other.map(|_| ())),
    }
}

#[test]
fn schema_with_colliding_flag_names_is_refused() {
    let fields = vec![
        tagged("shading", vec![ResourceTag::Specialize { define: None, enabled: true }]),
        tagged(
            "other",
            vec![ResourceTag::Specialize { define: Some("shading".to_string()), enabled: false }],
        ),
    ];
    match build_resource_set(&fields) {
        Err(RegistryError::DuplicateSpecialization { name }) => assert_eq!(name, "shading"),
        other => panic!("unexpected {:?}", other.map(|_| ())),
    }
}

#[test]
fn empty_schema_has_no_resources() {
    let set = build_resource_set(&Vec::new()).unwrap();
    assert!(set.bindings().is_empty());
    assert!(set.specializations().is_empty());
}

#[test]
fn resources_are_tagged_with_their_binding_kind() {
    assert_eq!(ShaderResource::Uniform(vec![0; 16]).kind(), ResourceKind::Uniform);
    assert_eq!(ShaderResource::GpuUniform(Handle { id: 1 }).kind(), ResourceKind::Uniform);
    assert_eq!(ShaderResource::Buffer(Handle { id: 2 }).kind(), ResourceKind::Buffer);
    assert_eq!(ShaderResource::Texture(Handle { id: 3 }).kind(), ResourceKind::Texture);
}
