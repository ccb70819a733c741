use starlark_types::metadata::{
    ActionHistoryInfo, BuckInfo, HostResourceRequirements, RemoteExecutionMetadata, TDependency,
    TPlatform, TProperty,
};

#[test]
fn metadata_defaults_are_empty() {
    assert_eq!(
        ActionHistoryInfo::default(),
        ActionHistoryInfo { action_key: String::new(), disable_retry_on_oom: false, _dot_dot: () }
    );
    assert_eq!(
        HostResourceRequirements::default(),
        HostResourceRequirements { affinity_keys: vec![], input_files_bytes: 0, _dot_dot: () }
    );
    assert_eq!(BuckInfo::default(), BuckInfo { build_id: String::new(), _dot_dot: () });
    assert_eq!(
        TDependency::default(),
        TDependency { smc_tier: String::new(), id: String::new(), _dot_dot: () }
    );
    assert_eq!(TProperty::default(), TProperty { name: String::new(), value: String::new() });
    assert_eq!(TPlatform::default(), TPlatform { properties: vec![] });
    assert_eq!(
        RemoteExecutionMetadata::default(),
        RemoteExecutionMetadata {
            action_history_info: None,
            buck_info: None,
            host_resource_requirements: None,
            platform: None,
            use_case_id: String::new(),
            do_not_cache: false,
            dependencies: vec![],
            _dot_dot: (),
        }
    );
}

#[test]
fn metadata_clones_carry_the_same_data() {
    let metadata = RemoteExecutionMetadata {
        action_history_info: Some(ActionHistoryInfo {
            action_key: "key".to_string(),
            disable_retry_on_oom: true,
            _dot_dot: (),
        }),
        buck_info: Some(BuckInfo { build_id: "build".to_string(), _dot_dot: () }),
        host_resource_requirements: Some(HostResourceRequirements {
            affinity_keys: vec!["a".to_string(), "b".to_string()],
            input_files_bytes: 1 << 40,
            _dot_dot: (),
        }),
        platform: Some(TPlatform {
            properties: vec![TProperty { name: "os".to_string(), value: "linux".to_string() }],
        }),
        use_case_id: "use".to_string(),
        do_not_cache: true,
        dependencies: vec![TDependency {
            smc_tier: "tier".to_string(),
            id: "id".to_string(),
            _dot_dot: (),
        }],
        ..Default::default()
    };
    let copy = metadata.clone();
    assert_eq!(copy, metadata);
    assert_eq!(copy.host_resource_requirements.unwrap().input_files_bytes, 1099511627776);
    assert_eq!(copy.dependencies[0].clone(), metadata.dependencies[0]);
    assert_eq!(RemoteExecutionMetadata::default().clone(), RemoteExecutionMetadata::default());
}
