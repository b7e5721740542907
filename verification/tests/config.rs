use spine_session::config::{
    enabled_sdk_features, restore_sampling_config, restore_sampling_snapshot, CodexFeature,
    ConfigSources, ManagedFeatures, SdkFeature, SpineConfiguration,
};
use std::cell::RefCell;
use spine_session::items::{ResponseItem, RolloutItem, SpineSamplingStarted};

type Configuration = SpineConfiguration<String, Vec<String>>;

/// What the fake SDK was asked, in order.
type Log = RefCell<Vec<String>>;

/// A fake SDK: an SDK is a string, features are appended to it, and its tool
/// catalog lists it. Steps whose input contains "bad" fail.
fn resolve_with(
    configuration: &Configuration,
    saved: Option<&str>,
    features: &ManagedFeatures,
    log: &Log,
) -> Result<Configuration, String> {
    configuration.resolve(
        saved,
        features,
        |text: &str| {
            log.borrow_mut().push(format!("parse {text}"));
            if text.contains("bad") { Err(format!("cannot parse {text}")) } else { Ok(text.to_string()) }
        },
        |sources: ConfigSources| {
            log.borrow_mut().push(format!("load {}", sources.working_directory));
            Ok(format!("loaded:{}", sources.working_directory))
        },
        |sdk: &String| {
            log.borrow_mut().push(format!("current {sdk}"));
            sdk.clone()
        },
        |sdk: String, enabled: Vec<SdkFeature>| {
            log.borrow_mut().push(format!("features {sdk} {enabled:?}"));
            if sdk.contains("nofeatures") {
                Err("features refused".to_string())
            } else {
                Ok(format!("{sdk}+{enabled:?}"))
            }
        },
        |sdk: &String| {
            log.borrow_mut().push(format!("catalog {sdk}"));
            if sdk.contains("notools") { Err("no catalog".to_string()) } else { Ok(vec![sdk.clone()]) }
        },
    )
}

fn sources_of(configuration: &Configuration) -> String {
    let log = Log::default();
    let _ = resolve_with(configuration, None, &ManagedFeatures::none(), &log);
    log.into_inner().remove(0)
}

fn sampling(config: Option<&str>) -> RolloutItem {
    RolloutItem::SpineSamplingStarted(SpineSamplingStarted {
        sdk_config: config.map(|c| c.to_string()),
    })
}

#[test]
fn pending_configuration_reads_project_layers_only_when_trusted() {
    let log = Log::default();
    let trusted = Configuration::pending(
        Some("/etc/spine.toml".to_string()),
        "/work".to_string(),
        Some("/home/u".to_string()),
        true,
    );
    let mut seen: Vec<ConfigSources> = Vec::new();
    let resolved: Result<Configuration, String> = trusted.resolve(
        None,
        &ManagedFeatures::none(),
        |_: &str| Err("unused".to_string()),
        |sources: ConfigSources| {
            seen.push(sources.clone());
            Ok("loaded".to_string())
        },
        |sdk: &String| sdk.clone(),
        |sdk: String, _: Vec<SdkFeature>| Ok(sdk),
        |sdk: &String| Ok(vec![sdk.clone()]),
    );
    assert!(resolved.is_ok());
    assert_eq!(
        seen,
        vec![ConfigSources {
            working_directory: "/work".to_string(),
            working_directory_layers: true,
            home_directory: Some("/home/u".to_string()),
            custom_path: Some("/etc/spine.toml".to_string()),
        }]
    );
    let untrusted = Configuration::pending(None, "/work".to_string(), None, false);
    let _ = resolve_with(&untrusted, None, &ManagedFeatures::none(), &log);
    assert_eq!(log.borrow()[0], "load /work");
    assert_eq!(sources_of(&untrusted), "load /work");
}

#[test]
fn from_sdk_keeps_the_sdk_and_its_tools_together() {
    let mut built_from: Vec<String> = Vec::new();
    let configuration: Result<Configuration, String> =
        Configuration::from_sdk("sdk".to_string(), |sdk: &String| {
            built_from.push(sdk.clone());
            Ok(vec![format!("{sdk}/spawn")])
        });
    let configuration = configuration.expect("resolved");
    assert_eq!(built_from, vec!["sdk".to_string()]);
    assert_eq!(configuration.sdk(), "sdk");
    assert_eq!(configuration.tools(), &vec!["sdk/spawn".to_string()]);
}

#[test]
fn from_sdk_fails_with_the_catalog_error() {
    let configuration: Result<Configuration, String> =
        Configuration::from_sdk("sdk".to_string(), |_: &String| Err("unknown tool".to_string()));
    assert_eq!(configuration.err(), Some("unknown tool".to_string()));
}

#[test]
fn a_saved_snapshot_wins_over_every_other_source() {
    let pending = Configuration::pending(None, "/work".to_string(), None, true);
    let log = Log::default();
    let resolved = resolve_with(&pending, Some("jit = true"), &ManagedFeatures::none(), &log)
        .expect("resolved");
    assert_eq!(resolved.sdk(), "jit = true+[]");
    assert_eq!(log.borrow()[0], "parse jit = true");

    let current: Configuration =
        Configuration::from_sdk("current".to_string(), |_: &String| Ok::<_, String>(vec![]))
            .unwrap();
    let log = Log::default();
    let resolved = resolve_with(&current, Some("spawn = true"), &ManagedFeatures::none(), &log)
        .expect("resolved");
    assert_eq!(resolved.sdk(), "spawn = true+[]");
}

#[test]
fn a_resolved_configuration_keeps_its_sdk_without_a_snapshot() {
    let current: Configuration =
        Configuration::from_sdk("current".to_string(), |_: &String| Ok::<_, String>(vec![]))
            .unwrap();
    let mut features = ManagedFeatures::none();
    features.enable(CodexFeature::SpineJit);
    let log = Log::default();
    let resolved = resolve_with(&current, None, &features, &log).expect("resolved");
    assert_eq!(resolved.sdk(), "current+[Jit]");
    assert_eq!(resolved.tools(), &vec!["current+[Jit]".to_string()]);
    assert_eq!(
        log.into_inner(),
        vec![
            "current current".to_string(),
            "features current [Jit]".to_string(),
            "catalog current+[Jit]".to_string(),
        ]
    );
}

#[test]
fn resolution_stops_at_the_first_error() {
    let pending = Configuration::pending(None, "/work".to_string(), None, true);
    let log = Log::default();
    assert_eq!(
        resolve_with(&pending, Some("bad"), &ManagedFeatures::none(), &log).err(),
        Some("cannot parse bad".to_string())
    );
    assert_eq!(log.into_inner(), vec!["parse bad".to_string()]);
    let log = Log::default();
    assert_eq!(
        resolve_with(&pending, Some("nofeatures"), &ManagedFeatures::none(), &log).err(),
        Some("features refused".to_string())
    );
    assert_eq!(log.into_inner().len(), 2);
    let log = Log::default();
    assert_eq!(
        resolve_with(&pending, Some("notools"), &ManagedFeatures::none(), &log).err(),
        Some("no catalog".to_string())
    );
}

fn restore_with(
    configuration: &mut Configuration,
    effective: &[RolloutItem],
) -> Result<(), String> {
    restore_sampling_config(
        configuration,
        effective,
        &ManagedFeatures::none(),
        |text: &str| if text.contains("bad") { Err("cannot parse".to_string()) } else { Ok(text.to_string()) },
        |sources: ConfigSources| Ok(format!("loaded:{}", sources.working_directory)),
        |sdk: &String| sdk.clone(),
        |sdk: String, _: Vec<SdkFeature>| Ok(sdk),
        |sdk: &String| Ok(vec![sdk.clone()]),
    )
}

#[test]
fn restoring_reuses_the_latest_snapshot() {
    let mut configuration = Configuration::pending(None, "/work".to_string(), None, true);
    let effective = vec![sampling(Some("first")), sampling(Some("second")), sampling(None)];
    assert_eq!(restore_with(&mut configuration, &effective), Ok(()));
    assert_eq!(configuration.sdk(), "second");
}

#[test]
fn restoring_without_snapshot_loads_the_sources() {
    let mut configuration = Configuration::pending(None, "/work".to_string(), None, true);
    assert_eq!(restore_with(&mut configuration, &[sampling(None)]), Ok(()));
    assert_eq!(configuration.sdk(), "loaded:/work");
}

#[test]
fn a_failed_restore_keeps_the_configuration() {
    let mut configuration: Configuration =
        Configuration::from_sdk("kept".to_string(), |_: &String| Ok::<_, String>(vec![])).unwrap();
    assert_eq!(
        restore_with(&mut configuration, &[sampling(Some("bad"))]),
        Err("cannot parse".to_string())
    );
    assert_eq!(configuration.sdk(), "kept");
}

#[test]
fn host_features_map_to_sdk_features_in_order() {
    let mut features = ManagedFeatures::none();
    assert_eq!(enabled_sdk_features(&features), vec![]);
    features.enable(CodexFeature::SpineSpawn);
    assert_eq!(enabled_sdk_features(&features), vec![SdkFeature::Spawn]);
    features.enable(CodexFeature::SpineJit);
    assert!(features.enabled(CodexFeature::SpineJit));
    assert_eq!(enabled_sdk_features(&features), vec![SdkFeature::Jit, SdkFeature::Spawn]);
}

#[test]
fn restore_takes_the_latest_snapshot() {
    let effective = vec![
        sampling(Some("first")),
        RolloutItem::ResponseItem(ResponseItem {
            role: "user".to_string(),
            content: "hi".to_string(),
        }),
        sampling(Some("second")),
        sampling(None),
        RolloutItem::Event("token_count".to_string()),
    ];
    assert_eq!(restore_sampling_snapshot(&effective), Some("second".to_string()));
}

#[test]
fn restore_without_snapshot_finds_none() {
    let effective = vec![sampling(None), RolloutItem::Event("turn".to_string())];
    assert_eq!(restore_sampling_snapshot(&effective), None);
    assert_eq!(restore_sampling_snapshot(&[]), None);
}
