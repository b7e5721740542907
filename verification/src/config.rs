//! Spine SDK configuration of a session.
//!
//! A session starts with the sources its SDK configuration will be loaded
//! from, and resolves them once resume history is available: a configuration
//! saved with the latest sampling boundary wins over the sources. A
//! configuration resolved by [`SpineConfiguration::from_sdk`] or
//! [`SpineConfiguration::resolve`] holds its SDK and the tool catalog built
//! from that very SDK.
//!
//! The SDK's own work (parsing, loading, applying features, building the
//! catalog) is handed in as closures; each resolution asks each step at most
//! once, in order, and stops at the first error.
//!
//! The SDK (`S`) and tool catalog (`T`) are produced by the Spine SDK; this
//! module never looks inside them.
use crate::items::{clone_opt_string, RolloutItem};
use vstd::prelude::*;

verus! {

/// A host feature flag that Spine cares about.
#[derive(Clone, Copy, Debug, PartialEq, Eq)]
pub enum CodexFeature {
    SpineJit,
    SpineSpawn,
}

/// A feature of the Spine SDK.
#[derive(Clone, Copy, Debug, PartialEq, Eq)]
pub enum SdkFeature {
    Jit,
    Spawn,
}

/// The host features that are switched on.
#[derive(Clone, Copy, Debug, PartialEq, Eq)]
pub struct ManagedFeatures {
    pub spine_jit: bool,
    pub spine_spawn: bool,
}

impl ManagedFeatures {
    /// Every feature switched off.
    pub fn none() -> (features: Self)
        ensures
            !features.spine_jit,
            !features.spine_spawn,
    {
        ManagedFeatures { spine_jit: false, spine_spawn: false }
    }

    pub open spec fn is_enabled(self, feature: CodexFeature) -> bool {
        match feature {
            CodexFeature::SpineJit => self.spine_jit,
            CodexFeature::SpineSpawn => self.spine_spawn,
        }
    }

    pub fn enabled(&self, feature: CodexFeature) -> (on: bool)
        ensures
            on == self.is_enabled(feature),
    {
        match feature {
            CodexFeature::SpineJit => self.spine_jit,
            CodexFeature::SpineSpawn => self.spine_spawn,
        }
    }

    /// Switches `feature` on, leaving the others as they were.
    pub fn enable(&mut self, feature: CodexFeature)
        ensures
            final(self).is_enabled(feature),
            forall|other: CodexFeature|
                other != feature ==> final(self).is_enabled(other) == old(self).is_enabled(other),
    {
        match feature {
            CodexFeature::SpineJit => self.spine_jit = true,
            CodexFeature::SpineSpawn => self.spine_spawn = true,
        }
    }
}

/// The SDK feature that a host feature switches on.
pub open spec fn sdk_feature_of(feature: CodexFeature) -> SdkFeature {
    match feature {
        CodexFeature::SpineJit => SdkFeature::Jit,
        CodexFeature::SpineSpawn => SdkFeature::Spawn,
    }
}

/// The SDK features switched on by the host features, in the order JIT, Spawn.
pub open spec fn enabled_sdk_features_of(features: ManagedFeatures) -> Seq<SdkFeature> {
    (if features.is_enabled(CodexFeature::SpineJit) {
        seq![sdk_feature_of(CodexFeature::SpineJit)]
    } else {
        Seq::empty()
    }) + (if features.is_enabled(CodexFeature::SpineSpawn) {
        seq![sdk_feature_of(CodexFeature::SpineSpawn)]
    } else {
        Seq::empty()
    })
}

/// The SDK features to apply when resolving a configuration.
pub fn enabled_sdk_features(features: &ManagedFeatures) -> (enabled: Vec<SdkFeature>)
    ensures
        enabled@ == enabled_sdk_features_of(*features),
{
    let mut enabled: Vec<SdkFeature> = Vec::new();
    if features.enabled(CodexFeature::SpineJit) {
        enabled.push(SdkFeature::Jit);
    }
    if features.enabled(CodexFeature::SpineSpawn) {
        enabled.push(SdkFeature::Spawn);
    }
    assert(enabled@ =~= enabled_sdk_features_of(*features));
    enabled
}

/// Where the SDK loader reads configuration layers from.
#[derive(Debug, PartialEq, Eq)]
pub struct ConfigSources {
    /// The working directory whose project layers may be read.
    pub working_directory: String,
    /// Whether the working directory's project layers are read.
    pub working_directory_layers: bool,
    /// The home directory whose user layer is read, if any.
    pub home_directory: Option<String>,
    /// An explicitly configured file, if any.
    pub custom_path: Option<String>,
}

impl Clone for ConfigSources {
    fn clone(&self) -> (copy: Self)
        ensures
            copy == *self,
    {
        ConfigSources {
            working_directory: self.working_directory.clone(),
            working_directory_layers: self.working_directory_layers,
            home_directory: clone_opt_string(&self.home_directory),
            custom_path: clone_opt_string(&self.custom_path),
        }
    }
}

/// The loader sources of a session: project layers are read only from a
/// trusted working directory.
fn loader(
    path: Option<String>,
    working_directory: String,
    home_directory: Option<String>,
    project_config_trusted: bool,
) -> (sources: ConfigSources)
    ensures
        sources.working_directory == working_directory,
        sources.working_directory_layers == project_config_trusted,
        sources.home_directory == home_directory,
        sources.custom_path == path,
{
    ConfigSources {
        working_directory,
        working_directory_layers: project_config_trusted,
        home_directory,
        custom_path: path,
    }
}

#[derive(Clone, Debug, PartialEq)]
enum ConfigurationState<S, T> {
    Sources(ConfigSources),
    Resolved(Box<ResolvedConfiguration<S, T>>),
}

#[derive(Clone, Debug, PartialEq)]
struct ResolvedConfiguration<S, T> {
    sdk: S,
    tools: T,
}

/// SDK configuration is selected at session initialization, after resume
/// history is available.
#[derive(Clone, Debug, PartialEq)]
pub struct SpineConfiguration<S, T> {
    state: ConfigurationState<S, T>,
}

impl<S, T> SpineConfiguration<S, T> {
    /// Whether the configuration has been resolved.
    pub closed spec fn is_resolved(&self) -> bool {
        self.state is Resolved
    }

    /// The sources of a configuration that is not resolved yet.
    pub closed spec fn pending_sources(&self) -> ConfigSources
        recommends
            !self.is_resolved(),
    {
        self.state->Sources_0
    }

    /// The SDK of a resolved configuration.
    pub closed spec fn resolved_sdk(&self) -> S
        recommends
            self.is_resolved(),
    {
        self.state->Resolved_0.sdk
    }

    /// The tool catalog of a resolved configuration.
    pub closed spec fn resolved_tools(&self) -> T
        recommends
            self.is_resolved(),
    {
        self.state->Resolved_0.tools
    }

    /// A configuration still to be loaded from its sources.
    pub fn pending(
        path: Option<String>,
        working_directory: String,
        home_directory: Option<String>,
        project_config_trusted: bool,
    ) -> (configuration: Self)
        ensures
            !configuration.is_resolved(),
            configuration.pending_sources().working_directory == working_directory,
            configuration.pending_sources().working_directory_layers == project_config_trusted,
            configuration.pending_sources().home_directory == home_directory,
            configuration.pending_sources().custom_path == path,
    {
        SpineConfiguration {
            state: ConfigurationState::Sources(
                loader(path, working_directory, home_directory, project_config_trusted),
            ),
        }
    }

    /// Creates an already resolved configuration from an SDK: the tool
    /// catalog is built, once, from this SDK by `catalog`; fails with the
    /// catalog's error.
    pub fn from_sdk<E, F>(sdk: S, catalog: F) -> (configuration: Result<Self, E>) where
        F: FnOnce(&S) -> Result<T, E>,

        requires
            call_requires(catalog, (&sdk,)),
        ensures
            exists|built: Result<T, E>|
                #[trigger] call_ensures(catalog, (&sdk,), built) && match built {
                    Ok(tools) => configuration matches Ok(c) && c.is_resolved() && c.resolved_sdk()
                        == sdk && c.resolved_tools() == tools,
                    Err(error) => configuration == Err::<Self, E>(error),
                },
            configuration matches Ok(c) ==> call_ensures(
                catalog,
                (&c.resolved_sdk(),),
                Ok::<T, E>(c.resolved_tools()),
            ),
    {
        match catalog(&sdk) {
            Ok(tools) => Ok(
                SpineConfiguration {
                    state: ConfigurationState::Resolved(
                        Box::new(ResolvedConfiguration { sdk, tools }),
                    ),
                },
            ),
            Err(error) => Err(error),
        }
    }

    /// Whether the configuration has been resolved.
    pub fn resolved(&self) -> (resolved: bool)
        ensures
            resolved == self.is_resolved(),
    {
        match &self.state {
            ConfigurationState::Resolved(_) => true,
            ConfigurationState::Sources(_) => false,
        }
    }

    /// The SDK; the configuration must have been resolved.
    pub fn sdk(&self) -> (sdk: &S)
        requires
            self.is_resolved(),
        ensures
            *sdk == self.resolved_sdk(),
    {
        match &self.state {
            ConfigurationState::Resolved(resolved) => &resolved.sdk,
            ConfigurationState::Sources(_) => vstd::pervasive::unreached(),
        }
    }

    /// The tools of the same resolution as the SDK; the configuration must
    /// have been resolved.
    pub fn tools(&self) -> (tools: &T)
        requires
            self.is_resolved(),
        ensures
            *tools == self.resolved_tools(),
    {
        match &self.state {
            ConfigurationState::Resolved(resolved) => &resolved.tools,
            ConfigurationState::Sources(_) => vstd::pervasive::unreached(),
        }
    }

    /// How the base SDK of a resolution was obtained: parsed from the saved
    /// configuration if there is one, else loaded from the sources of a
    /// pending configuration, else a copy of the SDK already resolved.
    pub open spec fn base_sdk_answered<E, FP, FL, FK>(
        self,
        saved: Option<&str>,
        parse: FP,
        load: FL,
        current: FK,
        base: Result<S, E>,
    ) -> bool where
        FP: FnOnce(&str) -> Result<S, E>,
        FL: FnOnce(ConfigSources) -> Result<S, E>,
        FK: FnOnce(&S) -> S,
     {
        match saved {
            Some(text) => call_ensures(parse, (text,), base),
            None => if self.is_resolved() {
                base matches Ok(b) && call_ensures(current, (&self.resolved_sdk(),), b)
            } else {
                call_ensures(load, (self.pending_sources(),), base)
            },
        }
    }

    /// What a resolution of this configuration amounts to, given the answers
    /// of the SDK: the base SDK, then the SDK with the Spine features that
    /// `features` switch on, then the tool catalog built from that SDK; the
    /// first error wins.
    pub open spec fn resolution_answered<E, FP, FL, FK, FW, FC>(
        self,
        saved: Option<&str>,
        features: ManagedFeatures,
        parse: FP,
        load: FL,
        current: FK,
        with_features: FW,
        catalog: FC,
        resolved: Result<Self, E>,
    ) -> bool where
        FP: FnOnce(&str) -> Result<S, E>,
        FL: FnOnce(ConfigSources) -> Result<S, E>,
        FK: FnOnce(&S) -> S,
        FW: FnOnce(S, Vec<SdkFeature>) -> Result<S, E>,
        FC: FnOnce(&S) -> Result<T, E>,
     {
        exists|base: Result<S, E>|
            #[trigger] self.base_sdk_answered(saved, parse, load, current, base) && match base {
                Err(error) => resolved == Err::<Self, E>(error),
                Ok(b) => exists|enabled: Vec<SdkFeature>, configured: Result<S, E>|
                    #[trigger] call_ensures(with_features, (b, enabled), configured) && enabled@
                        == enabled_sdk_features_of(features) && match configured {
                        Err(error) => resolved == Err::<Self, E>(error),
                        Ok(sdk) => exists|built: Result<T, E>|
                            #[trigger] call_ensures(catalog, (&sdk,), built) && match built {
                                Err(error) => resolved == Err::<Self, E>(error),
                                Ok(tools) => resolved matches Ok(c) && c.is_resolved()
                                    && c.resolved_sdk() == sdk && c.resolved_tools() == tools,
                            },
                    },
            }
    }

    /// Resolves the configuration: the base SDK is parsed from the `saved`
    /// configuration if there is one, else loaded from the pending sources,
    /// else copied from the SDK already resolved; the Spine features that
    /// `features` switch on are applied to it; the tool catalog is built from
    /// the resulting SDK. Each step is asked once, and the first error wins.
    pub fn resolve<E, FP, FL, FK, FW, FC>(
        &self,
        saved: Option<&str>,
        features: &ManagedFeatures,
        parse: FP,
        load: FL,
        current: FK,
        with_features: FW,
        catalog: FC,
    ) -> (resolved: Result<Self, E>) where
        FP: FnOnce(&str) -> Result<S, E>,
        FL: FnOnce(ConfigSources) -> Result<S, E>,
        FK: FnOnce(&S) -> S,
        FW: FnOnce(S, Vec<SdkFeature>) -> Result<S, E>,
        FC: FnOnce(&S) -> Result<T, E>,

        requires
            saved matches Some(text) ==> call_requires(parse, (text,)),
            saved is None && !self.is_resolved() ==> call_requires(load, (self.pending_sources(),)),
            saved is None && self.is_resolved() ==> call_requires(
                current,
                (&self.resolved_sdk(),),
            ),
            forall|b: S, enabled: Vec<SdkFeature>| #[trigger]
                call_requires(with_features, (b, enabled)),
            forall|sdk: S| #[trigger] call_requires(catalog, (&sdk,)),
        ensures
            self.resolution_answered(
                saved,
                *features,
                parse,
                load,
                current,
                with_features,
                catalog,
                resolved,
            ),
            resolved matches Ok(c) ==> call_ensures(
                catalog,
                (&c.resolved_sdk(),),
                Ok::<T, E>(c.resolved_tools()),
            ),
    {
        let base = match saved {
            Some(text) => parse(text),
            None => match &self.state {
                ConfigurationState::Sources(sources) => load(sources.clone()),
                ConfigurationState::Resolved(resolved) => Ok(current(&resolved.sdk)),
            },
        };
        assert(self.base_sdk_answered(saved, parse, load, current, base));
        let base_sdk = match base {
            Ok(b) => b,
            Err(error) => {
                return Err(error);
            },
        };
        let enabled = enabled_sdk_features(features);
        let ghost given = (base_sdk, enabled);
        let configured = with_features(base_sdk, enabled);
        assert(call_ensures(with_features, (given.0, given.1), configured));
        let sdk = match configured {
            Ok(sdk) => sdk,
            Err(error) => {
                return Err(error);
            },
        };
        Self::from_sdk(sdk, catalog)
    }
}

/// Whether a saved configuration handed to a resolution is the snapshot
/// restored from a rollout.
pub open spec fn is_restored_snapshot(saved: Option<&str>, snapshot: Option<String>) -> bool {
    match (saved, snapshot) {
        (Some(text), Some(config)) => text@ == config@,
        (None, None) => true,
        _ => false,
    }
}

/// Reuses, on resume or fork, the SDK configuration captured with the latest
/// sampling boundary of the `effective` lineage that captured one: the
/// configuration is resolved again with it as the saved configuration, and
/// replaced by the result; on failure it is left as it was.
pub fn restore_sampling_config<S, T, E, FP, FL, FK, FW, FC>(
    configuration: &mut SpineConfiguration<S, T>,
    effective: &[RolloutItem],
    features: &ManagedFeatures,
    parse: FP,
    load: FL,
    current: FK,
    with_features: FW,
    catalog: FC,
) -> (restored: Result<(), E>) where
    FP: FnOnce(&str) -> Result<S, E>,
    FL: FnOnce(ConfigSources) -> Result<S, E>,
    FK: FnOnce(&S) -> S,
    FW: FnOnce(S, Vec<SdkFeature>) -> Result<S, E>,
    FC: FnOnce(&S) -> Result<T, E>,

    requires
        forall|text: &str| #[trigger] call_requires(parse, (text,)),
        !old(configuration).is_resolved() ==> call_requires(
            load,
            (old(configuration).pending_sources(),),
        ),
        old(configuration).is_resolved() ==> call_requires(
            current,
            (&old(configuration).resolved_sdk(),),
        ),
        forall|b: S, enabled: Vec<SdkFeature>| #[trigger] call_requires(with_features, (b, enabled)),
        forall|sdk: S| #[trigger] call_requires(catalog, (&sdk,)),
    ensures
        exists|saved: Option<&str>, resolved: Result<SpineConfiguration<S, T>, E>|
            #[trigger] old(configuration).resolution_answered(
                saved,
                *features,
                parse,
                load,
                current,
                with_features,
                catalog,
                resolved,
            ) && is_restored_snapshot(saved, latest_sampling_snapshot(effective@)) && match resolved {
                Ok(c) => restored is Ok && *final(configuration) == c,
                Err(error) => restored == Err::<(), E>(error) && *final(configuration) == *old(
                    configuration,
                ),
            },
{
    let snapshot = restore_sampling_snapshot(effective);
    let saved: Option<&str> = match &snapshot {
        Some(config) => Some(config.as_str()),
        None => None,
    };
    let resolved = configuration.resolve(
        saved,
        features,
        parse,
        load,
        current,
        with_features,
        catalog,
    );
    assert(is_restored_snapshot(saved, latest_sampling_snapshot(effective@)));
    match resolved {
        Ok(c) => {
            *configuration = c;
            Ok(())
        },
        Err(error) => Err(error),
    }
}

/// Whether a rollout record is a sampling boundary that saved an SDK
/// configuration.
pub open spec fn holds_snapshot(item: RolloutItem) -> bool {
    item matches RolloutItem::SpineSamplingStarted(started) && started.sdk_config is Some
}

/// The SDK configuration saved with a sampling boundary.
pub open spec fn snapshot_of(item: RolloutItem) -> Option<String> {
    match item {
        RolloutItem::SpineSamplingStarted(started) => started.sdk_config,
        _ => None,
    }
}

/// The SDK configuration saved with the latest sampling boundary of a rollout
/// that has one.
pub open spec fn latest_sampling_snapshot(rollout: Seq<RolloutItem>) -> Option<String>
    decreases rollout.len(),
{
    if rollout.len() == 0 {
        None
    } else if holds_snapshot(rollout.last()) {
        snapshot_of(rollout.last())
    } else {
        latest_sampling_snapshot(rollout.drop_last())
    }
}

/// The SDK configuration to reuse on resume or fork: the one captured with the
/// latest sampling boundary of the effective rollout that captured one.
pub fn restore_sampling_snapshot(effective: &[RolloutItem]) -> (snapshot: Option<String>)
    ensures
        snapshot == latest_sampling_snapshot(effective@),
{
    let mut i = effective.len();
    assert(effective@.subrange(0, i as int) =~= effective@);
    while i > 0
        invariant
            i <= effective.len(),
            latest_sampling_snapshot(effective@) == latest_sampling_snapshot(
                effective@.subrange(0, i as int),
            ),
        decreases i,
    {
        let ghost prefix = effective@.subrange(0, i as int);
        assert(prefix.drop_last() =~= effective@.subrange(0, i - 1));
        match &effective[i - 1] {
            RolloutItem::SpineSamplingStarted(started) => {
                if started.sdk_config.is_some() {
                    return clone_opt_string(&started.sdk_config);
                }
            },
            _ => {},
        }
        i = i - 1;
    }
    None
}

/// The snapshot of the newest sampling boundary that holds one wins: a
/// boundary with a snapshot becomes the latest, and any other record leaves
/// the latest snapshot as it was.
pub proof fn lemma_newest_snapshot_wins(rollout: Seq<RolloutItem>, item: RolloutItem)
    ensures
        holds_snapshot(item) ==> latest_sampling_snapshot(rollout.push(item)) == snapshot_of(item),
        !holds_snapshot(item) ==> latest_sampling_snapshot(rollout.push(item))
            == latest_sampling_snapshot(rollout),
{
    assert(rollout.push(item).drop_last() =~= rollout);
}

/// A snapshot is only ever restored from a sampling boundary of the rollout
/// that holds it, and no later record holds one.
pub proof fn lemma_snapshot_comes_from_the_rollout(rollout: Seq<RolloutItem>)
    ensures
        latest_sampling_snapshot(rollout) is Some ==> exists|i: int|
            0 <= i < rollout.len() && holds_snapshot(#[trigger] rollout[i]) && snapshot_of(rollout[i])
                == latest_sampling_snapshot(rollout) && forall|j: int|
                i < j < rollout.len() ==> !holds_snapshot(#[trigger] rollout[j]),
    decreases rollout.len(),
{
    if rollout.len() > 0 {
        let rest = rollout.drop_last();
        lemma_snapshot_comes_from_the_rollout(rest);
        let n = rollout.len() - 1;
        if holds_snapshot(rollout.last()) {
            assert(rollout[n] == rollout.last());
        } else if latest_sampling_snapshot(rollout) is Some {
            let i = choose|i: int|
                0 <= i < rest.len() && holds_snapshot(#[trigger] rest[i]) && snapshot_of(rest[i])
                    == latest_sampling_snapshot(rest) && forall|j: int|
                    i < j < rest.len() ==> !holds_snapshot(#[trigger] rest[j]);
            assert(rollout[i] == rest[i]);
            assert forall|j: int| i < j < rollout.len() implies !holds_snapshot(
                #[trigger] rollout[j],
            ) by {
                if j < rest.len() {
                    assert(rollout[j] == rest[j]);
                } else {
                    assert(rollout[j] == rollout.last());
                }
            }
        }
    }
}

/// A successful resolution holds the SDK that the features step produced
/// from the base SDK, with exactly the Spine features the host switched on
/// (JIT when `spine_jit`, Spawn when `spine_spawn`, nothing else), whatever
/// the base SDK came from; the base SDK is the parsed saved configuration
/// when there is one, else the loaded sources of a pending configuration,
/// else a copy of the SDK already resolved; and its tools are the catalog
/// built from its SDK.
pub proof fn lemma_resolution_applies_host_features<S, T, E, FP, FL, FK, FW, FC>(
    configuration: SpineConfiguration<S, T>,
    saved: Option<&str>,
    features: ManagedFeatures,
    parse: FP,
    load: FL,
    current: FK,
    with_features: FW,
    catalog: FC,
    resolved: Result<SpineConfiguration<S, T>, E>,
) where
    FP: FnOnce(&str) -> Result<S, E>,
    FL: FnOnce(ConfigSources) -> Result<S, E>,
    FK: FnOnce(&S) -> S,
    FW: FnOnce(S, Vec<SdkFeature>) -> Result<S, E>,
    FC: FnOnce(&S) -> Result<T, E>,

    requires
        configuration.resolution_answered(
            saved,
            features,
            parse,
            load,
            current,
            with_features,
            catalog,
            resolved,
        ),
        resolved is Ok,
    ensures
        resolved->Ok_0.is_resolved(),
        call_ensures(
            catalog,
            (&resolved->Ok_0.resolved_sdk(),),
            Ok::<T, E>(resolved->Ok_0.resolved_tools()),
        ),
        exists|base: S, enabled: Vec<SdkFeature>|
            #[trigger] call_ensures(
                with_features,
                (base, enabled),
                Ok::<S, E>(resolved->Ok_0.resolved_sdk()),
            ) && (enabled@.contains(SdkFeature::Jit) <==> features.spine_jit) && (
            enabled@.contains(SdkFeature::Spawn) <==> features.spine_spawn) && enabled@.len() == (
            if features.spine_jit { 1int } else { 0 }) + (if features.spine_spawn { 1int } else { 0 })
                && (saved matches Some(text) ==> call_ensures(parse, (text,), Ok::<S, E>(base)))
                && (saved is None && !configuration.is_resolved() ==> call_ensures(
                load,
                (configuration.pending_sources(),),
                Ok::<S, E>(base),
            )) && (saved is None && configuration.is_resolved() ==> call_ensures(
                current,
                (&configuration.resolved_sdk(),),
                base,
            )),
{
    let base = choose|base: Result<S, E>|
        #[trigger] configuration.base_sdk_answered(saved, parse, load, current, base) && match base {
            Err(error) => resolved == Err::<SpineConfiguration<S, T>, E>(error),
            Ok(b) => exists|enabled: Vec<SdkFeature>, configured: Result<S, E>|
                #[trigger] call_ensures(with_features, (b, enabled), configured) && enabled@
                    == enabled_sdk_features_of(features) && match configured {
                    Err(error) => resolved == Err::<SpineConfiguration<S, T>, E>(error),
                    Ok(sdk) => exists|built: Result<T, E>|
                        #[trigger] call_ensures(catalog, (&sdk,), built) && match built {
                            Err(error) => resolved == Err::<SpineConfiguration<S, T>, E>(error),
                            Ok(tools) => resolved matches Ok(c) && c.is_resolved()
                                && c.resolved_sdk() == sdk && c.resolved_tools() == tools,
                        },
                },
        };
    let b = base->Ok_0;
    let (enabled, configured) = choose|enabled: Vec<SdkFeature>, configured: Result<S, E>|
        #[trigger] call_ensures(with_features, (b, enabled), configured) && enabled@
            == enabled_sdk_features_of(features) && match configured {
            Err(error) => resolved == Err::<SpineConfiguration<S, T>, E>(error),
            Ok(sdk) => exists|built: Result<T, E>|
                #[trigger] call_ensures(catalog, (&sdk,), built) && match built {
                    Err(error) => resolved == Err::<SpineConfiguration<S, T>, E>(error),
                    Ok(tools) => resolved matches Ok(c) && c.is_resolved() && c.resolved_sdk()
                        == sdk && c.resolved_tools() == tools,
                },
        };
    let sdk = configured->Ok_0;
    let built = choose|built: Result<T, E>|
        #[trigger] call_ensures(catalog, (&sdk,), built) && match built {
            Err(error) => resolved == Err::<SpineConfiguration<S, T>, E>(error),
            Ok(tools) => resolved matches Ok(c) && c.is_resolved() && c.resolved_sdk() == sdk
                && c.resolved_tools() == tools,
        };
    assert(built is Ok);
    assert(enabled@.contains(SdkFeature::Jit) <==> features.spine_jit) by {
        if features.spine_jit {
            assert(enabled@[0] == SdkFeature::Jit);
        }
    }
    assert(enabled@.contains(SdkFeature::Spawn) <==> features.spine_spawn) by {
        if features.spine_spawn {
            assert(enabled@[enabled@.len() - 1] == SdkFeature::Spawn);
        }
    }
    assert(call_ensures(with_features, (b, enabled), Ok::<S, E>(resolved->Ok_0.resolved_sdk())));
}

} // verus!
