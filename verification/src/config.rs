//! The configuration of one run: the probe result, the output format and the
//! runtime that the user asked for. It is set once, at startup, and only
//! read from then on.

use crate::probe::{facts_of, ProbeFacts, ProbeResult, RuntimeFacts, RuntimeInfo, RuntimeKind};
use crate::text::{lowercase_of, opt_text};
use vstd::prelude::*;
use vstd::string::StringExecFns;

verus! {

/// Why a configuration could not be made.
#[derive(Clone, Debug, PartialEq, Eq)]
pub enum ConfigError {
    /// The requested name is that of no runtime.
    UnknownRuntime(String),
    /// The requested runtime was not detected on this host.
    NotDetected(String),
}

/// A `ConfigError` with the requested name as a sequence of characters.
pub enum ConfigFault {
    UnknownRuntime(Seq<char>),
    NotDetected(Seq<char>),
}

impl ConfigFault {
    /// The message that tells the user what went wrong and what to do.
    pub open spec fn message(self) -> Seq<char> {
        match self {
            ConfigFault::UnknownRuntime(name) => "Unknown runtime '"@ + name
                + "'. Valid options: docker, podman, containerd"@,
            ConfigFault::NotDetected(name) => "Runtime '"@ + name
                + "' was not detected on this system. Run `peel probe` to see available runtimes."@,
        }
    }
}

impl View for ConfigError {
    type V = ConfigFault;

    open spec fn view(&self) -> ConfigFault {
        match self {
            ConfigError::UnknownRuntime(name) => ConfigFault::UnknownRuntime(name@),
            ConfigError::NotDetected(name) => ConfigFault::NotDetected(name@),
        }
    }
}

impl ConfigError {
    /// The message that tells the user what went wrong and what to do.
    pub fn message(&self) -> (text: String)
        ensures
            text@ == self@.message(),
    {
        match self {
            ConfigError::UnknownRuntime(name) => {
                let mut text = "Unknown runtime '".to_owned();
                text.append(name.as_str());
                text.append("'. Valid options: docker, podman, containerd");
                text
            },
            ConfigError::NotDetected(name) => {
                let mut text = "Runtime '".to_owned();
                text.append(name.as_str());
                text.append(
                    "' was not detected on this system. Run `peel probe` to see available runtimes.",
                );
                text
            },
        }
    }
}

/// The index of the first of `runtimes`, from index `from` on, that is of
/// the given kind.
pub open spec fn first_of_kind(runtimes: Seq<RuntimeFacts>, kind: RuntimeKind, from: int) -> Option<
    int,
>
    decreases runtimes.len() - from,
{
    if from < 0 || from >= runtimes.len() {
        None
    } else if runtimes[from].kind == kind {
        Some(from)
    } else {
        first_of_kind(runtimes, kind, from + 1)
    }
}

/// `first_of_kind` finds a runtime of the kind wherever there is one from
/// `from` on, and the one it finds has none of the kind before it.
pub proof fn lemma_first_of_kind(runtimes: Seq<RuntimeFacts>, kind: RuntimeKind, from: int)
    requires
        0 <= from,
    ensures
        match first_of_kind(runtimes, kind, from) {
            Some(at) => from <= at < runtimes.len() && runtimes[at].kind == kind && forall|j: int|
                from <= j < at ==> (#[trigger] runtimes[j]).kind != kind,
            None => forall|j: int|
                from <= j < runtimes.len() ==> (#[trigger] runtimes[j]).kind != kind,
        },
    decreases runtimes.len() - from,
{
    if from < runtimes.len() && runtimes[from].kind != kind {
        lemma_first_of_kind(runtimes, kind, from + 1);
    }
}

/// What becomes of a probe result when the user asks for the runtime called
/// `name`, which stands for `kind`: the first detected runtime of that kind
/// becomes the default. A name that stands for no kind, and a kind that was
/// not detected, are errors.
pub open spec fn with_override(found: ProbeFacts, name: Seq<char>, kind: Option<RuntimeKind>) -> Result<
    ProbeFacts,
    ConfigFault,
> {
    match kind {
        None => Err(ConfigFault::UnknownRuntime(name)),
        Some(k) => match first_of_kind(found.runtimes, k, 0) {
            None => Err(ConfigFault::NotDetected(name)),
            Some(at) => Ok(ProbeFacts { runtimes: found.runtimes, default: Some(at as usize) }),
        },
    }
}

/// The outcome of an override, with its texts as sequences of characters.
pub open spec fn outcome_view(outcome: Result<ProbeResult, ConfigError>) -> Result<
    ProbeFacts,
    ConfigFault,
> {
    match outcome {
        Ok(found) => Ok(found@),
        Err(e) => Err(e@),
    }
}

/// The place of the first runtime of a kind in a list.
pub fn position_of_kind(runtimes: &Vec<RuntimeInfo>, kind: &RuntimeKind) -> (at: Option<usize>)
    ensures
        match at {
            Some(i) => i < runtimes.len() && first_of_kind(facts_of(runtimes@), *kind, 0) == Some(
                i as int,
            ),
            None => first_of_kind(facts_of(runtimes@), *kind, 0) is None,
        },
{
    let mut i: usize = 0;
    while i < runtimes.len()
        invariant
            i <= runtimes.len(),
            first_of_kind(facts_of(runtimes@), *kind, 0) == first_of_kind(
                facts_of(runtimes@),
                *kind,
                i as int,
            ),
        decreases runtimes.len() - i,
    {
        if runtimes[i].kind.matches(kind) {
            return Some(i);
        }
        i += 1;
    }
    None
}

/// Makes the runtime that the user asked for the default of a probe result.
/// `kind` is what the requested `name` stands for.
pub fn apply_override(found: ProbeResult, name: &str, kind: Option<RuntimeKind>) -> (outcome: Result<
    ProbeResult,
    ConfigError,
>)
    ensures
        outcome_view(outcome) == with_override(found@, name@, kind),
        outcome matches Ok(chosen) ==> chosen.well_formed(),
{
    match kind {
        None => Err(ConfigError::UnknownRuntime(name.to_owned())),
        Some(k) => match position_of_kind(&found.runtimes, &k) {
            None => Err(ConfigError::NotDetected(name.to_owned())),
            Some(at) => Ok(ProbeResult { runtimes: found.runtimes, default: Some(at) }),
        },
    }
}

/// The configuration of one run.
#[derive(Clone, Debug, PartialEq, Eq)]
pub struct AppConfig {
    /// The runtimes detected on the host, with the requested one, if one was
    /// requested, as the default.
    pub probe: ProbeResult,
    /// Whether output is to be machine-readable.
    pub json: bool,
    /// The runtime that the user asked for, as the user wrote it.
    pub runtime_override: Option<String>,
}

/// What an `AppConfig` says.
pub struct AppFacts {
    pub probe: ProbeFacts,
    pub json: bool,
    pub runtime_override: Option<Seq<char>>,
}

impl View for AppConfig {
    type V = AppFacts;

    open spec fn view(&self) -> AppFacts {
        AppFacts {
            probe: self.probe@,
            json: self.json,
            runtime_override: opt_text(self.runtime_override),
        }
    }
}

/// The place where the configuration of a run is kept: empty until the
/// configuration is set, and never changed after that.
#[derive(Debug)]
pub struct ConfigStore {
    slot: Option<AppConfig>,
}

impl View for ConfigStore {
    type V = Option<AppConfig>;

    /// What the store holds: the configuration that was set, or nothing.
    closed spec fn view(&self) -> Option<AppConfig> {
        self.slot
    }
}

/// What a store holds after a configuration is offered to it: what it held
/// before, where it held a configuration, and else the one offered.
pub open spec fn after_offer(held: Option<AppConfig>, offered: AppConfig) -> Option<AppConfig> {
    match held {
        Some(_) => held,
        None => Some(offered),
    }
}

/// What a store holds after the configurations `offers` are offered to it
/// one after the other.
pub open spec fn after_offers(held: Option<AppConfig>, offers: Seq<AppConfig>) -> Option<AppConfig>
    decreases offers.len(),
{
    if offers.len() == 0 {
        held
    } else {
        after_offer(after_offers(held, offers.drop_last()), offers.last())
    }
}

/// A store is set once and never again. However many configurations are
/// offered to it, a store that held one holds that one still, and a store
/// that held none holds the first that was offered: nothing is ever
/// overwritten, and nothing is put where nothing was offered.
pub proof fn lemma_first_configuration_stays(held: Option<AppConfig>, offers: Seq<AppConfig>)
    ensures
        held is Some ==> after_offers(held, offers) == held,
        held is None && offers.len() > 0 ==> after_offers(held, offers) == Some(offers[0]),
        held is None && offers.len() == 0 ==> after_offers(held, offers) is None,
    decreases offers.len(),
{
    if offers.len() > 0 {
        lemma_first_configuration_stays(held, offers.drop_last());
        if offers.len() > 1 {
            assert(offers.drop_last()[0] == offers[0]);
        }
    }
}

impl ConfigStore {
    /// Whether the configuration has been set.
    pub open spec fn initialized(&self) -> bool {
        self@ is Some
    }

    /// The configuration that was set.
    pub open spec fn config(&self) -> AppConfig
        recommends
            self.initialized(),
    {
        self@->0
    }

    /// A store in which nothing is set yet.
    pub fn new() -> (store: ConfigStore)
        ensures
            store@ is None,
    {
        ConfigStore { slot: None }
    }

    /// Whether the configuration has been set.
    pub fn is_initialized(&self) -> (set: bool)
        ensures
            set == self.initialized(),
    {
        self.slot.is_some()
    }

    /// Sets the configuration if none is set yet. A store that holds a
    /// configuration keeps it, and the one offered comes back as the error.
    pub fn set(&mut self, config: AppConfig) -> (outcome: Result<(), AppConfig>)
        ensures
            final(self)@ == after_offer(old(self)@, config),
            match outcome {
                Ok(_) => {
                    &&& !old(self).initialized()
                    &&& final(self).initialized()
                    &&& final(self).config() == config
                },
                Err(rejected) => {
                    &&& old(self).initialized()
                    &&& *final(self) == *old(self)
                    &&& rejected == config
                },
            },
    {
        if self.slot.is_some() {
            return Err(config);
        }
        self.slot = Some(config);
        Ok(())
    }

    /// The configuration, if one is set.
    pub fn current(&self) -> (config: Option<&AppConfig>)
        ensures
            match config {
                Some(c) => self@ == Some(*c),
                None => self@ is None,
            },
    {
        self.slot.as_ref()
    }

    /// Sets the configuration. This can be done once: to set it a second
    /// time is a defect of the caller.
    pub fn initialize(&mut self, config: AppConfig)
        requires
            !old(self).initialized(),
        ensures
            final(self)@ == Some(config),
    {
        self.slot = Some(config);
    }

    /// The configuration. To read it before it is set is a defect of the
    /// caller.
    pub fn get(&self) -> (config: &AppConfig)
        requires
            self.initialized(),
        ensures
            *config == self.config(),
    {
        self.slot.as_ref().unwrap()
    }
}

/// What the configuration of a run holds, given what the probe found, the
/// output format and the runtime asked for: the probe result with the
/// requested runtime as its default.
pub open spec fn configured(found: ProbeFacts, json: bool, requested: Option<Seq<char>>) -> Result<
    AppFacts,
    ConfigFault,
> {
    match requested {
        None => Ok(AppFacts { probe: found, json, runtime_override: None }),
        Some(name) => match with_override(found, name, RuntimeKind::named(lowercase_of(name))) {
            Ok(chosen) => Ok(AppFacts { probe: chosen, json, runtime_override: Some(name) }),
            Err(fault) => Err(fault),
        },
    }
}

/// Sets the configuration of the run from what the probe found and what the
/// command line asked for.
///
/// Where the requested runtime cannot be made the default, nothing is set
/// and the error says why.
pub fn init_from_cli(
    store: &mut ConfigStore,
    found: ProbeResult,
    json: bool,
    runtime_override: Option<String>,
) -> (outcome: Result<(), ConfigError>)
    requires
        !old(store).initialized(),
    ensures
        match outcome {
            Ok(_) => final(store).initialized() && configured(
                found@,
                json,
                opt_text(runtime_override),
            ) == Ok::<AppFacts, ConfigFault>(final(store).config()@),
            Err(e) => !final(store).initialized() && configured(
                found@,
                json,
                opt_text(runtime_override),
            ) == Err::<AppFacts, ConfigFault>(e@),
        },
        outcome is Ok && found.well_formed() ==> final(store).config().probe.well_formed(),
{
    let probe = match &runtime_override {
        Some(name) => {
            let kind = RuntimeKind::from_name(name.as_str());
            apply_override(found, name.as_str(), kind)?
        },
        None => found,
    };
    store.initialize(AppConfig { probe, json, runtime_override });
    Ok(())
}

/// The configuration of the run. To ask for it before it is set is a defect
/// of the caller.
pub fn get(store: &ConfigStore) -> (config: &AppConfig)
    requires
        store.initialized(),
    ensures
        *config == store.config(),
{
    store.get()
}

} // verus!
