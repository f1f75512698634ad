//! The session with the managed runtime: how it is set up, and what it
//! hands out.
//!
//! Setting up a session is work of the host process: it locates the runtime,
//! starts it and resolves the entry points. What to do next, and how each
//! outcome counts, is decided here, one step at a time.

use crate::assembly::AssemblyLoadContext;
use crate::coral_managed_fns::{
    is_whole_table, CoralManagedFunctions, EntryPoint, ManagedClass, ENTRY_POINT_COUNT,
};
use crate::from_csharp::{text_or_empty, FromCSharp};
use crate::managed_call::{ManagedCall, ManagedReply, ProtocolError, Step};
use crate::message_level::MessageLevel;
use crate::string::{before_nul, CSharpNativeString, ScopedCSharpNativeString};
use crate::sharp_type::Type;
use crate::type_cache::TypeCache;
use crate::TypeId;
use std::sync::Arc;
use vstd::prelude::*;
use vstd::string::*;

verus! {

/// Why a session could not be set up.
#[derive(Debug, Clone, Copy, PartialEq, Eq, Structural)]
pub enum CoralInitError {
    /// The runtime could not be located or loaded.
    FailedToLoadHostFXR,
    /// The managed support assembly is not in the configured directory.
    CoralManagedNotFound,
    /// The managed support assembly could not be brought up.
    CoralManagedInitError(CoralManagedInitError),
}

/// Why the managed support assembly could not be brought up.
#[derive(Debug, Clone, Copy, PartialEq, Eq, Structural)]
pub enum CoralManagedInitError {
    CouldNotInitializeForRuntimeConfig,
    FailedToGetDelegateLoader,
    CouldNotLoadFnPtr,
    /// One entry point at least could not be resolved.
    CouldNotLoadCoralFunctions,
}

/// How a session is set up.
pub struct HostSettings {
    /// The directory that holds the managed support assembly and its runtime
    /// configuration.
    pub coral_directory: String,
    /// Whether the host has a callback of its own for messages. Without one
    /// a message is printed as a line.
    pub message_callback: bool,
    /// The least severity of the messages that are let through.
    pub messsage_filter: MessageLevel,
    /// Whether the host has a callback of its own for the text of managed
    /// exceptions. Without one the text goes the way of a message of
    /// severity `Error`.
    pub exception_callback: bool,
}

impl HostSettings {
    /// Whether these are the same settings as `other`.
    pub open spec fn same_as(&self, other: &HostSettings) -> bool {
        &&& self.coral_directory@ == other.coral_directory@
        &&& self.message_callback == other.message_callback
        &&& self.messsage_filter == other.messsage_filter
        &&& self.exception_callback == other.exception_callback
    }
}

impl Clone for HostSettings {
    fn clone(&self) -> (copy: Self)
        ensures
            copy.same_as(self),
    {
        HostSettings {
            coral_directory: self.coral_directory.clone(),
            message_callback: self.message_callback,
            messsage_filter: self.messsage_filter,
            exception_callback: self.exception_callback,
        }
    }
}

/// What becomes of a message or of the text of an exception.
pub enum Delivery {
    /// It is handed to the message callback of the host.
    Message { message: String, level: MessageLevel },
    /// It is printed as this line.
    Print { line: String },
    /// It is handed to the exception callback of the host.
    Exception { message: String },
    /// It is dropped: its severity is below what is let through.
    Nothing,
}

/// The line that a message is printed as: `[Sharpen](Level): message`.
pub open spec fn message_line(message: Seq<char>, level: MessageLevel) -> Seq<char> {
    "[Sharpen]("@ + level.spec_label() + "): "@ + message
}

/// The line that a message is printed as when the host has no message
/// callback of its own.
pub fn default_message_callback(message: String, level: MessageLevel) -> (line: String)
    ensures
        line@ == message_line(message@, level),
{
    let mut line = String::from_str("[Sharpen](");
    line.append(level.label());
    line.append("): ");
    line.append(message.as_str());
    line
}

/// Whether `delivery` is what becomes of a message: it is dropped below the
/// least severity of the settings, handed to the message callback of the
/// host if there is one, and printed as a line else.
pub open spec fn delivers_message(
    settings: &HostSettings,
    message: Seq<char>,
    level: MessageLevel,
    delivery: Delivery,
) -> bool {
    if settings.messsage_filter.rank() > level.rank() {
        delivery is Nothing
    } else if settings.message_callback {
        delivery matches Delivery::Message { message: sent, level: at } && sent@ == message && at
            == level
    } else {
        delivery matches Delivery::Print { line } && line@ == message_line(message, level)
    }
}

/// Decides what becomes of a message that the managed side reports. A null
/// string is read as an empty message.
pub fn message_callback(
    settings: &HostSettings,
    in_message: CSharpNativeString,
    in_level: MessageLevel,
) -> (delivery: Delivery)
    ensures
        delivers_message(settings, text_or_empty(in_message@), in_level, delivery),
{
    let message = String::from_csharp(in_message);
    if !settings.messsage_filter.filter(in_level) {
        Delivery::Nothing
    } else if settings.message_callback {
        Delivery::Message { message, level: in_level }
    } else {
        Delivery::Print { line: default_message_callback(message, in_level) }
    }
}

/// The level that a number of the managed side stands for. A number that
/// stands for no level is taken as `Error`, so that its message is not
/// lost.
pub open spec fn level_or_error(raw: i32) -> MessageLevel {
    if raw == 1 {
        MessageLevel::Info
    } else if raw == 2 {
        MessageLevel::Warning
    } else {
        MessageLevel::Error
    }
}

/// Decides what becomes of a message whose severity arrives as the managed
/// side passes it, as a number.
pub fn raw_message_callback(settings: &HostSettings, in_message: CSharpNativeString, in_level: i32) -> (delivery:
    Delivery)
    ensures
        delivers_message(
            settings,
            text_or_empty(in_message@),
            level_or_error(in_level),
            delivery,
        ),
{
    let level = match MessageLevel::from_raw(in_level) {
        Some(level) => level,
        None => MessageLevel::Error,
    };
    message_callback(settings, in_message, level)
}

/// Decides what becomes of the text of a managed exception: it is handed to
/// the exception callback of the host if there is one, and goes the way of a
/// message of severity `Error` else.
pub fn exception_callback(settings: &HostSettings, in_message: CSharpNativeString) -> (delivery:
    Delivery)
    ensures
        if settings.exception_callback {
            delivery matches Delivery::Exception { message } && message@ == text_or_empty(
                in_message@,
            )
        } else {
            delivers_message(settings, text_or_empty(in_message@), MessageLevel::Error, delivery)
        },
{
    if settings.exception_callback {
        Delivery::Exception { message: String::from_csharp(in_message) }
    } else {
        message_callback(settings, in_message, MessageLevel::Error)
    }
}

/// The files of the managed support that a session needs.
#[derive(Debug, Clone, Copy, PartialEq, Eq, Structural)]
pub enum SupportFile {
    /// The managed support assembly.
    Assembly,
    /// The runtime configuration of the managed support assembly.
    RuntimeConfig,
}

impl SupportFile {
    /// The name of the file within the configured directory.
    pub open spec fn spec_file_name(self) -> Seq<char> {
        match self {
            SupportFile::Assembly => "Coral.Managed.dll"@,
            SupportFile::RuntimeConfig => "Coral.Managed.runtimeconfig.json"@,
        }
    }

    /// The name of the file within the configured directory.
    pub fn file_name(self) -> (name: &'static str)
        ensures
            name@ == self.spec_file_name(),
    {
        match self {
            SupportFile::Assembly => "Coral.Managed.dll",
            SupportFile::RuntimeConfig => "Coral.Managed.runtimeconfig.json",
        }
    }
}

/// The managed class that holds the entry point of the managed support.
pub fn initialize_class() -> (class: ManagedClass)
    ensures
        class == ManagedClass::ManagedHost,
{
    ManagedClass::ManagedHost
}

/// The name of the entry point of the managed support. It takes the two
/// callbacks of the session.
pub fn initialize_method_name() -> (name: &'static str)
    ensures
        name@ == "Initialize"@,
{
    "Initialize"
}

/// What the host process is to do next while a session is set up.
pub enum HostAction {
    /// Locate the hosting library of the runtime and load it.
    LoadHostfxr,
    /// Find out whether a file of the managed support exists in the
    /// configured directory.
    ProbeFile(SupportFile),
    /// Deliver a message.
    Deliver(Delivery),
    /// Start the runtime with the runtime configuration in the configured
    /// directory.
    InitializeForRuntimeConfig(SupportFile),
    /// Get the loader that resolves entry points by name.
    GetDelegateLoader,
    /// Resolve the entry point of the managed support in the support
    /// assembly.
    ResolveInitialize,
    /// Resolve one entry point of the function table in the support
    /// assembly, by the name of its class and of its method.
    ResolveEntryPoint(EntryPoint),
    /// Call the entry point of the managed support with the two callbacks.
    CallInitialize,
}

/// How an action of the host process ended.
pub enum HostEvent {
    /// The action was carried out.
    Succeeded,
    /// The action failed.
    Failed,
    /// Whether the file that was probed exists.
    Exists(bool),
    /// The address that an entry point was resolved to.
    Resolved(usize),
}

/// Which outcome the setting up of a session waits for.
#[derive(Debug, Clone, Copy, PartialEq, Eq, Structural)]
pub enum InitStage {
    /// Nothing is under way.
    Idle,
    Hostfxr,
    Probe,
    /// The message that the support assembly is missing is being delivered.
    Report,
    RuntimeConfig,
    DelegateLoader,
    Entry,
    /// The entry points of the function table are being resolved, in
    /// order.
    Functions,
    Initialize,
}

/// What a step of the setting up answers.
pub enum InitStep {
    /// The host process is to do this, and to report how it ended.
    Perform(HostAction),
    /// The session is set up.
    Done(HostInstance),
    /// The session cannot be set up.
    Failed(CoralInitError),
    /// The outcome does not fit what was asked for. Nothing has changed.
    Unexpected,
}

/// The setting up of a session, as far as it has come.
pub struct Initialization {
    settings: HostSettings,
    stage: InitStage,
    addresses: Vec<usize>,
}

/// A session: its settings, its function table and its type cache.
pub struct HostInstance {
    settings: HostSettings,
    managed_functions: CoralManagedFunctions,
    type_cache: TypeCache,
}

impl Initialization {
    /// The settings that the session is set up with.
    pub closed spec fn settings(&self) -> HostSettings {
        self.settings
    }

    /// Which outcome is waited for.
    pub closed spec fn stage(&self) -> InitStage {
        self.stage
    }

    /// The entry points that are resolved so far, in order.
    pub closed spec fn resolved(&self) -> Seq<usize> {
        self.addresses@
    }

    /// While the function table is resolved, one entry point at least is
    /// still missing, and no address in it is null. When the entry point of
    /// the managed support is called, the table is whole.
    #[verifier::type_invariant]
    closed spec fn in_order(&self) -> bool {
        &&& self.stage == InitStage::Functions ==> {
            &&& self.addresses@.len() < ENTRY_POINT_COUNT
            &&& forall|i: int| 0 <= i < self.addresses@.len() ==> self.addresses@[i] != 0
        }
        &&& self.stage == InitStage::Initialize ==> is_whole_table(self.addresses@)
    }

    /// Which outcome is waited for.
    pub fn current_stage(&self) -> (stage: InitStage)
        ensures
            stage == self.stage(),
    {
        self.stage
    }

    /// Whether `after` is this setting up at another stage, with these
    /// entry points resolved.
    pub open spec fn moves_to(&self, after: &Initialization, stage: InitStage, resolved: Seq<usize>) -> bool {
        &&& after.settings() == self.settings()
        &&& after.stage() == stage
        &&& after.resolved() == resolved
    }

    /// Whether `step` asks for `action` and leaves the setting up at
    /// `stage`, with the resolved entry points as they were.
    pub open spec fn asks(&self, after: &Initialization, step: InitStep, action: HostAction, stage: InitStage) -> bool {
        &&& step matches InitStep::Perform(asked)
        &&& asked == action
        &&& self.moves_to(after, stage, self.resolved())
    }

    /// Whether `step` gives the setting up up with `error`. Nothing is
    /// under way after that.
    pub open spec fn fails(&self, after: &Initialization, step: InitStep, error: CoralInitError) -> bool {
        &&& step matches InitStep::Failed(given)
        &&& given == error
        &&& self.moves_to(after, InitStage::Idle, self.resolved())
    }

    /// Whether `step` is the step of the top of the setting up after
    /// `event`: the runtime is loaded, and the support assembly is looked
    /// for.
    ///
    /// Without an event the setting up starts, whatever stood before: the
    /// hosting library is to be loaded. If that fails the session cannot be
    /// set up. Else the support assembly is probed. If it is missing, a
    /// message of severity `Error` that says so is delivered, and the
    /// session cannot be set up. If it is there, the managed support is
    /// brought up.
    pub open spec fn top_step(&self, event: Option<HostEvent>, after: &Initialization, step: InitStep) -> bool {
        match (event, self.stage()) {
            (None, _) => {
                &&& step matches InitStep::Perform(HostAction::LoadHostfxr)
                &&& self.moves_to(after, InitStage::Hostfxr, Seq::empty())
            },
            (Some(HostEvent::Succeeded), InitStage::Hostfxr) => self.asks(
                after,
                step,
                HostAction::ProbeFile(SupportFile::Assembly),
                InitStage::Probe,
            ),
            (Some(HostEvent::Failed), InitStage::Hostfxr) => self.fails(
                after,
                step,
                CoralInitError::FailedToLoadHostFXR,
            ),
            (Some(HostEvent::Exists(false)), InitStage::Probe) => {
                &&& step matches InitStep::Perform(HostAction::Deliver(delivery))
                &&& delivers_message(
                    &self.settings(),
                    "Failed to find Coral.Managed.dll"@,
                    MessageLevel::Error,
                    delivery,
                )
                &&& self.moves_to(after, InitStage::Report, self.resolved())
            },
            (Some(HostEvent::Exists(true)), InitStage::Probe) => self.asks(
                after,
                step,
                HostAction::InitializeForRuntimeConfig(SupportFile::RuntimeConfig),
                InitStage::RuntimeConfig,
            ),
            (Some(HostEvent::Succeeded), InitStage::Report) => self.fails(
                after,
                step,
                CoralInitError::CoralManagedNotFound,
            ),
            _ => false,
        }
    }

    /// Whether `step` is the step of bringing up the managed support after
    /// `event`.
    ///
    /// The runtime is started with the runtime configuration, the loader of
    /// entry points is got, and the entry point of the managed support is
    /// resolved; each of the three can fail, with an error of its own, and
    /// an entry point that is resolved to a null address counts as not
    /// resolved. Then
    /// the function table is resolved. When it is whole, the entry point of
    /// the managed support is called with the two callbacks, and the session
    /// is set up: with the settings, the table, and an empty type cache.
    pub open spec fn managed_step(&self, event: HostEvent, after: &Initialization, step: InitStep) -> bool {
        match (event, self.stage()) {
            (HostEvent::Succeeded, InitStage::RuntimeConfig) => self.asks(
                after,
                step,
                HostAction::GetDelegateLoader,
                InitStage::DelegateLoader,
            ),
            (HostEvent::Failed, InitStage::RuntimeConfig) => self.fails(
                after,
                step,
                CoralInitError::CoralManagedInitError(
                    CoralManagedInitError::CouldNotInitializeForRuntimeConfig,
                ),
            ),
            (HostEvent::Succeeded, InitStage::DelegateLoader) => self.asks(
                after,
                step,
                HostAction::ResolveInitialize,
                InitStage::Entry,
            ),
            (HostEvent::Failed, InitStage::DelegateLoader) => self.fails(
                after,
                step,
                CoralInitError::CoralManagedInitError(
                    CoralManagedInitError::FailedToGetDelegateLoader,
                ),
            ),
            (HostEvent::Resolved(address), InitStage::Entry) if address != 0 => {
                &&& step matches InitStep::Perform(HostAction::ResolveEntryPoint(entry))
                &&& entry.spec_index() == 0
                &&& self.moves_to(after, InitStage::Functions, Seq::empty())
            },
            (HostEvent::Resolved(_), InitStage::Entry)
            | (HostEvent::Failed, InitStage::Entry) => self.fails(
                after,
                step,
                CoralInitError::CoralManagedInitError(CoralManagedInitError::CouldNotLoadFnPtr),
            ),
            (HostEvent::Succeeded, InitStage::Initialize) => {
                &&& step matches InitStep::Done(host)
                &&& is_whole_table(host.spec_functions().addresses())
                &&& host.spec_settings().same_as(&self.settings())
                &&& host.spec_functions().addresses() == self.resolved()
                &&& host.spec_cache().names() == Map::<Seq<char>, Arc<Type>>::empty()
                &&& host.spec_cache().ids() == Map::<TypeId, Arc<Type>>::empty()
                &&& self.moves_to(after, InitStage::Idle, Seq::empty())
            },
            _ => false,
        }
    }

    /// Whether `step` is the step of resolving the function table after
    /// `event`.
    ///
    /// The entry points are resolved one by one, in their order. A single
    /// one that cannot be resolved, or that is resolved to a null address,
    /// gives the whole table up: there is no partial table. After the last
    /// one the entry point of the managed support is to be called.
    pub open spec fn functions_step(&self, event: HostEvent, after: &Initialization, step: InitStep) -> bool {
        match event {
            HostEvent::Resolved(address) if address != 0 => {
                let resolved = self.resolved().push(address);
                if resolved.len() == ENTRY_POINT_COUNT {
                    &&& step matches InitStep::Perform(HostAction::CallInitialize)
                    &&& self.moves_to(after, InitStage::Initialize, resolved)
                    &&& is_whole_table(resolved)
                } else {
                    &&& step matches InitStep::Perform(HostAction::ResolveEntryPoint(entry))
                    &&& entry.spec_index() == resolved.len()
                    &&& self.moves_to(after, InitStage::Functions, resolved)
                }
            },
            HostEvent::Resolved(_) | HostEvent::Failed => self.fails(
                after,
                step,
                CoralInitError::CoralManagedInitError(
                    CoralManagedInitError::CouldNotLoadCoralFunctions,
                ),
            ),
            _ => false,
        }
    }

    /// Whether `step` is the step of the setting up after `event`, which
    /// takes it from `self` to `after`: that of the part that the stage
    /// belongs to, and `Unexpected` with nothing changed for an event that
    /// fits no part.
    pub open spec fn init_step(&self, event: Option<HostEvent>, after: &Initialization, step: InitStep) -> bool {
        let fits = match (event, self.stage()) {
            (None, _) => true,
            (Some(HostEvent::Succeeded), InitStage::Hostfxr) => true,
            (Some(HostEvent::Failed), InitStage::Hostfxr) => true,
            (Some(HostEvent::Exists(_)), InitStage::Probe) => true,
            (Some(HostEvent::Succeeded), InitStage::Report) => true,
            (Some(HostEvent::Succeeded), InitStage::RuntimeConfig) => true,
            (Some(HostEvent::Failed), InitStage::RuntimeConfig) => true,
            (Some(HostEvent::Succeeded), InitStage::DelegateLoader) => true,
            (Some(HostEvent::Failed), InitStage::DelegateLoader) => true,
            (Some(HostEvent::Resolved(_)), InitStage::Entry) => true,
            (Some(HostEvent::Failed), InitStage::Entry) => true,
            (Some(HostEvent::Resolved(_)), InitStage::Functions) => true,
            (Some(HostEvent::Failed), InitStage::Functions) => true,
            (Some(HostEvent::Succeeded), InitStage::Initialize) => true,
            _ => false,
        };
        if !fits {
            &&& step is Unexpected
            &&& self.moves_to(after, self.stage(), self.resolved())
        } else {
            match (event, self.stage()) {
                (Some(event), InitStage::Functions) => self.functions_step(event, after, step),
                (
                    Some(event),
                    InitStage::RuntimeConfig
                    | InitStage::DelegateLoader
                    | InitStage::Entry
                    | InitStage::Initialize,
                ) => self.managed_step(event, after, step),
                _ => self.top_step(event, after, step),
            }
        }
    }

    /// Makes one step of the setting up of a session. `event` is how the
    /// action ended that the step before asked for; there is none for the
    /// first step.
    pub fn advance(&mut self, event: Option<HostEvent>) -> (step: InitStep)
        ensures
            old(self).init_step(event, final(self), step),
    {
        proof {
            use_type_invariant(&*self);
        }
        match (event, self.stage) {
            (None, _) => {
                self.stage = InitStage::Hostfxr;
                self.addresses = Vec::new();
                InitStep::Perform(HostAction::LoadHostfxr)
            },
            (Some(HostEvent::Succeeded), InitStage::Hostfxr) => {
                self.stage = InitStage::Probe;
                InitStep::Perform(HostAction::ProbeFile(SupportFile::Assembly))
            },
            (Some(HostEvent::Failed), InitStage::Hostfxr) => {
                self.stage = InitStage::Idle;
                InitStep::Failed(CoralInitError::FailedToLoadHostFXR)
            },
            (Some(HostEvent::Exists(found)), InitStage::Probe) => {
                if !found {
                    self.stage = InitStage::Report;
                    let delivery = message_callback(
                        &self.settings,
                        CSharpNativeString::new("Failed to find Coral.Managed.dll"),
                        MessageLevel::Error,
                    );
                    proof {
                        Self::lemma_report_is_clean();
                    }
                    InitStep::Perform(HostAction::Deliver(delivery))
                } else {
                    self.stage = InitStage::RuntimeConfig;
                    InitStep::Perform(
                        HostAction::InitializeForRuntimeConfig(SupportFile::RuntimeConfig),
                    )
                }
            },
            (Some(HostEvent::Succeeded), InitStage::Report) => {
                self.stage = InitStage::Idle;
                InitStep::Failed(CoralInitError::CoralManagedNotFound)
            },
            (Some(event), InitStage::Functions) => self.load_coral_functions(event),
            (
                Some(event),
                InitStage::RuntimeConfig
                | InitStage::DelegateLoader
                | InitStage::Entry
                | InitStage::Initialize,
            ) => self.initialize_coral_managed(event),
            _ => InitStep::Unexpected,
        }
    }

    /// The text of the message that the support assembly is missing holds
    /// no nul character, so all of it is delivered.
    proof fn lemma_report_is_clean()
        ensures
            before_nul("Failed to find Coral.Managed.dll"@) == "Failed to find Coral.Managed.dll"@,
    {
        let text = "Failed to find Coral.Managed.dll"@;
        reveal_strlit("Failed to find Coral.Managed.dll");
        assert(!text.contains('\0')) by {
            if text.contains('\0') {
                let k = choose|k: int| 0 <= k < text.len() && text[k] == '\0';
                assert(text[k] != '\0');
            }
        }
        crate::string::lemma_before_nul_keeps_clean_text(text);
    }

    /// Makes one step of bringing up the managed support. While something
    /// else is under way, every event is unexpected and changes nothing.
    pub fn initialize_coral_managed(&mut self, event: HostEvent) -> (step: InitStep)
        ensures
            if old(self).stage() == InitStage::RuntimeConfig || old(self).stage()
                == InitStage::DelegateLoader || old(self).stage() == InitStage::Entry
                || old(self).stage() == InitStage::Initialize {
                old(self).init_step(Some(event), final(self), step)
            } else {
                &&& step is Unexpected
                &&& old(self).moves_to(final(self), old(self).stage(), old(self).resolved())
            },
    {
        proof {
            use_type_invariant(&*self);
        }
        match (event, self.stage) {
            (HostEvent::Succeeded, InitStage::RuntimeConfig) => {
                self.stage = InitStage::DelegateLoader;
                InitStep::Perform(HostAction::GetDelegateLoader)
            },
            (HostEvent::Failed, InitStage::RuntimeConfig) => {
                self.stage = InitStage::Idle;
                InitStep::Failed(
                    CoralInitError::CoralManagedInitError(
                        CoralManagedInitError::CouldNotInitializeForRuntimeConfig,
                    ),
                )
            },
            (HostEvent::Succeeded, InitStage::DelegateLoader) => {
                self.stage = InitStage::Entry;
                InitStep::Perform(HostAction::ResolveInitialize)
            },
            (HostEvent::Failed, InitStage::DelegateLoader) => {
                self.stage = InitStage::Idle;
                InitStep::Failed(
                    CoralInitError::CoralManagedInitError(
                        CoralManagedInitError::FailedToGetDelegateLoader,
                    ),
                )
            },
            (HostEvent::Resolved(address), InitStage::Entry) => {
                if address == 0 {
                    self.stage = InitStage::Idle;
                    return InitStep::Failed(
                        CoralInitError::CoralManagedInitError(
                            CoralManagedInitError::CouldNotLoadFnPtr,
                        ),
                    );
                }
                self.addresses = Vec::new();
                self.stage = InitStage::Functions;
                match EntryPoint::from_index(0) {
                    Some(entry) => InitStep::Perform(HostAction::ResolveEntryPoint(entry)),
                    None => unreached(),
                }
            },
            (HostEvent::Failed, InitStage::Entry) => {
                self.stage = InitStage::Idle;
                InitStep::Failed(
                    CoralInitError::CoralManagedInitError(CoralManagedInitError::CouldNotLoadFnPtr),
                )
            },
            (HostEvent::Succeeded, InitStage::Initialize) => {
                let mut addresses: Vec<usize> = Vec::new();
                self.stage = InitStage::Idle;
                std::mem::swap(&mut addresses, &mut self.addresses);
                match CoralManagedFunctions::new(addresses) {
                    Some(managed_functions) => InitStep::Done(
                        HostInstance {
                            settings: self.settings.clone(),
                            managed_functions,
                            type_cache: TypeCache::new(),
                        },
                    ),
                    None => unreached(),
                }
            },
            _ => InitStep::Unexpected,
        }
    }

    /// Makes one step of resolving the function table: takes in the outcome
    /// for one entry point and asks for the next. While something else is
    /// under way, every event is unexpected and changes nothing.
    pub fn load_coral_functions(&mut self, event: HostEvent) -> (step: InitStep)
        ensures
            if old(self).stage() == InitStage::Functions {
                old(self).init_step(Some(event), final(self), step)
            } else {
                &&& step is Unexpected
                &&& old(self).moves_to(final(self), old(self).stage(), old(self).resolved())
            },
    {
        proof {
            use_type_invariant(&*self);
        }
        match self.stage {
            InitStage::Functions => {},
            _ => {
                return InitStep::Unexpected;
            },
        }
        match event {
            HostEvent::Resolved(address) => {
                if address == 0 {
                    self.stage = InitStage::Idle;
                    return InitStep::Failed(
                        CoralInitError::CoralManagedInitError(
                            CoralManagedInitError::CouldNotLoadCoralFunctions,
                        ),
                    );
                }
                let mut addresses: Vec<usize> = Vec::new();
                std::mem::swap(&mut addresses, &mut self.addresses);
                addresses.push(address);
                match EntryPoint::from_index(addresses.len()) {
                    Some(entry) => {
                        self.addresses = addresses;
                        InitStep::Perform(HostAction::ResolveEntryPoint(entry))
                    },
                    None => {
                        self.stage = InitStage::Idle;
                        self.addresses = addresses;
                        self.stage = InitStage::Initialize;
                        InitStep::Perform(HostAction::CallInitialize)
                    },
                }
            },
            HostEvent::Failed => {
                self.stage = InitStage::Idle;
                InitStep::Failed(
                    CoralInitError::CoralManagedInitError(
                        CoralManagedInitError::CouldNotLoadCoralFunctions,
                    ),
                )
            },
            _ => InitStep::Unexpected,
        }
    }
}

impl HostInstance {
    /// The settings of the session.
    pub closed spec fn spec_settings(&self) -> HostSettings {
        self.settings
    }

    /// The function table of the session.
    pub closed spec fn spec_functions(&self) -> CoralManagedFunctions {
        self.managed_functions
    }

    /// The type cache of the session.
    pub closed spec fn spec_cache(&self) -> TypeCache {
        self.type_cache
    }

    /// Begins to set up a session with these settings. Nothing is under way
    /// yet: the first step starts it.
    pub fn initialize(settings: HostSettings) -> (initialization: Initialization)
        ensures
            initialization.settings() == settings,
            initialization.stage() == InitStage::Idle,
            initialization.resolved() == Seq::<usize>::empty(),
    {
        Initialization { settings, stage: InitStage::Idle, addresses: Vec::new() }
    }

    /// Asks the managed side for a fresh context under `name`, and makes the
    /// context of the identifier that comes back.
    pub fn create_assembly_load_context(&self, name: &str, reply: Option<ManagedReply>) -> (step:
        Step<AssemblyLoadContext>)
        ensures
            match reply {
                None => step matches Step::Call(
                    ManagedCall::CreateAssemblyLoadContext { name: sent },
                ) && sent@ == Some(before_nul(name@)),
                Some(ManagedReply::Int(id)) => {
                    &&& step matches Step::Done(context)
                    &&& context.spec_context_id() == id
                    &&& context.loaded().len() == 0
                    &&& context.progress() is None
                },
                Some(_) => step == Step::<AssemblyLoadContext>::Failed(
                    ProtocolError::UnexpectedReply,
                ),
            },
    {
        match reply {
            None => {
                let name = ScopedCSharpNativeString::from_str(name);
                Step::Call(ManagedCall::CreateAssemblyLoadContext { name: name.inner() })
            },
            Some(ManagedReply::Int(id)) => Step::Done(AssemblyLoadContext::new(id)),
            Some(_) => Step::Failed(ProtocolError::UnexpectedReply),
        }
    }

    /// The settings of the session.
    pub fn settings(&self) -> (settings: &HostSettings)
        ensures
            *settings == self.spec_settings(),
    {
        &self.settings
    }

    /// The type cache of the session, to look types up.
    pub fn type_cache(&self) -> (cache: &TypeCache)
        ensures
            *cache == self.spec_cache(),
    {
        &self.type_cache
    }

    /// The type cache of the session, to enter types. Settings and function
    /// table stay as they are.
    pub fn type_cache_mut(&mut self) -> (cache: &mut TypeCache)
        ensures
            *cache == old(self).spec_cache(),
            final(self).spec_cache() == *final(cache),
            final(self).spec_settings() == old(self).spec_settings(),
            final(self).spec_functions() == old(self).spec_functions(),
    {
        &mut self.type_cache
    }

    /// The call that unloads a context, and with it every assembly that was
    /// loaded through it. It takes the context, so that a context is
    /// unloaded once and not used after.
    pub fn unload_assembly_load_context(&self, assembly_load_context: AssemblyLoadContext) -> (call:
        ManagedCall)
        ensures
            call == (ManagedCall::UnloadAssemblyLoadContext {
                context_id: assembly_load_context.spec_context_id(),
            }),
    {
        ManagedCall::UnloadAssemblyLoadContext { context_id: assembly_load_context.context_id() }
    }

    /// The function table of the session. It is whole, and nothing can
    /// change it.
    pub fn managed_functions(&self) -> (table: &CoralManagedFunctions)
        ensures
            *table == self.spec_functions(),
    {
        &self.managed_functions
    }
}

} // verus!
