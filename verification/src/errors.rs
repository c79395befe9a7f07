//! Error type shared by every operation of the crate.
//!
//! Errors carry a category, a human-readable message, optional context
//! naming the resource involved, a default recoverability judgement derived
//! from the category, and an optional recovery hint.

use vstd::prelude::*;

verus! {

/// Error categories for the different kinds of failures.
#[derive(Debug, Clone, Copy, PartialEq, Eq, Structural)]
pub enum ErrorKind {
    /// The sync daemon is not running.
    NotRunning,
    /// Network or HTTP communication failure.
    Network,
    /// Failed to parse response data.
    Parse,
    /// A process or system operation failed.
    Process,
    /// Configuration error.
    Config,
    /// A resource (device, folder, file) was not found.
    NotFound,
    /// A resource already exists.
    AlreadyExists,
    /// Validation failed.
    Validation,
    /// Lock acquisition failed.
    Lock,
}

/// Whether errors of this category are retried by default: only a daemon
/// that is not running, a network hiccup, or a busy lock clear up on their
/// own.
pub open spec fn default_recoverable(kind: ErrorKind) -> bool {
    kind == ErrorKind::NotRunning || kind == ErrorKind::Network || kind == ErrorKind::Lock
}

/// Error with context and recoverability information.
#[derive(Debug, Clone)]
pub struct SyncthingError {
    /// The category of error.
    pub kind: ErrorKind,
    /// Human-readable error message.
    pub message: String,
    /// Additional context (e.g. which resource failed).
    pub context: Option<String>,
    /// Whether this error is potentially recoverable via retry.
    pub recoverable: bool,
    /// Suggested action for recovery.
    pub recovery_hint: Option<String>,
}

impl SyncthingError {
    /// Create a new error with the given kind and message.
    pub fn new(kind: ErrorKind, message: &str) -> (r: Self)
        ensures
            r.kind == kind,
            r.message@ == message@,
            r.context is None,
            r.recoverable == default_recoverable(kind),
            r.recovery_hint is None,
    {
        let recoverable = match kind {
            ErrorKind::NotRunning => true,
            ErrorKind::Network => true,
            ErrorKind::Lock => true,
            _ => false,
        };
        SyncthingError {
            kind,
            message: message.to_owned(),
            context: None,
            recoverable,
            recovery_hint: None,
        }
    }

    /// Add context to the error (e.g. which resource failed).
    pub fn with_context(self, context: &str) -> (r: Self)
        ensures
            r.kind == self.kind,
            r.message@ == self.message@,
            r.context is Some && r.context->0@ == context@,
            r.recoverable == self.recoverable,
            r.recovery_hint == self.recovery_hint,
    {
        SyncthingError { context: Some(context.to_owned()), ..self }
    }

    /// Override the default recoverability.
    pub fn with_recoverable(self, recoverable: bool) -> (r: Self)
        ensures
            r.kind == self.kind,
            r.message@ == self.message@,
            r.context == self.context,
            r.recoverable == recoverable,
            r.recovery_hint == self.recovery_hint,
    {
        SyncthingError { recoverable, ..self }
    }

    /// Add a recovery hint.
    pub fn with_recovery_hint(self, hint: &str) -> (r: Self)
        ensures
            r.kind == self.kind,
            r.message@ == self.message@,
            r.context == self.context,
            r.recoverable == self.recoverable,
            r.recovery_hint is Some && r.recovery_hint->0@ == hint@,
    {
        SyncthingError { recovery_hint: Some(hint.to_owned()), ..self }
    }

    /// The daemon is not running.
    pub fn not_running() -> (r: Self)
        ensures
            r.kind == ErrorKind::NotRunning,
            r.message@ == "Syncthing is not running"@,
            r.context is None,
            r.recoverable,
            r.recovery_hint is Some
                && r.recovery_hint->0@ == "Start Syncthing or wait for it to initialize"@,
    {
        Self::new(ErrorKind::NotRunning, "Syncthing is not running")
            .with_recovery_hint("Start Syncthing or wait for it to initialize")
    }

    /// Network/HTTP failure.
    pub fn http(message: &str) -> (r: Self)
        ensures
            r.kind == ErrorKind::Network,
            r.message@ == message@,
            r.context is None,
            r.recoverable,
            r.recovery_hint is Some
                && r.recovery_hint->0@ == "Check network connectivity and Syncthing status"@,
    {
        Self::new(ErrorKind::Network, message)
            .with_recovery_hint("Check network connectivity and Syncthing status")
    }

    /// Failed to parse data.
    pub fn parse(message: &str) -> (r: Self)
        ensures
            r.kind == ErrorKind::Parse,
            r.message@ == message@,
            r.context is None,
            !r.recoverable,
            r.recovery_hint is None,
    {
        Self::new(ErrorKind::Parse, message)
    }

    /// A process or filesystem operation failed.
    pub fn process(message: &str) -> (r: Self)
        ensures
            r.kind == ErrorKind::Process,
            r.message@ == message@,
            r.context is None,
            !r.recoverable,
            r.recovery_hint is None,
    {
        Self::new(ErrorKind::Process, message)
    }

    /// Configuration error.
    pub fn config(message: &str) -> (r: Self)
        ensures
            r.kind == ErrorKind::Config,
            r.message@ == message@,
            r.context is None,
            !r.recoverable,
            r.recovery_hint is None,
    {
        Self::new(ErrorKind::Config, message)
    }

    /// A named resource was not found.
    pub fn not_found(resource: &str) -> (r: Self)
        ensures
            r.kind == ErrorKind::NotFound,
            r.message@ == resource@ + " not found"@,
            r.context is None,
            !r.recoverable,
            r.recovery_hint is None,
    {
        let mut message = resource.to_owned();
        message.append(" not found");
        Self::new(ErrorKind::NotFound, message.as_str()).with_recoverable(false)
    }

    /// A named resource already exists.
    pub fn already_exists(resource: &str) -> (r: Self)
        ensures
            r.kind == ErrorKind::AlreadyExists,
            r.message@ == resource@ + " already exists"@,
            r.context is None,
            !r.recoverable,
            r.recovery_hint is None,
    {
        let mut message = resource.to_owned();
        message.append(" already exists");
        Self::new(ErrorKind::AlreadyExists, message.as_str()).with_recoverable(false)
    }

    /// Validation failed.
    pub fn validation(message: &str) -> (r: Self)
        ensures
            r.kind == ErrorKind::Validation,
            r.message@ == message@,
            r.context is None,
            !r.recoverable,
            r.recovery_hint is None,
    {
        Self::new(ErrorKind::Validation, message).with_recoverable(false)
    }

    /// Lock acquisition failed.
    pub fn lock(message: &str) -> (r: Self)
        ensures
            r.kind == ErrorKind::Lock,
            r.message@ == message@,
            r.context is None,
            r.recoverable,
            r.recovery_hint is Some
                && r.recovery_hint->0@ == "Retry the operation after a short delay"@,
    {
        Self::new(ErrorKind::Lock, message)
            .with_recovery_hint("Retry the operation after a short delay")
    }

    /// The message with its context appended, as the error is displayed to a
    /// user: `message (context)` when context is present, plain `message`
    /// otherwise.
    pub fn display_string(&self) -> (r: String)
        ensures
            self.context is Some ==> r@ == self.message@ + " ("@ + self.context->0@ + ")"@,
            self.context is None ==> r@ == self.message@,
    {
        match &self.context {
            Some(ctx) => {
                let mut r = self.message.clone();
                r.append(" (");
                r.append(ctx.as_str());
                r.append(")");
                r
            },
            None => self.message.clone(),
        }
    }
}

} // verus!
