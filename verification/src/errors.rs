//! # Domain errors
//!
//! `DomainError` is the engine-wide error every constructor and
//! service returns. `CommunicationError` anchors the
//! communication-domain vocabulary; its helpers wrap each signal into
//! the `DomainError` variant the dispatcher expects.
use vstd::prelude::*;
use vstd::string::*;

verus! {

/// The engine-wide error value.
#[derive(Debug, Clone, PartialEq, Eq)]
pub enum DomainError {
    /// A domain invariant or input validation failed.
    Validation(String),
    /// The request conflicts with the current state.
    Conflict(String),
    /// A referenced resource does not exist.
    NotFound(String),
    /// The actor lacks the required capability.
    Forbidden(String),
    /// The operation is not supported (yet).
    NotSupported(String),
}

/// Copies a message into an owned string.
pub(crate) fn owned(msg: &str) -> (s: String)
    ensures
        s@ == msg@,
{
    msg.to_owned()
}

/// Joins a prefix and a message.
pub(crate) fn prefixed(prefix: &str, msg: &str) -> (s: String)
    ensures
        s@ == prefix@ + msg@,
{
    let s = prefix.to_owned();
    s.concat(msg)
}

impl DomainError {
    /// A `Validation` error with the given message.
    pub fn validation(msg: &str) -> (e: DomainError)
        ensures
            e matches DomainError::Validation(m) && m@ == msg@,
    {
        DomainError::Validation(owned(msg))
    }

    /// A `Conflict` error with the given message.
    pub fn conflict(msg: &str) -> (e: DomainError)
        ensures
            e matches DomainError::Conflict(m) && m@ == msg@,
    {
        DomainError::Conflict(owned(msg))
    }

    /// A `NotFound` error with the given message.
    pub fn not_found(msg: &str) -> (e: DomainError)
        ensures
            e matches DomainError::NotFound(m) && m@ == msg@,
    {
        DomainError::NotFound(owned(msg))
    }

    /// A `Forbidden` error with the given message.
    pub fn forbidden(msg: &str) -> (e: DomainError)
        ensures
            e matches DomainError::Forbidden(m) && m@ == msg@,
    {
        DomainError::Forbidden(owned(msg))
    }

    /// A `NotSupported` error with the given message.
    pub fn not_supported(msg: &str) -> (e: DomainError)
        ensures
            e matches DomainError::NotSupported(m) && m@ == msg@,
    {
        DomainError::NotSupported(owned(msg))
    }

    /// Whether this is a `Validation` error.
    pub fn is_validation(&self) -> (b: bool)
        ensures
            b == (*self is Validation),
    {
        matches!(self, DomainError::Validation(_))
    }

    /// Whether this is a `Conflict` error.
    pub fn is_conflict(&self) -> (b: bool)
        ensures
            b == (*self is Conflict),
    {
        matches!(self, DomainError::Conflict(_))
    }

    /// Whether this is a `Forbidden` error.
    pub fn is_forbidden(&self) -> (b: bool)
        ensures
            b == (*self is Forbidden),
    {
        matches!(self, DomainError::Forbidden(_))
    }
}

/// The communication-domain error vocabulary. Most signals travel as
/// `DomainError` values; the helpers below produce them.
#[derive(Debug, Clone, PartialEq, Eq)]
pub enum CommunicationError {
    /// A domain invariant was violated.
    Validation(String),
    /// A state-machine conflict.
    Conflict(String),
    /// A referenced resource was not found.
    NotFound(String),
    /// The actor lacks the required capability.
    Forbidden(String),
    /// A template body has unresolved placeholders.
    TemplateRender(String),
    /// No active email/SMS gateway is configured for the channel.
    ChannelUnavailable(String),
    /// A notification setting is misconfigured.
    SettingMisconfigured(String),
    /// An anonymous complaint carries an identity.
    AnonymousRequiresNoIdentity(String),
    /// A notice that recipients already received cannot be deleted.
    NoticeHasRecipients(String),
    /// The sender is blocked by the recipient (or vice versa).
    ChatBlocked(String),
    /// Generic catch-all.
    Other(String),
}

impl CommunicationError {
    /// Wraps a `Validation` signal.
    pub fn validation(msg: &str) -> (e: DomainError)
        ensures
            e matches DomainError::Validation(m) && m@ == msg@,
    {
        DomainError::Validation(owned(msg))
    }

    /// Wraps a `Conflict` signal.
    pub fn conflict(msg: &str) -> (e: DomainError)
        ensures
            e matches DomainError::Conflict(m) && m@ == msg@,
    {
        DomainError::Conflict(owned(msg))
    }

    /// Wraps a `NotFound` signal.
    pub fn not_found(msg: &str) -> (e: DomainError)
        ensures
            e matches DomainError::NotFound(m) && m@ == msg@,
    {
        DomainError::NotFound(owned(msg))
    }

    /// Wraps a `Forbidden` signal.
    pub fn forbidden(msg: &str) -> (e: DomainError)
        ensures
            e matches DomainError::Forbidden(m) && m@ == msg@,
    {
        DomainError::Forbidden(owned(msg))
    }

    /// Wraps a `TemplateRender` signal into a `Validation` error.
    pub fn template_render(msg: &str) -> (e: DomainError)
        ensures
            e matches DomainError::Validation(m) && m@ == "template render: "@ + msg@,
    {
        DomainError::Validation(prefixed("template render: ", msg))
    }

    /// Wraps a `ChannelUnavailable` signal into a `Conflict` error.
    pub fn channel_unavailable(msg: &str) -> (e: DomainError)
        ensures
            e matches DomainError::Conflict(m) && m@ == "channel unavailable: "@ + msg@,
    {
        DomainError::Conflict(prefixed("channel unavailable: ", msg))
    }

    /// Wraps a `SettingMisconfigured` signal into a `Validation` error.
    pub fn setting_misconfigured(msg: &str) -> (e: DomainError)
        ensures
            e matches DomainError::Validation(m) && m@ == "setting misconfigured: "@ + msg@,
    {
        DomainError::Validation(prefixed("setting misconfigured: ", msg))
    }

    /// Wraps an `AnonymousRequiresNoIdentity` signal into a `Validation` error.
    pub fn anonymous_requires_no_identity(msg: &str) -> (e: DomainError)
        ensures
            e matches DomainError::Validation(m) && m@ == "anonymous requires no identity: "@
                + msg@,
    {
        DomainError::Validation(prefixed("anonymous requires no identity: ", msg))
    }

    /// Wraps a `NoticeHasRecipients` signal into a `Conflict` error.
    pub fn notice_has_recipients(msg: &str) -> (e: DomainError)
        ensures
            e matches DomainError::Conflict(m) && m@ == "notice has recipients: "@ + msg@,
    {
        DomainError::Conflict(prefixed("notice has recipients: ", msg))
    }

    /// Wraps a `ChatBlocked` signal into a `Conflict` error.
    pub fn chat_blocked(msg: &str) -> (e: DomainError)
        ensures
            e matches DomainError::Conflict(m) && m@ == "chat blocked: "@ + msg@,
    {
        DomainError::Conflict(prefixed("chat blocked: ", msg))
    }

    /// Wraps a generic `Other` signal into a `Validation` error.
    pub fn other(msg: &str) -> (e: DomainError)
        ensures
            e matches DomainError::Validation(m) && m@ == msg@,
    {
        DomainError::Validation(owned(msg))
    }
}

} // verus!
