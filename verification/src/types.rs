//! Data carried by a notification, the errors of the engine, and the
//! effects (timer commands, closed signals) that the engine hands back
//! to its caller.

use vstd::prelude::*;

verus! {

/// Dynamically typed value of a notification hint: one of the variant
/// set the transport boundary decodes hints into.
#[derive(Debug)]
pub enum HintValue {
    Bool(bool),
    Int32(i32),
    Byte(u8),
    Text(String),
    Bytes(Vec<u8>),
    Absent,
}

/// Mathematical form of a hint value.
pub enum HintValueModel {
    Bool(bool),
    Int32(i32),
    Byte(u8),
    Text(Seq<char>),
    Bytes(Seq<u8>),
    Absent,
}

impl View for HintValue {
    type V = HintValueModel;

    open spec fn view(&self) -> HintValueModel {
        match self {
            HintValue::Bool(b) => HintValueModel::Bool(*b),
            HintValue::Int32(n) => HintValueModel::Int32(*n),
            HintValue::Byte(b) => HintValueModel::Byte(*b),
            HintValue::Text(s) => HintValueModel::Text(s@),
            HintValue::Bytes(b) => HintValueModel::Bytes(b@),
            HintValue::Absent => HintValueModel::Absent,
        }
    }
}

/// A notification as submitted by a caller. `replaces_id == 0` asks for a
/// fresh identity; a non-zero `replaces_id` replaces (or revives) that id.
/// `actions` is interpreted in pairs (key, localized label). `expire_timeout`
/// is in milliseconds: `-1` (or any negative value) means "use the engine
/// default", `0` means "never expire automatically".
#[derive(Debug)]
pub struct Notification {
    pub app_name: String,
    pub replaces_id: u32,
    pub app_icon: String,
    pub summary: String,
    pub body: String,
    pub actions: Vec<String>,
    pub hints: Vec<(String, HintValue)>,
    pub expire_timeout: i32,
}

/// Mathematical form of a notification.
#[verifier::ext_equal]
pub struct NotificationModel {
    pub app_name: Seq<char>,
    pub replaces_id: u32,
    pub app_icon: Seq<char>,
    pub summary: Seq<char>,
    pub body: Seq<char>,
    pub actions: Seq<Seq<char>>,
    pub hints: Seq<(Seq<char>, HintValueModel)>,
    pub expire_timeout: i32,
}

impl View for Notification {
    type V = NotificationModel;

    open spec fn view(&self) -> NotificationModel {
        NotificationModel {
            app_name: self.app_name@,
            replaces_id: self.replaces_id,
            app_icon: self.app_icon@,
            summary: self.summary@,
            body: self.body@,
            actions: self.actions@.map_values(|s: String| s@),
            hints: self.hints@.map_values(|p: (String, HintValue)| (p.0@, p.1@)),
            expire_timeout: self.expire_timeout,
        }
    }
}

/// The one caller-visible error of the engine: a malformed argument
/// (an action list of odd length). Everything else is either absorbed
/// as a no-op or resolved internally.
#[derive(Clone, Copy, PartialEq, Eq, Structural, Debug)]
pub enum EngineError {
    InvalidArgument,
}

impl EngineError {
    /// Short description, for the caller-facing boundary to report.
    pub fn message(&self) -> (r: &'static str)
        ensures
            r@ == "invalid argument: actions must come in (key, label) pairs"@,
    {
        "invalid argument: actions must come in (key, label) pairs"
    }
}

/// Reason a notification was closed, as reported in the closed signal.
#[derive(Clone, Copy, PartialEq, Eq, Structural, Debug)]
pub enum CloseReason {
    Expired,
    DismissedByUser,
    DismissedByRequest,
    Undefined,
}

impl CloseReason {
    /// Numeric code of the reason in the closed signal, as the
    /// notification interface defines it.
    pub fn code(&self) -> (r: u32)
        ensures
            r == match *self {
                CloseReason::Expired => 1u32,
                CloseReason::DismissedByUser => 2u32,
                CloseReason::DismissedByRequest => 3u32,
                CloseReason::Undefined => 4u32,
            },
    {
        match *self {
            CloseReason::Expired => 1,
            CloseReason::DismissedByUser => 2,
            CloseReason::DismissedByRequest => 3,
            CloseReason::Undefined => 4,
        }
    }
}

/// An outbound closed signal the caller must emit: the terminal event of
/// one notification's lifecycle.
#[derive(Clone, Copy, PartialEq, Eq, Structural, Debug)]
pub struct ClosedSignal {
    pub id: u32,
    pub reason: CloseReason,
}

/// What the caller must do about the expiry timer after a notify call:
/// either nothing, or arm a one-shot timer of `delay_ms` milliseconds that,
/// on elapsing, reports back `timer_fired(id, gen)`.
#[derive(Clone, Copy, PartialEq, Eq, Structural, Debug)]
pub enum TimerCmd {
    NoTimer,
    Arm { id: u32, gen: u64, delay_ms: u32 },
}

/// Result of a successful notify call: the id under which the notification
/// is now stored, and the timer the caller must arm for it, if any.
#[derive(Clone, Copy, PartialEq, Eq, Structural, Debug)]
pub struct NotifyOutcome {
    pub id: u32,
    pub timer: TimerCmd,
}

} // verus!
