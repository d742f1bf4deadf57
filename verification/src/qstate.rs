//! Q-method (RFC 1143) option state for one side and for both sides of a channel.

use vstd::prelude::*;

verus! {

/// The state of an option on one side of the connection.
#[derive(Debug, Clone, Copy, PartialEq, Eq, Structural)]
pub enum QStateUni {
    Disabled,
    AwaitEnable,
    Enabled,
    AwaitDisable,
}

/// Whether an option counts as enabled: it is enabled, or a request to
/// disable it is still pending.
pub open spec fn uni_enabled(s: QStateUni) -> bool {
    s == QStateUni::Enabled || s == QStateUni::AwaitDisable
}

impl QStateUni {
    pub fn is_enabled(self) -> (r: bool)
        ensures
            r == uni_enabled(self),
            r <==> (self == QStateUni::Enabled || self == QStateUni::AwaitDisable),
    {
        match self {
            QStateUni::Enabled => true,
            QStateUni::AwaitDisable => true,
            _ => false,
        }
    }

    pub fn is_disabled(self) -> (r: bool)
        ensures
            r == !uni_enabled(self),
            r <==> (self == QStateUni::Disabled || self == QStateUni::AwaitEnable),
    {
        !self.is_enabled()
    }
}

/// Which side of the connection an option concerns.
#[derive(Debug, Clone, Copy, PartialEq, Eq, Structural)]
pub enum QAttitude {
    Local,
    Remote,
}

/// The option state of both sides.
#[derive(Debug, Clone, Copy, PartialEq, Eq, Structural)]
pub struct QState {
    pub local: QStateUni,
    pub remote: QStateUni,
}

/// The state a fresh option starts in: disabled on both sides.
pub open spec fn initial_qstate() -> QState {
    QState { local: QStateUni::Disabled, remote: QStateUni::Disabled }
}

/// Whether the option is active for the given side.
pub open spec fn qstate_active(q: QState, attitude: QAttitude) -> bool {
    match attitude {
        QAttitude::Local => uni_enabled(q.local),
        QAttitude::Remote => uni_enabled(q.remote),
    }
}

impl QState {
    pub fn new() -> (q: QState)
        ensures
            q == initial_qstate(),
    {
        QState { local: QStateUni::Disabled, remote: QStateUni::Disabled }
    }

    pub fn is_active(&self, attitude: QAttitude) -> (r: bool)
        ensures
            r == qstate_active(*self, attitude),
            attitude == QAttitude::Local ==> (r <==> (self.local == QStateUni::Enabled
                || self.local == QStateUni::AwaitDisable)),
            attitude == QAttitude::Remote ==> (r <==> (self.remote == QStateUni::Enabled
                || self.remote == QStateUni::AwaitDisable)),
    {
        match attitude {
            QAttitude::Local => self.local.is_enabled(),
            QAttitude::Remote => self.remote.is_enabled(),
        }
    }
}

/// An option counts as enabled exactly when it is enabled or a request to
/// disable it is pending; disabled, or with a request to enable it pending,
/// it does not.
pub proof fn lemma_enabled_states(s: QStateUni)
    ensures
        uni_enabled(QStateUni::Enabled),
        uni_enabled(QStateUni::AwaitDisable),
        !uni_enabled(QStateUni::Disabled),
        !uni_enabled(QStateUni::AwaitEnable),
        uni_enabled(s) <==> (s == QStateUni::Enabled || s == QStateUni::AwaitDisable),
{
}

/// Whether an option is active for a side depends on that side's state
/// alone: it is whether that side counts as enabled, whatever the other
/// side's state.
pub proof fn lemma_active_reads_its_side(q: QState, other: QStateUni)
    ensures
        qstate_active(q, QAttitude::Local) <==> (q.local == QStateUni::Enabled
            || q.local == QStateUni::AwaitDisable),
        qstate_active(q, QAttitude::Remote) <==> (q.remote == QStateUni::Enabled
            || q.remote == QStateUni::AwaitDisable),
        qstate_active(QState { local: q.local, remote: other }, QAttitude::Local)
            == qstate_active(q, QAttitude::Local),
        qstate_active(QState { local: other, remote: q.remote }, QAttitude::Remote)
            == qstate_active(q, QAttitude::Remote),
{
}

/// A fresh option state is active on neither side.
pub proof fn lemma_new_is_inactive(attitude: QAttitude)
    ensures
        !qstate_active(initial_qstate(), attitude),
{
}

} // verus!
