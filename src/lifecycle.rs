use vstd::prelude::*;
use crate::liveness::{
    build_button_reset, build_offline_message, build_online_message, is_button_reset,
    is_offline_message, is_online_message,
};
use crate::message::{BusMessage, DeviceProfile};

verus! {

/// Exit status of a clean, interrupt-driven shutdown.
pub const EXIT_CLEAN: i32 = 0;

/// Exit status when the first connect fails.
pub const EXIT_CONNECT_FAILED: i32 = 1;

/// Bound on the final disconnect, in milliseconds.
pub const DISCONNECT_TIMEOUT_MS: u64 = 1000;

/// One step of shutting down, in order.
#[derive(Debug)]
pub enum ShutdownStep {
    /// Set the shared flag so that the control loop and the reconnect policy
    /// stop rather than retry.
    RaiseStopFlag,
    /// Publish, best effort: a failure is swallowed.
    Publish(BusMessage),
    /// Disconnect, waiting at most this many milliseconds.
    Disconnect(u64),
}

/// How a shutdown ends once the disconnect has been tried.
#[derive(PartialEq, Eq, Structural, Clone, Copy, Debug)]
pub enum ShutdownEnd {
    /// Confirm and end the process with this status.
    Exit(i32),
    /// The disconnect failed: stop with a diagnostic instead of hanging.
    Abort,
}

/// The shutdown sequence: raise the flag, publish "offline", disconnect
/// within the bound.
pub open spec fn is_shutdown_plan(p: &DeviceProfile, s: Seq<ShutdownStep>) -> bool {
    &&& s.len() == 3
    &&& s[0] is RaiseStopFlag
    &&& s[1] is Publish && is_offline_message(p, s[1]->Publish_0)
    &&& s[2] == ShutdownStep::Disconnect(DISCONNECT_TIMEOUT_MS)
}

/// What is published right after the first connect: "online", then the
/// button reset.
pub open spec fn is_startup_publishes(p: &DeviceProfile, s: Seq<BusMessage>) -> bool {
    &&& s.len() == 2
    &&& is_online_message(p, s[0])
    &&& is_button_reset(p, s[1])
}

/// The steps to run when the interrupt signal arrives.
pub fn shutdown_steps(p: &DeviceProfile) -> (r: Vec<ShutdownStep>)
    ensures
        is_shutdown_plan(p, r@),
{
    let mut r: Vec<ShutdownStep> = Vec::new();
    r.push(ShutdownStep::RaiseStopFlag);
    r.push(ShutdownStep::Publish(build_offline_message(p)));
    r.push(ShutdownStep::Disconnect(DISCONNECT_TIMEOUT_MS));
    r
}

/// Ends the shutdown: exit cleanly when the disconnect went through, abort
/// otherwise.
pub fn finish_shutdown(disconnected: bool) -> (r: ShutdownEnd)
    ensures
        disconnected ==> r == ShutdownEnd::Exit(EXIT_CLEAN),
        !disconnected ==> r == ShutdownEnd::Abort,
{
    if disconnected {
        ShutdownEnd::Exit(EXIT_CLEAN)
    } else {
        ShutdownEnd::Abort
    }
}

/// After the first connect: the messages to publish once connected, or the
/// exit status when the connect failed. Nothing is announced before a
/// successful connect.
pub fn after_connect(p: &DeviceProfile, connected: bool) -> (r: Result<Vec<BusMessage>, i32>)
    ensures
        connected ==> r is Ok && is_startup_publishes(p, r->Ok_0@),
        !connected ==> r == Err::<Vec<BusMessage>, i32>(EXIT_CONNECT_FAILED),
{
    if connected {
        let mut v: Vec<BusMessage> = Vec::new();
        v.push(build_online_message(p));
        v.push(build_button_reset(p));
        Ok(v)
    } else {
        Err(EXIT_CONNECT_FAILED)
    }
}

/// In a shutdown sequence, every disconnect comes after the offline message
/// was published, and the online message is never published.
pub proof fn offline_before_disconnect(p: &DeviceProfile, s: Seq<ShutdownStep>)
    requires
        is_shutdown_plan(p, s),
    ensures
        forall|j: int| 0 <= j < s.len() && #[trigger] s[j] is Disconnect ==> exists|i: int|
            0 <= i < j && #[trigger] s[i] is Publish && is_offline_message(p, s[i]->Publish_0),
        forall|i: int| 0 <= i < s.len() && #[trigger] s[i] is Publish ==> !is_online_message(p, s[i]->Publish_0),
{
    assert forall|j: int| 0 <= j < s.len() && #[trigger] s[j] is Disconnect implies exists|i: int|
        0 <= i < j && #[trigger] s[i] is Publish && is_offline_message(p, s[i]->Publish_0) by {
        assert(j == 2);
        assert(s[1] is Publish);
    }
    assert forall|i: int| 0 <= i < s.len() && #[trigger] s[i] is Publish implies !is_online_message(p, s[i]->Publish_0) by {
        assert(i == 1);
        reveal_strlit("0");
        reveal_strlit("1");
        assert("0"@[0] != "1"@[0]);
    }
}

} // verus!
