//! The life of the daemon, from the check of its session to the removal of its socket.
use vstd::prelude::*;

verus! {

/// What the daemon does next.
#[derive(Clone, Copy, Debug, PartialEq, Eq, Structural)]
pub enum DaemonStage {
    /// Look for the session.
    CheckSession,
    /// Make a client that is authorized.
    CreateClient,
    /// Take the socket.
    BindSocket,
    /// Hand out updates until a signal or a failure ends it.
    Serve,
    /// Wait for the thread that receives updates.
    StopReceiver,
    /// Remove the socket.
    RemoveSocket,
    /// There is nothing left to do.
    Finished,
}

impl DaemonStage {
    /// What comes after this stage, which succeeded or not.
    pub open spec fn following(self, succeeded: bool) -> DaemonStage {
        match self {
            DaemonStage::CheckSession => if succeeded {
                DaemonStage::CreateClient
            } else {
                DaemonStage::Finished
            },
            DaemonStage::CreateClient => if succeeded {
                DaemonStage::BindSocket
            } else {
                DaemonStage::Finished
            },
            DaemonStage::BindSocket => if succeeded {
                DaemonStage::Serve
            } else {
                DaemonStage::Finished
            },
            DaemonStage::Serve => DaemonStage::StopReceiver,
            DaemonStage::StopReceiver => DaemonStage::RemoveSocket,
            DaemonStage::RemoveSocket => DaemonStage::Finished,
            DaemonStage::Finished => DaemonStage::Finished,
        }
    }

    /// Whether a failure of this stage is the failure of the command; one of the others is only
    /// warned of.
    pub open spec fn decides(self) -> bool {
        self == DaemonStage::CheckSession || self == DaemonStage::CreateClient || self
            == DaemonStage::BindSocket || self == DaemonStage::Serve
    }

    /// What comes after this stage.
    pub fn next(self, succeeded: bool) -> (stage: DaemonStage)
        ensures
            stage == self.following(succeeded),
    {
        match self {
            DaemonStage::CheckSession => if succeeded {
                DaemonStage::CreateClient
            } else {
                DaemonStage::Finished
            },
            DaemonStage::CreateClient => if succeeded {
                DaemonStage::BindSocket
            } else {
                DaemonStage::Finished
            },
            DaemonStage::BindSocket => if succeeded {
                DaemonStage::Serve
            } else {
                DaemonStage::Finished
            },
            DaemonStage::Serve => DaemonStage::StopReceiver,
            DaemonStage::StopReceiver => DaemonStage::RemoveSocket,
            DaemonStage::RemoveSocket => DaemonStage::Finished,
            DaemonStage::Finished => DaemonStage::Finished,
        }
    }

    /// Whether a failure of this stage is the failure of the command.
    pub fn fails_command(self) -> (fails: bool)
        ensures
            fails == self.decides(),
    {
        match self {
            DaemonStage::CheckSession
            | DaemonStage::CreateClient
            | DaemonStage::BindSocket
            | DaemonStage::Serve => true,
            _ => false,
        }
    }
}

/// The stages that a daemon goes through where `succeeds` says of each stage whether it succeeds.
pub open spec fn life(stage: DaemonStage, succeeds: spec_fn(DaemonStage) -> bool, steps: nat) -> Seq<
    DaemonStage,
>
    decreases steps,
{
    if steps == 0 || stage == DaemonStage::Finished {
        seq![stage]
    } else {
        seq![stage] + life(stage.following(succeeds(stage)), succeeds, (steps - 1) as nat)
    }
}

/// The life of a daemon in full: it ends after six stages at most.
pub open spec fn daemon_life(succeeds: spec_fn(DaemonStage) -> bool) -> Seq<DaemonStage> {
    life(DaemonStage::CheckSession, succeeds, 6)
}

/// Whatever fails, a daemon comes to its end; it makes a client only for an existing session;
/// and where it took the socket, it stops its receiver and removes the socket before it ends.
pub proof fn daemons_clean_up(succeeds: spec_fn(DaemonStage) -> bool)
    ensures
        daemon_life(succeeds) == (if !succeeds(DaemonStage::CheckSession) {
            seq![DaemonStage::CheckSession, DaemonStage::Finished]
        } else if !succeeds(DaemonStage::CreateClient) {
            seq![DaemonStage::CheckSession, DaemonStage::CreateClient, DaemonStage::Finished]
        } else if !succeeds(DaemonStage::BindSocket) {
            seq![
                DaemonStage::CheckSession,
                DaemonStage::CreateClient,
                DaemonStage::BindSocket,
                DaemonStage::Finished,
            ]
        } else {
            seq![
                DaemonStage::CheckSession,
                DaemonStage::CreateClient,
                DaemonStage::BindSocket,
                DaemonStage::Serve,
                DaemonStage::StopReceiver,
                DaemonStage::RemoveSocket,
                DaemonStage::Finished,
            ]
        }),
{
    reveal_with_fuel(life, 7);
}

/// A stage fails the command where nothing has to be cleaned up yet, or where serving itself failed;
/// what fails while the daemon cleans up is only warned of.
pub proof fn cleaning_up_fails_no_command(succeeded: bool)
    ensures
        DaemonStage::CheckSession.decides(),
        DaemonStage::CreateClient.decides(),
        DaemonStage::BindSocket.decides(),
        DaemonStage::Serve.decides(),
        !DaemonStage::StopReceiver.decides(),
        !DaemonStage::RemoveSocket.decides(),
        !DaemonStage::Finished.decides(),
        DaemonStage::Finished.following(succeeded) == DaemonStage::Finished,
        DaemonStage::Serve.following(true) == DaemonStage::Serve.following(false),
        DaemonStage::StopReceiver.following(true) == DaemonStage::StopReceiver.following(false),
        DaemonStage::RemoveSocket.following(true) == DaemonStage::RemoveSocket.following(false),
{
}

} // verus!
