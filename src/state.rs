use vstd::prelude::*;

verus! {

/// The states that the device driver reports.
#[derive(Clone, Copy, Debug, PartialEq, Eq, Structural)]
pub enum DeviceState {
    Unconfigured,
    InvalidParameters,
    Ready,
    Running,
}

/// The privileged operations of the driver that the state machine gates.
#[derive(Clone, Copy, Debug, PartialEq, Eq, Structural)]
pub enum Operation {
    Configure,
    Start,
    Stop,
    Read,
}

/// Which operation the device accepts in which state.
pub open spec fn permits(op: Operation, s: DeviceState) -> bool {
    match op {
        Operation::Configure => !(s is Running),
        Operation::Start => s is Ready,
        Operation::Stop => s is Running,
        Operation::Read => s is Running,
    }
}

/// The state and operation pairs that [`permits`] admits, as a set.
pub open spec fn legal_pairs() -> Set<(Operation, DeviceState)> {
    Set::new(|p: (Operation, DeviceState)| permits(p.0, p.1))
}

/// Whether `op` may be issued while the device is in `state`.
pub fn legal(op: Operation, state: DeviceState) -> (r: bool)
    ensures
        r == permits(op, state),
{
    match op {
        Operation::Configure => !matches!(state, DeviceState::Running),
        Operation::Start => matches!(state, DeviceState::Ready),
        Operation::Stop | Operation::Read => matches!(state, DeviceState::Running),
    }
}

/// The legality table has exactly six entries: configure in every state but
/// `Running`, start in `Ready`, and stop and read in `Running`. No other pair
/// of operation and state is legal.
pub proof fn legal_table_exact()
    ensures
        legal_pairs() == set![
            (Operation::Configure, DeviceState::Unconfigured),
            (Operation::Configure, DeviceState::InvalidParameters),
            (Operation::Configure, DeviceState::Ready),
            (Operation::Start, DeviceState::Ready),
            (Operation::Stop, DeviceState::Running),
            (Operation::Read, DeviceState::Running),
        ],
{
    let t = set![
        (Operation::Configure, DeviceState::Unconfigured),
        (Operation::Configure, DeviceState::InvalidParameters),
        (Operation::Configure, DeviceState::Ready),
        (Operation::Start, DeviceState::Ready),
        (Operation::Stop, DeviceState::Running),
        (Operation::Read, DeviceState::Running),
    ];
    assert forall|p: (Operation, DeviceState)| legal_pairs().contains(p) <==> t.contains(p) by {
        match p.0 {
            Operation::Configure => match p.1 {
                DeviceState::Unconfigured => {},
                DeviceState::InvalidParameters => {},
                DeviceState::Ready => {},
                DeviceState::Running => {},
            },
            _ => {},
        }
    }
    assert(legal_pairs() =~= t);
}

} // verus!
