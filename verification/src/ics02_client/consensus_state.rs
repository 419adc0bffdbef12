//! Polymorphic consensus states: one snapshot (root and timestamp) of a
//! counterparty chain at a given height.

use vstd::prelude::*;

verus! {

/// The mathematical content of a consensus state.
pub ghost enum AnyConsensusStateView {
    Tendermint { timestamp: u64, root: Seq<u8> },
    Mock { timestamp: Option<u64> },
}

impl AnyConsensusStateView {
    /// The timestamp recorded in the snapshot, in nanoseconds; `None` when
    /// the snapshot carries no readable timestamp.
    pub open spec fn spec_timestamp(&self) -> Option<u64> {
        match *self {
            AnyConsensusStateView::Tendermint { timestamp, .. } => Some(timestamp),
            AnyConsensusStateView::Mock { timestamp } => timestamp,
        }
    }
}

/// A Tendermint consensus snapshot: commitment root plus timestamp in
/// nanoseconds.
#[derive(Debug)]
pub struct TendermintConsensusState {
    pub timestamp: u64,
    pub root: Vec<u8>,
}

/// A test consensus snapshot; its timestamp may be absent.
#[derive(Clone, Copy, Debug, PartialEq, Eq, Hash, Structural)]
pub struct MockConsensusState {
    pub timestamp: Option<u64>,
}

/// A consensus state of any known client kind.
#[derive(Debug)]
pub enum AnyConsensusState {
    Tendermint(TendermintConsensusState),
    Mock(MockConsensusState),
}

impl View for AnyConsensusState {
    type V = AnyConsensusStateView;

    open spec fn view(&self) -> AnyConsensusStateView {
        match self {
            AnyConsensusState::Tendermint(s) => AnyConsensusStateView::Tendermint {
                timestamp: s.timestamp,
                root: s.root@,
            },
            AnyConsensusState::Mock(s) => AnyConsensusStateView::Mock { timestamp: s.timestamp },
        }
    }
}

impl Clone for AnyConsensusState {
    fn clone(&self) -> (r: Self)
        ensures
            r@ == self@,
    {
        match self {
            AnyConsensusState::Tendermint(s) => {
                let root = s.root.clone();
                proof {
                    assert(root@ =~= s.root@);
                }
                AnyConsensusState::Tendermint(
                    TendermintConsensusState { timestamp: s.timestamp, root },
                )
            },
            AnyConsensusState::Mock(s) => AnyConsensusState::Mock(*s),
        }
    }
}

impl AnyConsensusState {
    /// The snapshot's timestamp; `None` when the stored consensus state
    /// carries no readable one.
    pub fn timestamp(&self) -> (r: Option<u64>)
        ensures
            r == self@.spec_timestamp(),
    {
        match self {
            AnyConsensusState::Tendermint(s) => Some(s.timestamp),
            AnyConsensusState::Mock(s) => s.timestamp,
        }
    }

    /// The commitment root, where the snapshot carries one.
    pub fn root(&self) -> (r: Option<&Vec<u8>>)
        ensures
            match r {
                Some(b) => self@ matches AnyConsensusStateView::Tendermint { root, .. } && b@
                    == root,
                None => self@ is Mock,
            },
    {
        match self {
            AnyConsensusState::Tendermint(s) => Some(&s.root),
            AnyConsensusState::Mock(_) => None,
        }
    }
}

} // verus!
