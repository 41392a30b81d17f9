//! Readiness tracking for the implicit fences of a dmabuf's planes.
use vstd::prelude::*;
use std::sync::Arc;
use std::sync::atomic::{AtomicBool, Ordering};

verus! {

/// Most planes a dmabuf can have.
pub const MAX_PLANES: usize = 4;

/// The dmabuf is already ready for the interest given.
#[derive(Clone, Copy, Debug, PartialEq, Eq, Hash, Structural)]
pub struct AlreadyReady;

/// Where the fence watch of one plane stands.
#[derive(Clone, Copy, Debug, PartialEq, Eq, Structural)]
pub enum Subsource {
    /// Waiting for the plane's fence.
    Active,
    /// The plane's fence has signalled.
    Done,
    /// Nothing to wait for on this plane.
    Empty,
}

impl Subsource {
    /// The plane's wait is over: an active or done watch is done; an empty
    /// slot stays empty.
    pub fn done(&mut self)
        ensures
            *final(self) == (if *old(self) == Subsource::Empty {
                Subsource::Empty
            } else {
                Subsource::Done
            }),
    {
        match *self {
            Subsource::Active | Subsource::Done => {
                *self = Subsource::Done;
            },
            Subsource::Empty => {},
        }
    }
}

/// No plane is still waiting.
pub open spec fn settled(sources: Seq<Subsource>) -> bool {
    forall|k: int| 0 <= k < sources.len() ==> #[trigger] sources[k] != Subsource::Active
}

/// Whether no plane is still waiting.
pub fn all_settled(sources: &Vec<Subsource>) -> (r: bool)
    ensures
        r == settled(sources@),
{
    let mut k: usize = 0;
    while k < sources.len()
        invariant
            k <= sources@.len(),
            forall|j: int| 0 <= j < k ==> #[trigger] sources@[j] != Subsource::Active,
        decreases sources@.len() - k,
    {
        if sources[k] == Subsource::Active {
            return false;
        }
        k += 1;
    }
    true
}

/// The watch each plane slot gets: a plane whose fence is not yet ready
/// for the interest is waited on; ready planes and slots beyond the last
/// plane have nothing to wait for.
pub open spec fn planned(ready: Seq<bool>, k: int) -> Subsource {
    if k < ready.len() && !ready[k] {
        Subsource::Active
    } else {
        Subsource::Empty
    }
}

/// Decides which planes of a dmabuf to watch, given whether the interest
/// asks to read, to write, and whether each plane's fence is already ready
/// for it. With no interest, or nothing to wait for, the dmabuf is already
/// ready.
pub fn plan_sources(readable: bool, writable: bool, ready: &Vec<bool>) -> (r: Result<
    Vec<Subsource>,
    AlreadyReady,
>)
    requires
        ready@.len() <= MAX_PLANES,
    ensures
        (!readable && !writable) ==> r is Err,
        (readable || writable) ==> (r is Ok <==> exists|k: int|
            0 <= k < ready@.len() && !#[trigger] ready@[k]),
        r matches Ok(v) ==> v@.len() == MAX_PLANES && forall|k: int|
            0 <= k < MAX_PLANES ==> #[trigger] v@[k] == planned(ready@, k),
{
    if !readable && !writable {
        return Err(AlreadyReady);
    }
    let mut sources: Vec<Subsource> = Vec::new();
    let mut k: usize = 0;
    while k < MAX_PLANES
        invariant
            k <= MAX_PLANES,
            ready@.len() <= MAX_PLANES,
            sources@.len() == k,
            forall|j: int| 0 <= j < k ==> #[trigger] sources@[j] == planned(ready@, j),
        decreases MAX_PLANES - k,
    {
        if k < ready.len() && !ready[k] {
            sources.push(Subsource::Active);
        } else {
            sources.push(Subsource::Empty);
        }
        k += 1;
    }
    if all_settled(&sources) {
        assert forall|j: int| 0 <= j < ready@.len() implies #[trigger] ready@[j] by {
            assert(sources@[j] != Subsource::Active);
        }
        Err(AlreadyReady)
    } else {
        proof {
            let j = choose|j: int| 0 <= j < sources@.len() && sources@[j] == Subsource::Active;
            assert(!ready@[j]);
        }
        Ok(sources)
    }
}

/// Whether a surface waiting on a dmabuf may go on.
#[derive(Clone, Copy, Debug, PartialEq, Eq, Structural)]
pub enum BlockerState {
    /// The dmabuf is ready.
    Released,
    /// The dmabuf is not ready yet.
    Pending,
}

/// The blocker state for a readiness signal.
pub fn blocker_state(signalled: bool) -> (r: BlockerState)
    ensures
        r == (if signalled {
            BlockerState::Released
        } else {
            BlockerState::Pending
        }),
{
    if signalled {
        BlockerState::Released
    } else {
        BlockerState::Pending
    }
}

/// Holds a surface back until the dmabuf it shows is ready, as its fence
/// watch signals through a shared flag.
pub struct DmabufBlocker(pub Arc<AtomicBool>);

impl DmabufBlocker {
    /// Released once the shared flag is raised, pending before.
    pub fn state(&self) -> BlockerState {
        let flag: &AtomicBool = &self.0;
        blocker_state(flag.load(Ordering::SeqCst))
    }
}

} // verus!
