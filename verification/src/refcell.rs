//! A cell that hands out borrows of its contents and refuses, instead of
//! aliasing, a borrow that conflicts with one that is still alive.
//!
//! A borrow is represented by a guard ([`Ref`] or [`RefMut`]) that the cell
//! gives out and takes back: the contents are reached through the cell with
//! the guard in hand, and handing the guard back ends the borrow. Each guard
//! remembers the cell it came from, and the cell counts the guards it has
//! given out that are still alive.

use vstd::prelude::*;
use crate::borrow::{
    acquire_exclusive, acquire_exclusive_spec, acquire_shared, acquire_shared_spec, release_exclusive,
    release_exclusive_spec, release_shared, release_shared_spec, EXCLUSIVE, UNBORROWED,
};
use crate::fatal::Fatal;

verus! {

/// A value together with the flag that tracks who borrows it.
pub struct WasmRefCell<T> {
    borrow: usize,
    value: T,
    id: Ghost<int>,
    shared: Ghost<nat>,
    exclusive: Ghost<bool>,
}

/// A live shared borrow of a [`WasmRefCell`]; it ends only when handed back
/// to the cell, not when dropped.
pub struct Ref {
    cell: Ghost<int>,
}

/// A live exclusive borrow of a [`WasmRefCell`]; it ends only when handed
/// back to the cell, not when dropped.
pub struct RefMut {
    cell: Ghost<int>,
}

impl Ref {
    /// The cell this borrow was taken from.
    pub closed spec fn cell(&self) -> int {
        self.cell@
    }
}

impl RefMut {
    /// The cell this borrow was taken from.
    pub closed spec fn cell(&self) -> int {
        self.cell@
    }
}

/// A label for a new cell, about which nothing is known.
proof fn fresh_label() -> int {
    0
}

/// What a cell knows of its borrows: the flag, the number of live shared
/// borrows and whether the exclusive borrow is alive.
pub struct BorrowState {
    pub flag: usize,
    pub shared: nat,
    pub exclusive: bool,
}

/// The operations on a cell that touch its borrows.
pub enum CellOp {
    Borrow,
    BorrowMut,
    Release,
    ReleaseMut,
}

/// The state of a new cell.
pub open spec fn initial_state() -> BorrowState {
    BorrowState { flag: UNBORROWED, shared: 0, exclusive: false }
}

/// The flag tells the live borrows: it is `usize::MAX` while the one
/// exclusive borrow is alive, and otherwise counts the shared borrows.
pub open spec fn state_wf(s: BorrowState) -> bool {
    if s.exclusive {
        s.flag == EXCLUSIVE && s.shared == 0
    } else {
        s.flag == s.shared
    }
}

/// Whether the operation may be performed at all: a borrow can only be handed
/// back while one of its kind is alive.
pub open spec fn op_allowed(s: BorrowState, op: CellOp) -> bool {
    match op {
        CellOp::Release => s.shared > 0,
        CellOp::ReleaseMut => s.exclusive,
        _ => true,
    }
}

/// Whether the operation is granted rather than refused.
pub open spec fn op_granted(s: BorrowState, op: CellOp) -> bool {
    match op {
        CellOp::Borrow => acquire_shared_spec(s.flag) is Some,
        CellOp::BorrowMut => acquire_exclusive_spec(s.flag) is Some,
        _ => true,
    }
}

/// The state after the operation; a refused borrow leaves it unchanged.
pub open spec fn op_next(s: BorrowState, op: CellOp) -> BorrowState {
    match op {
        CellOp::Borrow => match acquire_shared_spec(s.flag) {
            Some(f) => BorrowState { flag: f, shared: s.shared + 1, exclusive: s.exclusive },
            None => s,
        },
        CellOp::BorrowMut => match acquire_exclusive_spec(s.flag) {
            Some(f) => BorrowState { flag: f, shared: s.shared, exclusive: true },
            None => s,
        },
        CellOp::Release => BorrowState {
            flag: release_shared_spec(s.flag),
            shared: (s.shared - 1) as nat,
            exclusive: s.exclusive,
        },
        CellOp::ReleaseMut => BorrowState {
            flag: release_exclusive_spec(s.flag),
            shared: s.shared,
            exclusive: false,
        },
    }
}

/// The state of a new cell after the operations, in order.
pub open spec fn run(ops: Seq<CellOp>) -> BorrowState
    decreases ops.len(),
{
    if ops.len() == 0 {
        initial_state()
    } else {
        op_next(run(ops.drop_last()), ops.last())
    }
}

/// Whether each of the operations, in order, may be performed.
pub open spec fn run_allowed(ops: Seq<CellOp>) -> bool
    decreases ops.len(),
{
    ops.len() == 0 || (run_allowed(ops.drop_last()) && op_allowed(run(ops.drop_last()), ops.last()))
}

impl<T> WasmRefCell<T> {
    /// The borrow flag (see [`crate::borrow`]).
    pub closed spec fn flag(&self) -> usize {
        self.borrow
    }

    /// The value held by the cell.
    pub closed spec fn contents(&self) -> T {
        self.value
    }

    /// The label that the guards of this cell carry.
    pub closed spec fn id(&self) -> int {
        self.id@
    }

    /// The number of shared borrows given out and not yet handed back.
    pub closed spec fn live_shared(&self) -> nat {
        self.shared@
    }

    /// Whether an exclusive borrow is given out and not yet handed back.
    pub closed spec fn live_exclusive(&self) -> bool {
        self.exclusive@
    }

    /// What the cell knows of its borrows.
    pub closed spec fn state(&self) -> BorrowState {
        BorrowState { flag: self.borrow, shared: self.shared@, exclusive: self.exclusive@ }
    }

    /// The flag tells the live borrows (see [`state_wf`]).
    pub open spec fn wf(&self) -> bool {
        state_wf(self.state())
    }

    /// A cell holding `value`, not borrowed.
    pub fn new(value: T) -> (cell: WasmRefCell<T>)
        ensures
            cell.wf(),
            cell.state() == initial_state(),
            cell.flag() == UNBORROWED,
            cell.live_shared() == 0,
            !cell.live_exclusive(),
            cell.contents() == value,
    {
        WasmRefCell {
            value,
            borrow: UNBORROWED,
            id: Ghost(fresh_label()),
            shared: Ghost(0),
            exclusive: Ghost(false),
        }
    }

    /// Direct access to the contents through a unique reference to the cell.
    pub fn get_mut(&mut self) -> (r: &mut T)
        ensures
            *r == old(self).contents(),
            final(self).contents() == *final(r),
            final(self).flag() == old(self).flag(),
            final(self).id() == old(self).id(),
            final(self).live_shared() == old(self).live_shared(),
            final(self).live_exclusive() == old(self).live_exclusive(),
            final(self).wf() == old(self).wf(),
    {
        &mut self.value
    }

    /// Takes a shared borrow; refused while the cell is borrowed exclusively
    /// (or when the count of shared borrows is full). The borrow lasts until
    /// the guard is handed back with [`WasmRefCell::release`]: letting the
    /// guard go out of scope does not end it.
    pub fn borrow(&mut self) -> (r: Result<Ref, Fatal>)
        requires
            old(self).wf(),
        ensures
            final(self).wf(),
            final(self).contents() == old(self).contents(),
            final(self).id() == old(self).id(),
            final(self).state() == op_next(old(self).state(), CellOp::Borrow),
            r is Ok <==> op_granted(old(self).state(), CellOp::Borrow),
            final(self).live_exclusive() == old(self).live_exclusive(),
            match acquire_shared_spec(old(self).flag()) {
                Some(next) => r matches Ok(g) && g.cell() == old(self).id() && final(self).flag()
                    == next && final(self).live_shared() == old(self).live_shared() + 1,
                None => r == Err::<Ref, Fatal>(Fatal::RecursiveBorrow) && final(self).flag()
                    == old(self).flag() && final(self).live_shared() == old(self).live_shared(),
            },
    {
        match acquire_shared(self.borrow) {
            Ok(next) => {
                self.borrow = next;
                self.shared = Ghost(self.shared@ + 1);
                Ok(Ref { cell: Ghost(self.id@) })
            },
            Err(e) => Err(e),
        }
    }

    /// Takes an exclusive borrow; refused while any borrow is alive. The
    /// borrow lasts until the guard is handed back with
    /// [`WasmRefCell::release_mut`]: letting the guard go out of scope does
    /// not end it.
    pub fn borrow_mut(&mut self) -> (r: Result<RefMut, Fatal>)
        requires
            old(self).wf(),
        ensures
            final(self).wf(),
            final(self).contents() == old(self).contents(),
            final(self).id() == old(self).id(),
            final(self).state() == op_next(old(self).state(), CellOp::BorrowMut),
            r is Ok <==> op_granted(old(self).state(), CellOp::BorrowMut),
            final(self).live_shared() == old(self).live_shared(),
            match acquire_exclusive_spec(old(self).flag()) {
                Some(next) => r matches Ok(g) && g.cell() == old(self).id() && final(self).flag()
                    == next && final(self).live_exclusive(),
                None => r == Err::<RefMut, Fatal>(Fatal::RecursiveBorrow) && final(self).flag()
                    == old(self).flag() && final(self).live_exclusive()
                    == old(self).live_exclusive(),
            },
    {
        match acquire_exclusive(self.borrow) {
            Ok(next) => {
                self.borrow = next;
                self.exclusive = Ghost(true);
                Ok(RefMut { cell: Ghost(self.id@) })
            },
            Err(e) => Err(e),
        }
    }

    /// The contents, read under a shared borrow of this cell.
    pub fn deref(&self, guard: &Ref) -> (r: &T)
        requires
            guard.cell() == self.id(),
        ensures
            *r == self.contents(),
    {
        &self.value
    }

    /// The contents, reached under an exclusive borrow of this cell.
    pub fn deref_mut(&mut self, guard: &RefMut) -> (r: &mut T)
        requires
            guard.cell() == old(self).id(),
        ensures
            *r == old(self).contents(),
            final(self).contents() == *final(r),
            final(self).flag() == old(self).flag(),
            final(self).id() == old(self).id(),
            final(self).live_shared() == old(self).live_shared(),
            final(self).live_exclusive() == old(self).live_exclusive(),
            final(self).wf() == old(self).wf(),
    {
        &mut self.value
    }

    /// Ends a shared borrow of this cell.
    pub fn release(&mut self, guard: Ref)
        requires
            old(self).wf(),
            guard.cell() == old(self).id(),
            old(self).live_shared() > 0,
        ensures
            final(self).wf(),
            final(self).state() == op_next(old(self).state(), CellOp::Release),
            final(self).flag() == release_shared_spec(old(self).flag()),
            final(self).live_shared() == old(self).live_shared() - 1,
            final(self).live_exclusive() == old(self).live_exclusive(),
            final(self).id() == old(self).id(),
            final(self).contents() == old(self).contents(),
    {
        self.borrow = release_shared(self.borrow);
        self.shared = Ghost((self.shared@ - 1) as nat);
    }

    /// Ends the exclusive borrow of this cell.
    pub fn release_mut(&mut self, guard: RefMut)
        requires
            old(self).wf(),
            guard.cell() == old(self).id(),
            old(self).live_exclusive(),
        ensures
            final(self).wf(),
            final(self).state() == op_next(old(self).state(), CellOp::ReleaseMut),
            final(self).flag() == release_exclusive_spec(old(self).flag()),
            !final(self).live_exclusive(),
            final(self).live_shared() == old(self).live_shared(),
            final(self).id() == old(self).id(),
            final(self).contents() == old(self).contents(),
    {
        self.borrow = release_exclusive(self.borrow);
        self.exclusive = Ghost(false);
    }

    /// The value held by the cell, which is consumed.
    pub fn into_inner(self) -> (v: T)
        ensures
            v == self.contents(),
    {
        self.value
    }
}

/// What well-formedness of a cell says of its flag and live borrows: while the
/// exclusive borrow is alive the flag is `usize::MAX` and no shared borrow is
/// alive; otherwise the flag counts the live shared borrows.
pub proof fn lemma_wf_meaning<T>(c: WasmRefCell<T>)
    ensures
        c.wf() <==> ((c.live_exclusive() ==> c.flag() == EXCLUSIVE && c.live_shared() == 0) && (
        !c.live_exclusive() ==> c.flag() == c.live_shared())),
{
}

/// In a well-formed cell an exclusive borrow is never alive beside another
/// borrow: every operation keeps the cell well formed, so this holds at every
/// point of any sequence of them.
pub proof fn lemma_exclusive_is_alone<T>(c: WasmRefCell<T>)
    requires
        c.wf(),
    ensures
        c.live_exclusive() ==> c.live_shared() == 0,
        c.live_exclusive() <==> c.flag() == EXCLUSIVE && c.live_shared() < usize::MAX,
{
}

/// In a well-formed cell, an exclusive borrow is refused while any borrow is
/// alive, a shared borrow is refused while an exclusive one is alive, and an
/// exclusive borrow is granted when none is alive.
pub proof fn lemma_conflicting_borrows_refused<T>(c: WasmRefCell<T>)
    requires
        c.wf(),
    ensures
        (c.live_exclusive() || c.live_shared() > 0) <==> acquire_exclusive_spec(c.flag()) is None,
        c.live_exclusive() ==> acquire_shared_spec(c.flag()) is None,
        !c.live_exclusive() && c.live_shared() < usize::MAX ==> acquire_shared_spec(c.flag()) is Some,
{
}

/// Over any sequence of operations on a new cell, each of which may be
/// performed: at every point the flag tells the live borrows, the exclusive
/// borrow is never alive beside another borrow, and from that point an
/// exclusive borrow is refused while any borrow is alive and a shared borrow
/// is refused while the exclusive one is.
pub proof fn lemma_run_exclusive_is_alone(ops: Seq<CellOp>)
    requires
        run_allowed(ops),
    ensures
        state_wf(run(ops)),
        run(ops).exclusive ==> run(ops).shared == 0,
        (run(ops).exclusive || run(ops).shared > 0) ==> !op_granted(run(ops), CellOp::BorrowMut),
        run(ops).exclusive ==> !op_granted(run(ops), CellOp::Borrow),
    decreases ops.len(),
{
    if ops.len() > 0 {
        lemma_run_exclusive_is_alone(ops.drop_last());
    }
}

} // verus!
