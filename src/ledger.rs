//! Ownership of leaked byte buffers: each leak hands the host a handle, and
//! exactly one release with the same handle and length takes the bytes back.
use vstd::prelude::*;

verus! {

/// What the host receives for a leaked buffer: where it lives and its length.
#[derive(Debug, Clone, Copy, PartialEq, Eq, Structural)]
pub struct LeakHandle {
    pub index: usize,
    pub len: usize,
}

/// Why a release was refused.
#[derive(Debug, Clone, Copy, PartialEq, Eq, Structural)]
pub enum ReleaseError {
    /// The handle names no buffer that is still leaked.
    NotLeaked,
    /// The length differs from the leaked buffer's.
    LengthMismatch,
}

/// Every buffer leaked so far, in order; a released one becomes `None`.
pub struct LeakLedger {
    slots: Vec<Option<Vec<u8>>>,
}

pub open spec fn slot_view(o: Option<Vec<u8>>) -> Option<Seq<u8>> {
    match o {
        Some(v) => Some(v@),
        None => None,
    }
}

/// The ledger after leaking `bytes`: a new slot at the end.
pub open spec fn leaked(l: Seq<Option<Seq<u8>>>, bytes: Seq<u8>) -> Seq<Option<Seq<u8>>> {
    l.push(Some(bytes))
}

/// Whether slot `index` of `l` is still leaked with `len` bytes.
pub open spec fn leaked_at(l: Seq<Option<Seq<u8>>>, index: int, len: int) -> bool {
    &&& 0 <= index < l.len()
    &&& l[index] matches Some(b)
    &&& b.len() == len
}

/// Whether `h` may be released from `l`.
pub open spec fn releasable(l: Seq<Option<Seq<u8>>>, h: LeakHandle) -> bool {
    leaked_at(l, h.index as int, h.len as int)
}

/// The ledger after releasing the buffer at `index`.
pub open spec fn released(l: Seq<Option<Seq<u8>>>, index: int) -> Seq<Option<Seq<u8>>> {
    l.update(index, None)
}

impl View for LeakLedger {
    type V = Seq<Option<Seq<u8>>>;

    closed spec fn view(&self) -> Seq<Option<Seq<u8>>> {
        self.slots@.map_values(|o: Option<Vec<u8>>| slot_view(o))
    }
}

impl LeakLedger {
    /// A ledger with nothing leaked.
    pub fn new() -> (r: Self)
        ensures
            r@ == Seq::<Option<Seq<u8>>>::empty(),
    {
        let r = LeakLedger { slots: Vec::new() };
        assert(r@ =~= Seq::<Option<Seq<u8>>>::empty());
        r
    }

    /// Hands `bytes` over to the host; their memory stays live until released.
    pub fn leak(&mut self, bytes: Vec<u8>) -> (h: LeakHandle)
        requires
            old(self)@.len() < usize::MAX,
        ensures
            final(self)@ == leaked(old(self)@, bytes@),
            h == (LeakHandle { index: old(self)@.len() as usize, len: bytes@.len() as usize }),
    {
        let h = LeakHandle { index: self.slots.len(), len: bytes.len() };
        self.slots.push(Some(bytes));
        assert(self@ =~= leaked(old(self)@, bytes@));
        h
    }

    /// Number of buffers leaked so far, released ones included.
    pub fn slot_count(&self) -> (r: usize)
        ensures
            r == self@.len(),
    {
        self.slots.len()
    }

    /// The bytes still leaked at `index`, if any.
    pub fn get(&self, index: usize) -> (r: Option<&Vec<u8>>)
        ensures
            r matches Some(v) ==> index < self@.len() && self@[index as int] == Some(v@),
            r is None ==> index >= self@.len() || self@[index as int] is None,
    {
        if index < self.slots.len() {
            match &self.slots[index] {
                Some(v) => Some(v),
                None => None,
            }
        } else {
            None
        }
    }

    /// Takes back the buffer `h` names; refused when it is not leaked or its
    /// length differs.
    pub fn release(&mut self, h: LeakHandle) -> (r: Result<Vec<u8>, ReleaseError>)
        ensures
            releasable(old(self)@, h) <==> r is Ok,
            r matches Ok(b) ==> Some(b@) == old(self)@[h.index as int]
                && final(self)@ == released(old(self)@, h.index as int),
            r matches Err(e) ==> final(self)@ == old(self)@ && if h.index < old(self)@.len()
                && old(self)@[h.index as int] is Some {
                e == ReleaseError::LengthMismatch
            } else {
                e == ReleaseError::NotLeaked
            },
    {
        if h.index >= self.slots.len() {
            return Err(ReleaseError::NotLeaked);
        }
        let len_ok = match &self.slots[h.index] {
            Some(v) => v.len() == h.len,
            None => {
                return Err(ReleaseError::NotLeaked);
            },
        };
        if !len_ok {
            return Err(ReleaseError::LengthMismatch);
        }
        let ghost before = self.slots@;
        let slot = self.slots.remove(h.index);
        self.slots.insert(h.index, None);
        assert(self.slots@ =~= before.update(h.index as int, None));
        assert(self@ =~= released(old(self)@, h.index as int));
        match slot {
            Some(b) => Ok(b),
            None => {
                assert(false);
                Err(ReleaseError::NotLeaked)
            },
        }
    }
}

/// Two leaks in sequence land in distinct slots, and releasing the first
/// leaves the second leaked with the same bytes.
pub proof fn law_leaks_are_independent(l: Seq<Option<Seq<u8>>>, first: Seq<u8>, second: Seq<u8>)
    ensures
        ({
            let l2 = leaked(leaked(l, first), second);
            let i1 = l.len() as int;
            let i2 = l.len() + 1int;
            &&& i1 != i2
            &&& leaked_at(l2, i1, first.len() as int)
            &&& l2[i1] == Some(first)
            &&& l2[i2] == Some(second)
            &&& released(l2, i1)[i2] == Some(second)
            &&& leaked_at(released(l2, i1), i2, second.len() as int)
        }),
{
}

} // verus!
