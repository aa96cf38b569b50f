//! The bounded result buffer that boundary exports write their encoded
//! result into, with a fixed error payload when the result does not fit.
use vstd::prelude::*;

verus! {

/// Encoding of a result failed before any byte reached the buffer.
#[derive(Debug, Clone, Copy, PartialEq, Eq, Structural)]
pub struct EncodeError;

/// Number of bytes in the overflow payload `{"error":"overflow"}`.
pub const OVERFLOW_LEN: usize = 20;

/// Capacity of the buffer that `BoundedBuffer::new` allocates.
pub const DEFAULT_CAPACITY: usize = 4096;

/// The literal error object `{"error":"overflow"}`, as bytes.
pub open spec fn overflow_payload() -> Seq<u8> {
    // {  "  e  r  r  o  r  "  :  "  o  v  e  r  f  l  o  w  "  }
    seq![
        123u8, 34, 101, 114, 114, 111, 114, 34, 58, 34,
        111, 118, 101, 114, 102, 108, 111, 119, 34, 125,
    ]
}

/// `data` written over the leading bytes of `buf`; the rest of `buf` is kept.
pub open spec fn overwrite_front(buf: Seq<u8>, data: Seq<u8>) -> Seq<u8> {
    data + buf.skip(data.len() as int)
}

/// What the buffer `buf` holds after storing `encoded` (`None`: encoding
/// failed). An encoding that fits is written, followed by a terminator when
/// room is left; anything else leaves the terminated overflow payload.
pub open spec fn stored(buf: Seq<u8>, encoded: Option<Seq<u8>>) -> Seq<u8> {
    match encoded {
        Some(e) => if e.len() < buf.len() {
            overwrite_front(buf, e.push(0))
        } else if e.len() == buf.len() {
            e
        } else {
            overwrite_front(buf, overflow_payload().push(0))
        },
        None => overwrite_front(buf, overflow_payload().push(0)),
    }
}

/// Whether `s` holds no terminator byte.
pub open spec fn no_nul(s: Seq<u8>) -> bool {
    forall|i: int| 0 <= i < s.len() ==> s[i] != 0
}

/// The bytes a reader of `buf` sees: everything before the first terminator,
/// or the whole buffer when it holds none.
pub open spec fn terminated(buf: Seq<u8>) -> Seq<u8>
    decreases buf.len(),
{
    if buf.len() == 0 || buf[0] == 0 {
        Seq::empty()
    } else {
        seq![buf[0]] + terminated(buf.skip(1))
    }
}

/// `terminated` stops at the first terminator, or at the end.
pub proof fn lemma_terminated_at(buf: Seq<u8>, n: int)
    requires
        0 <= n <= buf.len(),
        no_nul(buf.take(n)),
        n == buf.len() || buf[n] == 0,
    ensures
        terminated(buf) == buf.take(n),
    decreases n,
{
    if n == 0 {
        assert(buf.take(0) =~= Seq::<u8>::empty());
    } else {
        assert(buf.take(n)[0] == buf[0]);
        let rest = buf.skip(1);
        assert(rest.take(n - 1) =~= buf.take(n).skip(1));
        assert forall|i: int| 0 <= i < n - 1 implies #[trigger] rest.take(n - 1)[i] != 0 by {
            assert(rest.take(n - 1)[i] == buf.take(n)[i + 1]);
        }
        if n < buf.len() {
            assert(rest[n - 1] == buf[n]);
        }
        lemma_terminated_at(rest, n - 1);
        assert(seq![buf[0]] + rest.take(n - 1) =~= buf.take(n));
    }
}

/// A fixed-capacity byte region, reused by every call of one export.
pub struct BoundedBuffer {
    bytes: Vec<u8>,
}

impl View for BoundedBuffer {
    type V = Seq<u8>;

    closed spec fn view(&self) -> Seq<u8> {
        self.bytes@
    }
}

impl BoundedBuffer {
    /// The buffer can always hold the terminated overflow payload.
    pub open spec fn wf(&self) -> bool {
        self@.len() > OVERFLOW_LEN
    }

    /// A zeroed buffer of `DEFAULT_CAPACITY` bytes.
    pub fn new() -> (r: Self)
        ensures
            r.wf(),
            r@ == Seq::new(DEFAULT_CAPACITY as nat, |i: int| 0u8),
    {
        match Self::with_capacity(DEFAULT_CAPACITY) {
            Some(b) => b,
            None => {
                assert(false);
                BoundedBuffer { bytes: Vec::new() }
            },
        }
    }

    /// A zeroed buffer of `capacity` bytes; `None` when the capacity cannot
    /// hold the terminated overflow payload.
    pub fn with_capacity(capacity: usize) -> (r: Option<Self>)
        ensures
            capacity > OVERFLOW_LEN <==> r is Some,
            r matches Some(b) ==> b.wf() && b@ == Seq::new(capacity as nat, |i: int| 0u8),
    {
        if capacity <= OVERFLOW_LEN {
            return None;
        }
        let mut bytes: Vec<u8> = Vec::new();
        let mut i: usize = 0;
        while i < capacity
            invariant
                i <= capacity,
                bytes@ == Seq::new(i as nat, |j: int| 0u8),
            decreases capacity - i,
        {
            bytes.push(0);
            i = i + 1;
            assert(bytes@ =~= Seq::new(i as nat, |j: int| 0u8));
        }
        Some(BoundedBuffer { bytes })
    }

    /// Number of bytes the buffer holds.
    pub fn capacity(&self) -> (r: usize)
        ensures
            r == self@.len(),
    {
        self.bytes.len()
    }

    /// The whole buffer, terminator and stale bytes included.
    pub fn as_slice(&self) -> (r: &[u8])
        ensures
            r@ == self@,
    {
        self.bytes.as_slice()
    }

    /// Writes `data` over the leading bytes of the buffer.
    fn write_front(&mut self, data: &Vec<u8>)
        requires
            data@.len() <= old(self)@.len(),
        ensures
            final(self)@ == overwrite_front(old(self)@, data@),
    {
        let n = data.len();
        let mut i: usize = 0;
        while i < n
            invariant
                n == data@.len(),
                i <= n,
                n <= self@.len(),
                self@.len() == old(self)@.len(),
                self@.take(i as int) == data@.take(i as int),
                self@.skip(i as int) == old(self)@.skip(i as int),
            decreases n - i,
        {
            let ghost before = self@;
            self.bytes.set(i, data[i]);
            assert(self@.take(i + 1) =~= data@.take(i + 1)) by {
                assert(self@.take(i + 1) =~= before.take(i as int).push(data@[i as int]));
                assert(data@.take(i + 1) =~= data@.take(i as int).push(data@[i as int]));
            }
            assert(self@.skip(i + 1) =~= old(self)@.skip(i + 1)) by {
                assert(self@.skip(i + 1) =~= before.skip(i as int).skip(1));
                assert(old(self)@.skip(i + 1) =~= old(self)@.skip(i as int).skip(1));
            }
            i = i + 1;
        }
        assert(self@ =~= self@.take(n as int) + self@.skip(n as int));
        assert(data@.take(n as int) =~= data@);
    }
    /// The overflow payload as an owned byte vector.
    pub fn overflow_payload_bytes() -> (r: Vec<u8>)
        ensures
            r@ == overflow_payload(),
    {
        let r: Vec<u8> = vec![
            123u8, 34, 101, 114, 114, 111, 114, 34, 58, 34,
            111, 118, 101, 114, 102, 108, 111, 119, 34, 125,
        ];
        assert(r@ =~= overflow_payload());
        r
    }

    /// Stores the outcome of encoding a result: the encoded bytes when they
    /// fit (terminated when room is left), else the terminated overflow payload.
    pub fn store(&mut self, encoded: Result<Vec<u8>, EncodeError>)
        requires
            old(self).wf(),
        ensures
            final(self).wf(),
            final(self)@ == stored(
                old(self)@,
                match encoded {
                    Ok(e) => Some(e@),
                    Err(_) => None,
                },
            ),
    {
        let cap = self.bytes.len();
        match encoded {
            Ok(mut e) => {
                if e.len() < cap {
                    e.push(0);
                    self.write_front(&e);
                    return;
                } else if e.len() == cap {
                    self.write_front(&e);
                    assert(self@ =~= e@);
                    return;
                }
            },
            Err(_) => {},
        }
        let mut p = Self::overflow_payload_bytes();
        p.push(0);
        self.write_front(&p);
    }

    /// The bytes a reader sees: everything before the first terminator, or
    /// the whole buffer when it holds none.
    pub fn contents(&self) -> (r: Vec<u8>)
        ensures
            r@ == terminated(self@),
    {
        let n = self.bytes.len();
        let mut r: Vec<u8> = Vec::new();
        let mut i: usize = 0;
        while i < n && self.bytes[i] != 0
            invariant
                n == self@.len(),
                i <= n,
                r@ == self@.take(i as int),
                no_nul(self@.take(i as int)),
            decreases n - i,
        {
            r.push(self.bytes[i]);
            i = i + 1;
            assert(r@ =~= self@.take(i as int));
            assert(no_nul(self@.take(i as int))) by {
                assert forall|j: int| 0 <= j < i implies #[trigger] self@.take(i as int)[j] != 0 by {
                    if j < i - 1 {
                        assert(self@.take(i as int)[j] == self@.take(i - 1)[j]);
                    }
                }
            }
        }
        proof {
            lemma_terminated_at(self@, i as int);
        }
        r
    }
}

/// Round trip through the buffer: an encoding that holds no terminator and
/// fits the capacity reads back exactly as it was stored.
pub proof fn law_stored_encoding_reads_back(buf: Seq<u8>, e: Seq<u8>)
    requires
        buf.len() > OVERFLOW_LEN,
        e.len() <= buf.len(),
        no_nul(e),
    ensures
        terminated(stored(buf, Some(e))) == e,
{
    let s = stored(buf, Some(e));
    if e.len() < buf.len() {
        assert(s.take(e.len() as int) =~= e);
        assert(s[e.len() as int] == 0);
    } else {
        assert(s.take(e.len() as int) =~= e);
    }
    lemma_terminated_at(s, e.len() as int);
}

/// Whatever the result, an encoding longer than the capacity (or a failed
/// encoding) reads back as the overflow payload, byte for byte.
pub proof fn law_overflow_reads_payload(buf: Seq<u8>, encoded: Option<Seq<u8>>)
    requires
        buf.len() > OVERFLOW_LEN,
        match encoded {
            Some(e) => e.len() > buf.len(),
            None => true,
        },
    ensures
        terminated(stored(buf, encoded)) == overflow_payload(),
{
    let s = stored(buf, encoded);
    let n = OVERFLOW_LEN as int;
    assert(s.take(n) =~= overflow_payload());
    assert(s[n] == 0);
    lemma_terminated_at(s, n);
}

} // verus!
