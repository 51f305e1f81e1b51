//! Message framing on the byte stream: each message travels as an eight-byte
//! big-endian length followed by that many bytes, so a message of any length
//! is told apart from the next however the stream happens to be chunked.

use vstd::prelude::*;
use vstd::arithmetic::div_mod::lemma_mod_breakdown;

verus! {

/// Length in bytes of the header that precedes each message.
pub const HEADER_LEN: usize = 8;

/// `256` to the power `k`.
pub open spec fn pow256(k: nat) -> nat
    decreases k,
{
    if k == 0 {
        1
    } else {
        256 * pow256((k - 1) as nat)
    }
}

/// The low `k` bytes of `n`, most significant first.
pub open spec fn be_bytes(n: nat, k: nat) -> Seq<u8>
    decreases k,
{
    if k == 0 {
        seq![]
    } else {
        be_bytes(n / 256, (k - 1) as nat).push((n % 256) as u8)
    }
}

/// The number that bytes spell, most significant first.
pub open spec fn be_value(s: Seq<u8>) -> nat
    decreases s.len(),
{
    if s.len() == 0 {
        0
    } else {
        be_value(s.drop_last()) * 256 + s.last() as nat
    }
}

/// The bytes that carry `payload` on the stream.
pub open spec fn frame(payload: Seq<u8>) -> Seq<u8> {
    be_bytes(payload.len(), 8) + payload
}

/// The first message in `buf` and the bytes after it, once `buf` holds all
/// of it.
pub open spec fn split_frame(buf: Seq<u8>) -> Option<(Seq<u8>, Seq<u8>)> {
    if buf.len() < 8 {
        None
    } else {
        let n = be_value(buf.take(8));
        if buf.len() - 8 < n {
            None
        } else {
            Some((buf.subrange(8, 8 + n as int), buf.skip(8 + n as int)))
        }
    }
}

proof fn lemma_pow256_positive(k: nat)
    ensures
        pow256(k) > 0,
    decreases k,
{
    if k > 0 {
        lemma_pow256_positive((k - 1) as nat);
    }
}

proof fn lemma_be_bytes_len(n: nat, k: nat)
    ensures
        be_bytes(n, k).len() == k,
    decreases k,
{
    if k > 0 {
        lemma_be_bytes_len(n / 256, (k - 1) as nat);
    }
}

proof fn lemma_be_value_of_bytes(n: nat, k: nat)
    ensures
        be_value(be_bytes(n, k)) == n % pow256(k),
    decreases k,
{
    if k > 0 {
        let s = be_bytes(n, k);
        lemma_be_value_of_bytes(n / 256, (k - 1) as nat);
        lemma_pow256_positive((k - 1) as nat);
        assert(s.drop_last() =~= be_bytes(n / 256, (k - 1) as nat));
        lemma_mod_breakdown(n as int, 256, pow256((k - 1) as nat) as int);
    }
}

proof fn lemma_be_value_bound(s: Seq<u8>)
    ensures
        be_value(s) < pow256(s.len()),
    decreases s.len(),
{
    if s.len() > 0 {
        lemma_be_value_bound(s.drop_last());
        let a = be_value(s.drop_last());
        let p = pow256((s.len() - 1) as nat);
        let b = s.last() as nat;
        assert(a * 256 + b < 256 * p) by (nonlinear_arith)
            requires
                a < p,
                b < 256,
        ;
    }
}

/// A message and whatever follows it split apart again: the bytes that
/// carry `payload`, followed by any bytes at all, split into `payload` and
/// those bytes.
pub proof fn frame_splits_back(payload: Seq<u8>, rest: Seq<u8>)
    requires
        payload.len() < pow256(8),
    ensures
        split_frame(frame(payload) + rest) == Some((payload, rest)),
{
    let n = payload.len();
    let buf = frame(payload) + rest;
    lemma_be_bytes_len(n, 8);
    lemma_be_value_of_bytes(n, 8);
    lemma_pow256_positive(8);
    vstd::arithmetic::div_mod::lemma_small_mod(n, pow256(8));
    assert(buf.take(8) =~= be_bytes(n, 8));
    assert(buf.subrange(8, 8 + n as int) =~= payload);
    assert(buf.skip(8 + n as int) =~= rest);
}

fn push_be(out: &mut Vec<u8>, n: u64, k: usize)
    ensures
        final(out)@ == old(out)@ + be_bytes(n as nat, k as nat),
    decreases k,
{
    if k > 0 {
        push_be(out, n / 256, k - 1);
        out.push((n % 256) as u8);
        assert(final(out)@ =~= old(out)@ + be_bytes(n as nat, k as nat)) by {
            assert(be_bytes(n as nat, k as nat) == be_bytes((n / 256) as nat, (k - 1) as nat).push(
                (n % 256) as u8,
            ));
        }
    } else {
        assert(old(out)@ + be_bytes(n as nat, k as nat) =~= old(out)@);
    }
}

/// The bytes that carry `payload`: its length as eight big-endian bytes,
/// then the payload itself.
pub fn encode_frame(payload: &[u8]) -> (r: Vec<u8>)
    ensures
        r@ == frame(payload@),
{
    let mut r: Vec<u8> = Vec::new();
    push_be(&mut r, payload.len() as u64, HEADER_LEN);
    let mut i: usize = 0;
    while i < payload.len()
        invariant
            i <= payload.len(),
            r@ == be_bytes(payload@.len(), 8) + payload@.take(i as int),
        decreases payload.len() - i,
    {
        r.push(payload[i]);
        i = i + 1;
        assert(r@ =~= be_bytes(payload@.len(), 8) + payload@.take(i as int));
    }
    assert(payload@.take(i as int) =~= payload@);
    r
}

/// A copy of the bytes `v[from..to]`.
pub(crate) fn copy_range(v: &Vec<u8>, from: usize, to: usize) -> (r: Vec<u8>)
    requires
        from <= to <= v.len(),
    ensures
        r@ == v@.subrange(from as int, to as int),
{
    let mut r: Vec<u8> = Vec::new();
    let mut i: usize = from;
    while i < to
        invariant
            from <= i <= to <= v.len(),
            r@ == v@.subrange(from as int, i as int),
        decreases to - i,
    {
        r.push(v[i]);
        i = i + 1;
        assert(r@ =~= v@.subrange(from as int, i as int));
    }
    r
}

/// The whole messages at the front of `buf`, in order, and the bytes after
/// the last of them.
pub open spec fn split_all(buf: Seq<u8>) -> (Seq<Seq<u8>>, Seq<u8>)
    decreases buf.len(),
{
    match split_frame(buf) {
        Some((payload, rest)) => if rest.len() < buf.len() {
            let (more, left) = split_all(rest);
            (seq![payload] + more, left)
        } else {
            (seq![], buf)
        },
        None => (seq![], buf),
    }
}

/// The bytes that carry each message of `ps` in turn.
pub open spec fn frames(ps: Seq<Seq<u8>>) -> Seq<u8>
    decreases ps.len(),
{
    if ps.len() == 0 {
        seq![]
    } else {
        frame(ps[0]) + frames(ps.drop_first())
    }
}

/// Messages sent one after the other are received as those messages, in
/// order, with nothing left over: the receiver splits the bytes of a run of
/// messages back into the messages.
pub proof fn frames_split_back_all(ps: Seq<Seq<u8>>)
    requires
        forall|i: int| 0 <= i < ps.len() ==> (#[trigger] ps[i]).len() < pow256(8),
    ensures
        split_all(frames(ps)) == (ps, Seq::<u8>::empty()),
    decreases ps.len(),
{
    if ps.len() == 0 {
        assert(split_frame(frames(ps)) is None);
    } else {
        let rest = frames(ps.drop_first());
        frame_splits_back(ps[0], rest);
        lemma_be_bytes_len(ps[0].len(), 8);
        assert(frames(ps).len() == 8 + ps[0].len() + rest.len());
        frames_split_back_all(ps.drop_first());
        assert(seq![ps[0]] + ps.drop_first() =~= ps);
    }
}

/// Gathers the bytes that arrive in chunks and hands out whole messages.
pub struct FrameReader {
    pending: Vec<u8>,
}

impl FrameReader {
    /// The bytes received and not yet handed out as a message.
    pub closed spec fn pending(&self) -> Seq<u8> {
        self.pending@
    }

    pub fn new() -> (r: FrameReader)
        ensures
            r.pending() == Seq::<u8>::empty(),
    {
        FrameReader { pending: Vec::new() }
    }

    /// Takes in a chunk read from the stream.
    pub fn push(&mut self, chunk: &[u8])
        ensures
            final(self).pending() == old(self).pending() + chunk@,
    {
        let mut i: usize = 0;
        while i < chunk.len()
            invariant
                i <= chunk.len(),
                self.pending@ == old(self).pending@ + chunk@.take(i as int),
            decreases chunk.len() - i,
        {
            self.pending.push(chunk[i]);
            i = i + 1;
            assert(self.pending@ =~= old(self).pending@ + chunk@.take(i as int));
        }
        assert(chunk@.take(i as int) =~= chunk@);
    }

    /// Every whole message that has arrived, in order; the bytes after the
    /// last of them stay pending.
    pub fn drain(&mut self) -> (r: Vec<Vec<u8>>)
        ensures
            r.deep_view() == split_all(old(self).pending()).0,
            final(self).pending() == split_all(old(self).pending()).1,
    {
        let mut r: Vec<Vec<u8>> = Vec::new();
        loop
            invariant
                r.deep_view() + split_all(self.pending()).0 == split_all(old(self).pending()).0,
                split_all(self.pending()).1 == split_all(old(self).pending()).1,
            decreases self.pending().len(),
        {
            let ghost before = self.pending();
            match self.next_frame() {
                Some(p) => {
                    proof {
                        let rest = self.pending();
                        assert(rest =~= before.skip(8 + be_value(before.take(8)) as int));
                        assert(rest.len() < before.len());
                        assert(split_all(before).0 =~= seq![p@] + split_all(rest).0);
                    }
                    let ghost old_r = r.deep_view();
                    assert(p.deep_view() =~= p@);
                    r.push(p);
                    assert(r.deep_view() =~= old_r.push(p@));
                    assert(r.deep_view() + split_all(self.pending()).0 =~= old_r + split_all(
                        before,
                    ).0);
                },
                None => {
                    assert(split_all(before).0 =~= Seq::<Seq<u8>>::empty());
                    assert(r.deep_view() + split_all(before).0 =~= r.deep_view());
                    return r;
                },
            }
        }
    }

    /// The next whole message, once all of its bytes have arrived; the
    /// bytes after it stay pending.
    pub fn next_frame(&mut self) -> (r: Option<Vec<u8>>)
        ensures
            match split_frame(old(self).pending()) {
                Some((payload, rest)) => r matches Some(p) && p@ == payload && final(self).pending()
                    == rest,
                None => r is None && final(self).pending() == old(self).pending(),
            },
    {
        let len = self.pending.len();
        if len < HEADER_LEN {
            return None;
        }
        let mut n: u64 = 0;
        let mut i: usize = 0;
        while i < HEADER_LEN
            invariant
                i <= HEADER_LEN <= len == self.pending.len(),
                n as nat == be_value(self.pending@.take(i as int)),
            decreases HEADER_LEN - i,
        {
            let ghost s = self.pending@.take(i as int + 1);
            proof {
                assert(s.drop_last() =~= self.pending@.take(i as int));
                lemma_be_value_bound(self.pending@.take(i as int));
                reveal_with_fuel(pow256, 9);
                let p = pow256(i as nat);
                assert(p <= pow256(7)) by {
                    if i < 7 {
                        assert(pow256(i as nat) <= pow256(7));
                    }
                }
                assert(n * 256 + 255 < 0x1_0000_0000_0000_0000) by (nonlinear_arith)
                    requires
                        n < p,
                        p <= 0x100_0000_0000_0000,
                ;
            }
            n = n * 256 + self.pending[i] as u64;
            i = i + 1;
        }
        let room = (len - HEADER_LEN) as u64;
        if room < n {
            return None;
        }
        let end = HEADER_LEN + n as usize;
        let payload = copy_range(&self.pending, HEADER_LEN, end);
        let rest = copy_range(&self.pending, end, len);
        assert(rest@ =~= old(self).pending().skip(end as int));
        self.pending = rest;
        Some(payload)
    }
}

} // verus!
