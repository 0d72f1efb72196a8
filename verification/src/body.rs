//! The streaming byte body of an http request or response.

use vstd::prelude::*;

verus! {

use vstd::pervasive::VecAdditionalExecFns;

/// How many bytes a read can hand over: all the remaining bytes if the
/// destination has room for them, else as many as fit.
pub open spec fn fill_len(remaining: Seq<u8>, dest_len: nat) -> nat {
    if remaining.len() <= dest_len {
        remaining.len()
    } else {
        dest_len
    }
}

/// The raw body of an http request or response.
///
/// A body owns its byte source and is consumed front to back: reading is the
/// only mutation, the position only advances, and a read of zero bytes means
/// end-of-stream. The bytes still to be delivered are the spec-level model,
/// [`Body::remaining`].
pub struct Body {
    data: Vec<u8>,
    pos: usize,
}

impl Body {
    #[verifier::type_invariant]
    spec fn inv(self) -> bool {
        self.pos <= self.data.len()
    }

    /// The bytes this body has not yet delivered, in the order a reader will
    /// receive them.
    pub closed spec fn remaining(self) -> Seq<u8> {
        self.data@.skip(self.pos as int)
    }

    /// Create a new empty body: its first read, and every read after it,
    /// reports end-of-stream.
    pub fn empty() -> (b: Self)
        ensures
            b.remaining() == Seq::<u8>::empty(),
    {
        let b = Body { data: Vec::new(), pos: 0 };
        proof {
            assert(b.remaining() =~= Seq::<u8>::empty());
        }
        b
    }

    /// Fill the front of `dest` with the next bytes of the body.
    ///
    /// Exactly `fill_len` bytes are written: all remaining bytes if `dest` has
    /// room, else `dest.len()` of them. The rest of `dest` keeps its old
    /// contents, and the body advances past the bytes handed over. A result of
    /// zero on a non-empty destination means end-of-stream, and once the body
    /// is exhausted every further read returns zero and changes nothing.
    pub fn read(&mut self, dest: &mut Vec<u8>) -> (n: usize)
        ensures
            n == fill_len(old(self).remaining(), old(dest)@.len()),
            final(self).remaining() == old(self).remaining().skip(n as int),
            final(dest)@.len() == old(dest)@.len(),
            final(dest)@ == old(self).remaining().take(n as int) + old(dest)@.skip(n as int),
            old(self).remaining().len() == 0 ==> n == 0 && final(self).remaining()
                == old(self).remaining() && final(dest)@ == old(dest)@,
    {
        proof {
            use_type_invariant(&*self);
        }
        let avail: usize = self.data.len() - self.pos;
        let n: usize = if avail < dest.len() {
            avail
        } else {
            dest.len()
        };
        let mut i: usize = 0;
        while i < n
            invariant
                i <= n,
                *self == *old(self),
                self.pos <= self.data.len(),
                n <= self.data.len() - self.pos,
                n <= old(dest)@.len(),
                dest@.len() == old(dest)@.len(),
                dest@ == old(self).remaining().take(i as int) + old(dest)@.skip(i as int),
            decreases n - i,
        {
            let b = self.data[self.pos + i];
            dest.set(i, b);
            proof {
                assert(old(self).remaining()[i as int] == b);
                assert(dest@ =~= old(self).remaining().take((i + 1) as int) + old(
                    dest,
                )@.skip((i + 1) as int));
            }
            i = i + 1;
        }
        proof {
            assert(dest@ =~= old(self).remaining().take(n as int) + old(dest)@.skip(n as int));
        }
        self.pos = self.pos + n;
        proof {
            assert(self.remaining() =~= old(self).remaining().skip(n as int));
            if old(self).remaining().len() == 0 {
                assert(self.remaining() =~= old(self).remaining());
                assert(dest@ =~= old(dest)@);
            }
        }
        n
    }

    /// Drain the body: the bytes come back exactly as the body held them, in
    /// order, and the body is left at end-of-stream, where a final read
    /// returns zero bytes.
    pub fn read_to_end(&mut self) -> (out: Vec<u8>)
        ensures
            out@ == old(self).remaining(),
            final(self).remaining().len() == 0,
    {
        let ghost orig = self.remaining();
        let mut out: Vec<u8> = Vec::new();
        let mut chunk: Vec<u8> = vec![0u8; 64];
        loop
            invariant
                chunk@.len() == 64,
                out@ + self.remaining() == orig,
            ensures
                out@ == orig,
                self.remaining().len() == 0,
            decreases self.remaining().len(),
        {
            let ghost pre = self.remaining();
            let ghost out_pre = out@;
            let n = self.read(&mut chunk);
            if n == 0 {
                proof {
                    assert(pre.len() == 0);
                    assert(self.remaining() =~= pre);
                    assert(out@ =~= orig);
                }
                break ;
            }
            let mut j: usize = 0;
            proof {
                assert(chunk@.take(n as int) =~= pre.take(n as int));
                assert(out@ =~= out_pre + chunk@.take(0));
            }
            while j < n
                invariant
                    j <= n,
                    n <= chunk@.len(),
                    chunk@.take(n as int) == pre.take(n as int),
                    out@ == out_pre + chunk@.take(j as int),
                decreases n - j,
            {
                out.push(chunk[j]);
                proof {
                    assert(out@ =~= out_pre + chunk@.take((j + 1) as int));
                }
                j = j + 1;
            }
            proof {
                assert(out@ + self.remaining() =~= out_pre + pre);
            }
        }
        out
    }
}

impl From<Vec<u8>> for Body {
    /// Wrap a byte buffer in a body that yields the buffer from the front,
    /// without copying, and signals end-of-stream once it is exhausted.
    fn from(data: Vec<u8>) -> (b: Body) {
        Body { data, pos: 0 }
    }
}

impl vstd::std_specs::convert::FromSpecImpl<Vec<u8>> for Body {
    open spec fn obeys_from_spec() -> bool {
        true
    }

    closed spec fn from_spec(data: Vec<u8>) -> Body {
        Body { data, pos: 0 }
    }
}

/// Reading loses and reorders nothing: the bytes one read hands over,
/// followed by the bytes the body then still holds, are exactly the bytes it
/// held before the read. Reading a body to exhaustion therefore yields
/// exactly the bytes it was built from, in order.
pub proof fn lemma_read_partitions_stream(remaining: Seq<u8>, dest_len: nat)
    ensures
        remaining.take(fill_len(remaining, dest_len) as int) + remaining.skip(
            fill_len(remaining, dest_len) as int,
        ) == remaining,
{
    assert(remaining.take(fill_len(remaining, dest_len) as int) + remaining.skip(
        fill_len(remaining, dest_len) as int,
    ) =~= remaining);
}

/// A body built from a byte buffer has exactly the buffer's bytes still to
/// deliver, in the buffer's order.
pub proof fn lemma_from_vec(data: Vec<u8>)
    ensures
        (<Body as vstd::std_specs::convert::FromSpec<Vec<u8>>>::from_spec(data)).remaining()
            == data@,
{
    assert((<Body as vstd::std_specs::convert::FromSpec<Vec<u8>>>::from_spec(data)).remaining()
        =~= data@);
}

} // verus!
