use vstd::prelude::*;

verus! {

/// How many bytes are read ahead of an upload to recognise its content.
pub const SNIFF_LEN: usize = 1024;

/// `std::io::Error`, carried unchanged inside `ReadError::Io`.
#[verifier::external_type_specification]
#[verifier::external_body]
pub struct ExIoError(std::io::Error);

/// A failed read.
#[derive(Debug)]
pub enum ReadError {
    /// The read was interrupted before any byte arrived; it may be retried.
    Interrupted,
    /// Any other failure of the underlying reader.
    Io(std::io::Error),
}

/// Relies on `std::io::Read::read`, handed the part of `buf` from `filled`
/// on: on success it reports how many bytes it wrote there, never more than
/// that part holds, and it cannot touch the bytes before `filled`. An error
/// of kind `Interrupted` is told apart from the others.
#[verifier::external_body]
fn read_into<R: std::io::Read>(file: &mut R, buf: &mut [u8], filled: usize) -> (r: Result<usize, ReadError>)
    requires
        filled <= old(buf)@.len(),
    ensures
        final(buf)@.len() == old(buf)@.len(),
        final(buf)@.subrange(0, filled as int) == old(buf)@.subrange(0, filled as int),
        r matches Ok(n) ==> n <= old(buf)@.len() - filled,
{
    match file.read(&mut buf[filled..]) {
        Ok(n) => Ok(n),
        Err(e) if e.kind() == std::io::ErrorKind::Interrupted => Err(ReadError::Interrupted),
        Err(e) => Err(ReadError::Io(e)),
    }
}

/// What filling a buffer does after one read.
#[derive(Debug)]
pub enum FillStep {
    /// Read on, with this many bytes now filled.
    Continue(usize),
    /// The read was interrupted: read again, with this many retries left.
    Retry(u64),
    /// The reader reported its end: this many bytes were filled.
    Done(usize),
    /// Stop with this error.
    Fail(ReadError),
}

/// The step taken after a read that came back `got`, when `filled` of `len`
/// bytes are filled and `retries` more interruptions are tolerated: a read
/// of no bytes ends the filling, a read of some bytes adds them, an
/// interruption is retried while retries are left, and any other failure
/// stops the filling with that failure.
pub fn fill_step(filled: usize, len: usize, retries: u64, got: Result<usize, ReadError>) -> (r: FillStep)
    requires
        filled <= len,
        got matches Ok(n) ==> n <= len - filled,
    ensures
        match got {
            Ok(n) => if n == 0 {
                r == FillStep::Done(filled)
            } else {
                r == FillStep::Continue((filled + n) as usize)
            },
            Err(ReadError::Interrupted) => if retries == 0 {
                r == FillStep::Fail(ReadError::Interrupted)
            } else {
                r == FillStep::Retry((retries - 1) as u64)
            },
            Err(ReadError::Io(e)) => r == FillStep::Fail(ReadError::Io(e)),
        },
{
    match got {
        Ok(0) => FillStep::Done(filled),
        Ok(n) => FillStep::Continue(filled + n),
        Err(ReadError::Interrupted) => {
            if retries == 0 {
                FillStep::Fail(ReadError::Interrupted)
            } else {
                FillStep::Retry(retries - 1)
            }
        },
        Err(e) => FillStep::Fail(e),
    }
}

/// Reads from `file` until `buf` is full or the reader reports its end,
/// retrying interrupted reads, and returns how many bytes were read into
/// the front of `buf`. Each read is handed the unfilled rest of `buf`, so
/// the bytes already read stay in place; what the reader hands out is up to
/// the reader, and [`fill_step`] fixes what is done with each answer. It
/// gives up with `Interrupted` only after `u64::MAX` interruptions in all.
pub fn read_up_to<R: std::io::Read>(file: &mut R, buf: &mut [u8]) -> (r: Result<usize, ReadError>)
    ensures
        final(buf)@.len() == old(buf)@.len(),
        r matches Ok(n) ==> n <= old(buf)@.len(),
        old(buf)@.len() == 0 ==> (r matches Ok(n) && n == 0),
{
    let len = buf.len();
    let mut filled: usize = 0;
    let mut retries: u64 = u64::MAX;
    while filled < len
        invariant
            len == old(buf)@.len(),
            buf@.len() == len,
            filled <= len,
        decreases len - filled, retries,
    {
        let got = read_into(file, buf, filled);
        match fill_step(filled, len, retries, got) {
            FillStep::Continue(k) => {
                filled = k;
            },
            FillStep::Retry(left) => {
                retries = left;
            },
            FillStep::Done(k) => {
                return Ok(k);
            },
            FillStep::Fail(e) => {
                return Err(e);
            },
        }
    }
    Ok(filled)
}

/// A reader that yields the bytes read ahead of it (its head) and then the
/// rest of an underlying reader, so that content read for sniffing is still
/// sent in full and in order.
pub struct PeekedReader<R> {
    head: Vec<u8>,
    pos: usize,
    inner: R,
    from_inner: Ghost<Seq<u8>>,
}

impl<R: std::io::Read> PeekedReader<R> {
    /// The bytes read ahead.
    pub closed spec fn head_view(&self) -> Seq<u8> {
        self.head@
    }

    /// How many bytes of the head have been handed out.
    pub closed spec fn head_pos(&self) -> nat {
        self.pos as nat
    }

    /// The bytes handed out so far that came from the underlying reader.
    pub closed spec fn inner_bytes(&self) -> Seq<u8> {
        self.from_inner@
    }

    /// The head is handed out first, and the underlying reader is only read
    /// once all of the head is out.
    pub closed spec fn wf(&self) -> bool {
        &&& self.pos <= self.head@.len()
        &&& self.from_inner@.len() > 0 ==> self.pos == self.head@.len()
    }

    /// Every byte handed out so far, in order.
    pub open spec fn served(&self) -> Seq<u8> {
        self.head_view().take(self.head_pos() as int) + self.inner_bytes()
    }

    /// A reader that yields the first `n` bytes of `buf` and then what
    /// `inner` yields.
    pub fn new(buf: &[u8], n: usize, inner: R) -> (r: Self)
        requires
            n <= buf@.len(),
        ensures
            r.wf(),
            r.head_view() == buf@.take(n as int),
            r.served() == Seq::<u8>::empty(),
    {
        let mut head: Vec<u8> = Vec::new();
        let mut i: usize = 0;
        while i < n
            invariant
                n <= buf@.len(),
                i <= n,
                head@ == buf@.take(i as int),
            decreases n - i,
        {
            head.push(buf[i]);
            i = i + 1;
            assert(head@ =~= buf@.take(i as int));
        }
        let r = PeekedReader { head, pos: 0, inner, from_inner: Ghost(Seq::empty()) };
        assert(r.served() =~= Seq::<u8>::empty());
        r
    }

    /// Fills the front of `out` with the next bytes: from the head while any
    /// of it is left, then from the underlying reader. `Ok(0)` with a
    /// non-empty `out` means that both are exhausted.
    pub fn read(&mut self, out: &mut [u8]) -> (r: Result<usize, ReadError>)
        requires
            old(self).wf(),
        ensures
            final(self).wf(),
            final(self).head_view() == old(self).head_view(),
            final(out)@.len() == old(out)@.len(),
            r matches Ok(n) ==> (n <= old(out)@.len()
                && final(self).served() == old(self).served() + final(out)@.take(n as int)),
            r is Err ==> final(self).served() == old(self).served(),
            old(self).head_pos() < old(self).head_view().len() && old(out)@.len() > 0
                ==> (r matches Ok(n) && n > 0 && final(self).inner_bytes().len() == 0),
    {
        let hl: usize = self.head.len();
        let left = hl - self.pos;
        if left > 0 {
            let k = if left < out.len() { left } else { out.len() };
            let mut i: usize = 0;
            while i < k
                invariant
                    k <= out@.len(),
                    hl == self.head@.len(),
                    k <= self.head@.len() - self.pos,
                    self.pos <= self.head@.len(),
                    i <= k,
                    out@.len() == old(out)@.len(),
                    forall|j: int| 0 <= j < i ==> out@[j] == self.head@[self.pos + j],
                decreases k - i,
            {
                out[i] = self.head[self.pos + i];
                i = i + 1;
            }
            proof {
                assert(self.head@.take(self.pos + k) =~= self.head@.take(self.pos as int) + out@.take(k as int));
            }
            self.pos = self.pos + k;
            Ok(k)
        } else {
            let got = read_into(&mut self.inner, out, 0);
            match got {
                Ok(n) => {
                    self.from_inner = Ghost(self.from_inner@ + out@.take(n as int));
                    proof {
                        assert(self.served() =~= old(self).served() + out@.take(n as int));
                    }
                    Ok(n)
                },
                Err(e) => Err(e),
            }
        }
    }
}

/// What a peeked reader hands out is its head followed by what the
/// underlying reader gave, with no byte lost or repeated: before the head
/// is all out, a prefix of the head; after, the whole head and then the
/// bytes of the underlying reader.
pub proof fn peeked_output_is_head_then_rest<R: std::io::Read>(r: PeekedReader<R>)
    requires
        r.wf(),
    ensures
        r.inner_bytes().len() > 0 ==> r.served() == r.head_view() + r.inner_bytes(),
        r.inner_bytes().len() == 0 ==> r.served() == r.head_view().take(r.head_pos() as int),
        r.served().len() == r.head_pos() + r.inner_bytes().len(),
{
    assert(r.inner_bytes().len() > 0 ==> r.head_view().take(r.head_pos() as int) =~= r.head_view());
    assert(r.inner_bytes().len() == 0 ==> r.served() =~= r.head_view().take(r.head_pos() as int));
}

} // verus!
