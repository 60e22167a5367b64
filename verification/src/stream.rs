use vstd::prelude::*;

verus! {

/// Byte-by-byte equality of two byte slices.
pub fn bytes_eq(a: &[u8], b: &[u8]) -> (r: bool)
    ensures
        r == (a@ == b@),
{
    let n = a.len();
    let m = b.len();
    if n != m {
        return false;
    }
    let mut i: usize = 0;
    while i < n
        invariant
            0 <= i <= n,
            n == a@.len(),
            n == b@.len(),
            forall|k: int| 0 <= k < i ==> a@[k] == b@[k],
        decreases n - i,
    {
        if a[i] != b[i] {
            return false;
        }
        i = i + 1;
    }
    proof {
        assert(a@ =~= b@);
    }
    true
}

/// One side's view of a byte connection: the bytes that have arrived (or
/// will arrive) on it, how many of them have been consumed, and the bytes
/// written to it so far.
///
/// The protocol layer is verified against this model; the thin unverified
/// layer around the library moves bytes between it and a real socket.  A
/// read past the end of `input` models the peer closing the connection or
/// a transport fault.
#[derive(Debug)]
pub struct ByteStream {
    pub input: Vec<u8>,
    pub read_pos: usize,
    pub output: Vec<u8>,
}

impl ByteStream {
    /// The model invariant: the read position never passes the end of the
    /// arrived bytes.
    pub open spec fn wf(&self) -> bool {
        self.read_pos <= self.input@.len()
    }

    /// The bytes that have arrived and are not yet consumed.
    pub open spec fn remaining(&self) -> Seq<u8> {
        self.input@.skip(self.read_pos as int)
    }

    /// A stream that will deliver exactly `input` and has sent nothing.
    pub fn new(input: Vec<u8>) -> (s: ByteStream)
        ensures
            s.input@ == input@,
            s.read_pos == 0,
            s.output@ =~= Seq::<u8>::empty(),
            s.wf(),
            s.remaining() =~= input@,
    {
        ByteStream { input, read_pos: 0, output: Vec::new() }
    }

    /// Reads one byte; `None` models the stream ending first.
    pub fn read_byte(&mut self) -> (r: Option<u8>)
        requires
            old(self).wf(),
        ensures
            final(self).wf(),
            final(self).input == old(self).input,
            final(self).output == old(self).output,
            match r {
                Some(b) => old(self).remaining().len() > 0 && b == old(self).remaining()[0]
                    && final(self).read_pos == old(self).read_pos + 1,
                None => old(self).remaining().len() == 0 && *final(self) == *old(self),
            },
    {
        if self.read_pos < self.input.len() {
            let b = self.input[self.read_pos];
            self.read_pos = self.read_pos + 1;
            Some(b)
        } else {
            None
        }
    }

    /// Reads exactly `n` bytes; `None` models the stream ending first, in
    /// which case nothing is consumed.
    pub fn read_exact(&mut self, n: usize) -> (r: Option<Vec<u8>>)
        requires
            old(self).wf(),
        ensures
            final(self).wf(),
            final(self).input == old(self).input,
            final(self).output == old(self).output,
            match r {
                Some(buf) => old(self).remaining().len() >= n && buf@ == old(self).remaining().take(
                    n as int,
                ) && final(self).read_pos == old(self).read_pos + n,
                None => old(self).remaining().len() < n && *final(self) == *old(self),
            },
    {
        if n > self.input.len() - self.read_pos {
            return None;
        }
        let mut buf: Vec<u8> = Vec::new();
        let mut i: usize = 0;
        while i < n
            invariant
                0 <= i <= n,
                self.read_pos + n <= self.input@.len(),
                self.read_pos + n <= usize::MAX,
                buf@ =~= self.input@.subrange(self.read_pos as int, self.read_pos + i),
            decreases n - i,
        {
            buf.push(self.input[self.read_pos + i]);
            i = i + 1;
        }
        proof {
            assert(buf@ =~= self.remaining().take(n as int));
        }
        self.read_pos = self.read_pos + n;
        Some(buf)
    }

    /// Writes all of `data` to the stream.
    pub fn write_bytes(&mut self, data: &[u8])
        requires
            old(self).wf(),
        ensures
            final(self).wf(),
            final(self).input == old(self).input,
            final(self).read_pos == old(self).read_pos,
            final(self).output@ == old(self).output@ + data@,
    {
        let n = data.len();
        let mut i: usize = 0;
        while i < n
            invariant
                0 <= i <= n,
                n == data@.len(),
                self.input == old(self).input,
                self.read_pos == old(self).read_pos,
                self.output@ =~= old(self).output@ + data@.take(i as int),
            decreases n - i,
        {
            self.output.push(data[i]);
            i = i + 1;
        }
        proof {
            assert(data@.take(n as int) =~= data@);
        }
    }

    /// Writes a single byte to the stream.
    pub fn write_byte(&mut self, b: u8)
        requires
            old(self).wf(),
        ensures
            final(self).wf(),
            final(self).input == old(self).input,
            final(self).read_pos == old(self).read_pos,
            final(self).output@ == old(self).output@.push(b),
    {
        self.output.push(b);
    }

    /// Writes the UTF-8 bytes of a string to the stream.
    pub fn write_str(&mut self, data: &str)
        requires
            old(self).wf(),
        ensures
            final(self).wf(),
            final(self).input == old(self).input,
            final(self).read_pos == old(self).read_pos,
            final(self).output@ == old(self).output@ + vstd::utf8::encode_utf8(data@),
    {
        self.write_bytes(data.as_bytes());
    }
}

} // verus!
