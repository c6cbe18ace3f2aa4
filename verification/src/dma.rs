//! Direct memory access to host memory, which the device reaches one
//! 64-byte word at a time.

use vstd::prelude::*;
use vstd::slice::slice_subrange;

use crate::types::DmaAddress;

verus! {

/// Width in bits of one memory word.
pub const WORD_WIDTH: u32 = 512;

/// Bytes of one memory word.
pub const BYTES_PER_WORD: u64 = 64;

/// Whether byte `i` of a word is written under the byte-enable mask `en`.
pub open spec fn byte_enabled(en: u64, i: int) -> bool {
    0 <= i < 64 && (en >> (i as u64)) & 1 == 1
}

/// `mem` after writing the bytes of `data` that `en` enables into word
/// `word`.
pub open spec fn spec_write_word(mem: Seq<u8>, word: int, data: Seq<u8>, en: u64) -> Seq<u8> {
    Seq::new(
        mem.len(),
        |i: int|
            if word * 64 <= i < word * 64 + 64 && byte_enabled(en, i - word * 64) {
                data[i - word * 64]
            } else {
                mem[i]
            },
    )
}

/// `mem` with `data` written at `addr`.
pub open spec fn spec_write_bytes(mem: Seq<u8>, addr: int, data: Seq<u8>) -> Seq<u8> {
    mem.take(addr) + data + mem.skip(addr + data.len())
}

/// One word write as the memory receives it: the client id, the word index,
/// the 64 bytes and the byte-enable mask.
pub type WordWrite = (u64, u64, Seq<u8>, u64);

/// Word-addressed memory that the device reads and writes (the block RAM of
/// the simulator, reached by RPC). Every access carries the id of the client
/// that makes it.
pub trait Client {
    /// The bytes of the memory.
    spec fn memory(&self) -> Seq<u8>;

    /// The word writes that the memory has received, oldest first.
    spec fn word_writes(&self) -> Seq<WordWrite>;

    /// Word `word` as a read made for client `client_id` gives it.
    spec fn word_read_by(&self, client_id: u64, word: u64) -> Seq<u8>;

    /// Number of bytes of the memory.
    fn len(&self) -> (res: usize)
        ensures
            res == self.memory().len(),
    ;

    /// The 64 bytes of word `word`, read for client `client_id`.
    fn read_word(&self, client_id: u64, word: u64) -> (res: Vec<u8>)
        requires
            (word + 1) * 64 <= self.memory().len(),
        ensures
            res@ == self.word_read_by(client_id, word),
            res@ == self.memory().subrange(word * 64, word * 64 + 64),
    ;

    /// Writes, for client `client_id`, the bytes of `data` that `byte_en`
    /// enables into word `word`; the write is recorded.
    fn write_word(&mut self, client_id: u64, word: u64, data: &[u8], byte_en: u64)
        requires
            (word + 1) * 64 <= old(self).memory().len(),
            data@.len() == 64,
        ensures
            final(self).memory() == spec_write_word(old(self).memory(), word as int, data@, byte_en),
            final(self).word_writes() == old(self).word_writes().push(
                (client_id, word, data@, byte_en),
            ),
    ;
}

/// Memory kept in a vector of bytes, with the word writes it received.
pub struct BramMemory {
    pub bytes: Vec<u8>,
    pub writes: Ghost<Seq<WordWrite>>,
}

impl BramMemory {
    /// A memory of `size` zero bytes that has received no write.
    pub fn new(size: usize) -> (res: Self)
        ensures
            res.bytes@ == Seq::new(size as nat, |i: int| 0u8),
            res.writes@ == Seq::<WordWrite>::empty(),
    {
        let mut bytes: Vec<u8> = Vec::new();
        let mut i: usize = 0;
        while i < size
            invariant
                i <= size,
                bytes@ == Seq::new(i as nat, |j: int| 0u8),
            decreases size - i,
        {
            bytes.push(0);
            i = i + 1;
            assert(bytes@ =~= Seq::new(i as nat, |j: int| 0u8));
        }
        BramMemory { bytes, writes: Ghost(Seq::empty()) }
    }
}

impl Client for BramMemory {
    open spec fn memory(&self) -> Seq<u8> {
        self.bytes@
    }

    open spec fn word_writes(&self) -> Seq<WordWrite> {
        self.writes@
    }

    /// Every client reads the same bytes of this memory.
    open spec fn word_read_by(&self, client_id: u64, word: u64) -> Seq<u8> {
        self.bytes@.subrange(word * 64, word * 64 + 64)
    }

    fn len(&self) -> (res: usize) {
        self.bytes.len()
    }

    fn read_word(&self, client_id: u64, word: u64) -> (res: Vec<u8>) {
        let _len = self.bytes.len();
        let base = (word * 64) as usize;
        let mut res: Vec<u8> = Vec::new();
        let mut i: usize = 0;
        while i < 64
            invariant
                base == word * 64,
                base + 64 <= self.bytes@.len(),
                i <= 64,
                res@ == self.bytes@.subrange(base as int, base + i),
            decreases 64 - i,
        {
            res.push(self.bytes[base + i]);
            i = i + 1;
            assert(res@ =~= self.bytes@.subrange(base as int, base + i));
        }
        res
    }

    fn write_word(&mut self, client_id: u64, word: u64, data: &[u8], byte_en: u64) {
        let _len = self.bytes.len();
        let base = (word * 64) as usize;
        let ghost old_mem = self.bytes@;
        let mut i: usize = 0;
        while i < 64
            invariant
                base == word * 64,
                base + 64 <= old_mem.len(),
                data@.len() == 64,
                i <= 64,
                self.bytes@.len() == old_mem.len(),
                self.writes == old(self).writes,
                forall|j: int|
                    0 <= j < old_mem.len() ==> #[trigger] self.bytes@[j] == if base <= j < base + i
                        && byte_enabled(byte_en, j - base) {
                        data@[j - base]
                    } else {
                        old_mem[j]
                    },
            decreases 64 - i,
        {
            let i64 = i as u64;
            if (byte_en >> i64) & 1 == 1 {
                self.bytes.set(base + i, data[i]);
            }
            i = i + 1;
        }
        assert(self.bytes@ =~= spec_write_word(old_mem, word as int, data@, byte_en));
        self.writes = Ghost(self.writes@.push((client_id, word, data@, byte_en)));
    }
}

/// Whether `after` is `before` followed by word writes all made by client
/// `client_id`.
pub open spec fn writes_extended_by(before: Seq<WordWrite>, after: Seq<WordWrite>, client_id: u64) -> bool {
    &&& before.len() <= after.len()
    &&& after.subrange(0, before.len() as int) == before
    &&& forall|i: int| before.len() <= i < after.len() ==> (#[trigger] after[i]).0 == client_id
}

/// Extending a record of word writes twice by one client extends it once.
pub proof fn lemma_writes_extended_trans(
    a: Seq<WordWrite>,
    b: Seq<WordWrite>,
    c: Seq<WordWrite>,
    client_id: u64,
)
    requires
        writes_extended_by(a, b, client_id),
        writes_extended_by(b, c, client_id),
    ensures
        writes_extended_by(a, c, client_id),
{
    assert(c.subrange(0, a.len() as int) =~= b.subrange(0, a.len() as int));
    assert forall|i: int| a.len() <= i < c.len() implies (#[trigger] c[i]).0 == client_id by {
        if i < b.len() {
            assert(c[i] == b[i]);
        }
    }
}

/// The 64-byte buffer of a word write that puts `len` bytes of `data` at
/// byte `start` of the word: those bytes there, zeros elsewhere.
pub open spec fn spec_word_buffer(start: int, len: int, data: Seq<u8>) -> Seq<u8> {
    Seq::new(64, |i: int| if start <= i < start + len { data[i - start] } else { 0u8 })
}

/// The byte-enable mask of a word write of `len` bytes at byte `start`.
pub open spec fn spec_byte_enable(start: u64, len: u64) -> u64 {
    if len == 64 {
        0xffff_ffff_ffff_ffffu64
    } else {
        (((1u64 << len) - 1) as u64) << start
    }
}

/// The buffer and byte-enable mask of a word write that puts the first `len`
/// bytes of `data` at byte `start` of the word: the mask enables exactly
/// bytes `start .. start + len`.
pub fn word_write_request(start: usize, len: usize, data: &[u8]) -> (res: (Vec<u8>, u64))
    requires
        start < 64,
        start + len <= 64,
        len <= data@.len(),
    ensures
        res.0@ == spec_word_buffer(start as int, len as int, data@),
        res.1 == spec_byte_enable(start as u64, len as u64),
        forall|i: int| 0 <= i < 64 ==> (byte_enabled(res.1, i) <==> start <= i < start + len),
{
    let mut buf: Vec<u8> = Vec::new();
    let mut i: usize = 0;
    while i < 64
        invariant
            start < 64,
            start + len <= 64,
            len <= data@.len(),
            i <= 64,
            buf@.len() == i,
            forall|j: int|
                0 <= j < i ==> #[trigger] buf@[j] == if start <= j < start + len {
                    data@[j - start]
                } else {
                    0u8
                },
        decreases 64 - i,
    {
        if start <= i && i < start + len {
            buf.push(data[i - start]);
        } else {
            buf.push(0);
        }
        i = i + 1;
    }
    assert(buf@ =~= spec_word_buffer(start as int, len as int, data@));
    let byte_en: u64 = if len == 64 {
        0xffff_ffff_ffff_ffff
    } else {
        let l = len as u64;
        assert(1u64 << l >= 1) by (bit_vector)
            requires
                l < 64,
        ;
        ((1u64 << l) - 1) << (start as u64)
    };
    proof {
        assert forall|i: int| 0 <= i < 64 implies (byte_enabled(byte_en, i) <==> start <= i
            < start + len) by {
            if len == 64 {
                let k = i as u64;
                assert((0xffff_ffff_ffff_ffffu64 >> k) & 1 == 1) by (bit_vector)
                    requires
                        k < 64,
                ;
            } else {
                lemma_byte_enable_mask(start as u64, len as u64, i as u64);
            }
        }
    }
    (buf, byte_en)
}

/// Reads and writes byte ranges of a word-addressed memory.
#[derive(Debug)]
pub struct DmaClient<R: Client> {
    pub client_id: u64,
    pub rpc: R,
}

/// The byte-enable mask of `len` bytes from byte `start` of a word.
pub proof fn lemma_byte_enable_mask(start: u64, len: u64, i: u64)
    requires
        start + len <= 64,
        len < 64,
        i < 64,
    ensures
        ((((1u64 << len) - 1) as u64) << start) >> i & 1 == 1 <==> start <= i < start + len,
{
    assert(((((1u64 << len) - 1) as u64) << start) >> i & 1 == 1 <==> start <= i < start + len)
        by (bit_vector)
        requires
            start + len <= 64,
            len < 64,
            i < 64,
    ;
}

/// A byte inside a memory whose size is a multiple of the word size lies in
/// a word that is wholly inside the memory.
pub proof fn lemma_word_in_bounds(addr: int, len: int)
    requires
        0 <= addr < len,
        len % 64 == 0,
    ensures
        (addr / 64 + 1) * 64 <= len,
        addr / 64 * 64 <= addr,
        addr - addr / 64 * 64 == addr % 64,
{
    assert((addr / 64 + 1) * 64 <= len) by (nonlinear_arith)
        requires
            0 <= addr < len,
            len % 64 == 0,
    ;
}

/// Writing `a` and then `b` right after it is writing `a + b`.
pub proof fn lemma_write_bytes_concat(mem: Seq<u8>, addr: int, a: Seq<u8>, b: Seq<u8>)
    requires
        0 <= addr,
        addr + a.len() + b.len() <= mem.len(),
    ensures
        spec_write_bytes(spec_write_bytes(mem, addr, a), addr + a.len(), b) == spec_write_bytes(
            mem,
            addr,
            a + b,
        ),
{
    let m1 = spec_write_bytes(mem, addr, a);
    let lhs = spec_write_bytes(m1, addr + a.len(), b);
    let rhs = spec_write_bytes(mem, addr, a + b);
    assert(m1.len() == mem.len());
    assert forall|i: int| 0 <= i < mem.len() implies lhs[i] == rhs[i] by {
        if i < addr {
            assert(lhs[i] == m1[i]);
        } else if i < addr + a.len() {
            assert(lhs[i] == m1[i]);
            assert(m1[i] == a[i - addr]);
            assert(rhs[i] == (a + b)[i - addr]);
        } else if i < addr + a.len() + b.len() {
            assert(lhs[i] == b[i - addr - a.len()]);
            assert(rhs[i] == (a + b)[i - addr]);
        } else {
            assert(lhs[i] == m1[i]);
            assert(m1[i] == mem[i]);
        }
    }
    assert(lhs =~= rhs);
}

/// After writing `data` at `addr`, the bytes at `addr` are `data` and all
/// other bytes are as they were.
pub proof fn lemma_read_after_write(mem: Seq<u8>, addr: int, data: Seq<u8>)
    requires
        0 <= addr,
        addr + data.len() <= mem.len(),
    ensures
        spec_write_bytes(mem, addr, data).len() == mem.len(),
        spec_write_bytes(mem, addr, data).subrange(addr, addr + data.len()) == data,
        forall|i: int|
            0 <= i < mem.len() && !(addr <= i < addr + data.len()) ==> #[trigger] spec_write_bytes(
                mem,
                addr,
                data,
            )[i] == mem[i],
{
    let m = spec_write_bytes(mem, addr, data);
    assert(m.subrange(addr, addr + data.len()) =~= data);
    assert forall|i: int|
        0 <= i < mem.len() && !(addr <= i < addr + data.len()) implies #[trigger] m[i] == mem[i] by {
        if i < addr {
            assert(m[i] == mem.take(addr)[i]);
        } else {
            assert(m[i] == mem.skip(addr + data.len())[i - addr - data.len()]);
        }
    }
}

impl<R: Client> DmaClient<R> {
    pub fn new(client_id: u64, rpc: R) -> (res: Self)
        ensures
            res.client_id == client_id,
            res.rpc == rpc,
    {
        DmaClient { client_id, rpc }
    }

    /// The bytes from `addr` to the end of its word, read as this client.
    pub fn read_at_64(&self, addr: u64) -> (res: Vec<u8>)
        requires
            (addr / 64 + 1) * 64 <= self.rpc.memory().len(),
        ensures
            res@ == self.rpc.word_read_by(self.client_id, addr / 64).subrange(
                (addr % 64) as int,
                64,
            ),
            res@ == self.rpc.memory().subrange(addr as int, (addr / 64 + 1) * 64),
            res@.len() == 64 - addr % 64,
    {
        let word = addr / BYTES_PER_WORD;
        let start = (addr % BYTES_PER_WORD) as usize;
        let buf = self.rpc.read_word(self.client_id, word);
        assert(word * 64 + 64 == (addr / 64 + 1) * 64);
        assert(buf@.len() == 64);
        let mut res: Vec<u8> = Vec::new();
        let mut i: usize = start;
        while i < 64
            invariant
                start == addr % 64,
                word == addr / 64,
                buf@ == self.rpc.memory().subrange(word * 64, word * 64 + 64),
                buf@ == self.rpc.word_read_by(self.client_id, word),
                buf@.len() == 64,
                start <= i <= 64,
                res@ == buf@.subrange(start as int, i as int),
            decreases 64 - i,
        {
            res.push(buf[i]);
            i = i + 1;
            assert(res@ =~= buf@.subrange(start as int, i as int));
        }
        assert(res@ =~= self.rpc.memory().subrange(addr as int, (addr / 64 + 1) * 64));
        assert(res@ =~= buf@.subrange(start as int, 64));
        res
    }

    /// Writes the longest prefix of `data` that fits into the word of
    /// `addr`, from `addr` on, and returns its length. The memory receives
    /// one word write for this client: word `addr / 64`, the prefix at byte
    /// `addr % 64` with zeros elsewhere, and a mask that enables exactly the
    /// bytes of the prefix.
    pub fn write_at_most_64(&mut self, addr: u64, data: &[u8]) -> (res: usize)
        requires
            (addr / 64 + 1) * 64 <= old(self).rpc.memory().len(),
        ensures
            res == if data@.len() < 64 - addr % 64 {
                data@.len() as int
            } else {
                64 - addr % 64
            },
            final(self).rpc.memory() == spec_write_bytes(
                old(self).rpc.memory(),
                addr as int,
                data@.take(res as int),
            ),
            final(self).rpc.word_writes() == old(self).rpc.word_writes().push(
                (
                    old(self).client_id,
                    addr / 64,
                    spec_word_buffer((addr % 64) as int, res as int, data@),
                    spec_byte_enable((addr % 64) as u64, res as u64),
                ),
            ),
            final(self).client_id == old(self).client_id,
    {
        let start = (addr % BYTES_PER_WORD) as usize;
        let word = addr / BYTES_PER_WORD;
        let len: usize = if data.len() < 64 - start {
            data.len()
        } else {
            64 - start
        };
        let (buf, byte_en) = word_write_request(start, len, data);
        let ghost old_mem = self.rpc.memory();
        self.rpc.write_word(self.client_id, word, buf.as_slice(), byte_en);
        proof {
            let new_mem = self.rpc.memory();
            let expect = spec_write_bytes(old_mem, addr as int, data@.take(len as int));
            assert(addr == word * 64 + start);
            assert forall|j: int| 0 <= j < new_mem.len() implies new_mem[j] == expect[j] by {
                if addr <= j < addr + len {
                    assert(expect[j] == data@.take(len as int)[j - addr]);
                } else if j < addr {
                    assert(expect[j] == old_mem.take(addr as int)[j]);
                } else {
                    assert(expect[j] == old_mem.skip(addr + len)[j - addr - len]);
                }
            }
            assert(new_mem =~= expect);
        }
        len
    }

    /// Reads a value of `size` bytes and alignment `align` from `src`,
    /// which must be aligned.
    pub fn read(&self, src: u64, size: usize, align: u64) -> (res: Vec<u8>)
        requires
            align > 0,
            src % align == 0,
            src + size <= self.rpc.memory().len(),
            self.rpc.memory().len() % 64 == 0,
            self.rpc.memory().len() <= u64::MAX,
        ensures
            res@ == self.rpc.memory().subrange(src as int, src + size),
    {
        let ghost mem = self.rpc.memory();
        let mut res: Vec<u8> = Vec::new();
        let mut n: usize = 0;
        while n < size
            invariant
                mem == self.rpc.memory(),
                src + size <= mem.len(),
                mem.len() % 64 == 0,
                mem.len() <= u64::MAX,
                n <= size,
                res@ == mem.subrange(src as int, src + n),
            decreases size - n,
        {
            let addr = src + n as u64;
            proof {
                lemma_word_in_bounds(addr as int, mem.len() as int);
            }
            let chunk = self.read_at_64(addr);
            let len: usize = if chunk.len() < size - n {
                chunk.len()
            } else {
                size - n
            };
            let mut j: usize = 0;
            while j < len
                invariant
                    mem == self.rpc.memory(),
                    src + size <= mem.len(),
                    addr == src + n,
                    (addr / 64 + 1) * 64 <= mem.len(),
                    addr <= (addr / 64 + 1) * 64,
                    n + len <= size,
                    len <= chunk@.len(),
                    chunk@ == mem.subrange(addr as int, (addr / 64 + 1) * 64),
                    j <= len,
                    res@ == mem.subrange(src as int, src + n + j),
                decreases len - j,
            {
                res.push(chunk[j]);
                j = j + 1;
                assert(res@ =~= mem.subrange(src as int, src + n + j));
            }
            n = n + len;
        }
        res
    }

    /// Writes `data` at `addr`.
    pub fn write_bytes(&mut self, addr: u64, data: &[u8])
        requires
            addr + data@.len() <= old(self).rpc.memory().len(),
            old(self).rpc.memory().len() % 64 == 0,
            old(self).rpc.memory().len() <= u64::MAX,
        ensures
            final(self).rpc.memory() == spec_write_bytes(
                old(self).rpc.memory(),
                addr as int,
                data@,
            ),
            final(self).client_id == old(self).client_id,
            writes_extended_by(
                old(self).rpc.word_writes(),
                final(self).rpc.word_writes(),
                old(self).client_id,
            ),
    {
        let ghost mem0 = self.rpc.memory();
        let ghost w0 = self.rpc.word_writes();
        assert(w0.subrange(0, w0.len() as int) =~= w0);
        let mut off: usize = 0;
        assert(spec_write_bytes(mem0, addr as int, data@.take(0)) =~= mem0);
        while off < data.len()
            invariant
                addr + data@.len() <= mem0.len(),
                mem0.len() % 64 == 0,
                mem0.len() <= u64::MAX,
                off <= data@.len(),
                self.rpc.memory() == spec_write_bytes(mem0, addr as int, data@.take(off as int)),
                self.rpc.memory().len() == mem0.len(),
                self.client_id == old(self).client_id,
                w0 == old(self).rpc.word_writes(),
                writes_extended_by(w0, self.rpc.word_writes(), self.client_id),
            decreases data@.len() - off,
        {
            let a = addr + off as u64;
            let rest = slice_subrange(data, off, data.len());
            proof {
                lemma_word_in_bounds(a as int, mem0.len() as int);
            }
            let ghost before = self.rpc.word_writes();
            let n = self.write_at_most_64(a, rest);
            proof {
                let after = self.rpc.word_writes();
                assert(after.subrange(0, before.len() as int) =~= before);
                assert(after.subrange(0, w0.len() as int) =~= before.subrange(0, w0.len() as int));
                assert forall|i: int| w0.len() <= i < after.len() implies (#[trigger] after[i]).0
                    == self.client_id by {
                    if i < before.len() {
                        assert(after[i] == before[i]);
                    }
                }
                assert(rest@.take(n as int) =~= data@.subrange(off as int, off + n));
                lemma_write_bytes_concat(
                    mem0,
                    addr as int,
                    data@.take(off as int),
                    data@.subrange(off as int, off + n),
                );
                assert(data@.take(off as int) + data@.subrange(off as int, off + n) =~= data@.take(
                    off + n,
                ));
            }
            off = off + n;
        }
        assert(data@.take(data@.len() as int) =~= data@);
    }

    /// Writes the bytes of a value at `dst`.
    pub fn write(&mut self, dst: u64, src: &[u8])
        requires
            dst + src@.len() <= old(self).rpc.memory().len(),
            old(self).rpc.memory().len() % 64 == 0,
            old(self).rpc.memory().len() <= u64::MAX,
        ensures
            final(self).rpc.memory() == spec_write_bytes(old(self).rpc.memory(), dst as int, src@),
            final(self).client_id == old(self).client_id,
            writes_extended_by(
                old(self).rpc.word_writes(),
                final(self).rpc.word_writes(),
                old(self).client_id,
            ),
    {
        self.write_bytes(dst, src)
    }

    /// Copies `count` values of `size` bytes each from `src` to `dst`, one
    /// after the other: value `i` goes to `dst + i * size`. The `count * size`
    /// bytes from `dst` become those of `src`; no other byte changes.
    pub fn copy_nonoverlapping(&mut self, src: &[u8], dst: u64, count: usize, size: usize)
        requires
            src@.len() == count * size,
            dst + count * size <= old(self).rpc.memory().len(),
            old(self).rpc.memory().len() % 64 == 0,
            old(self).rpc.memory().len() <= u64::MAX,
        ensures
            final(self).rpc.memory() == spec_write_bytes(old(self).rpc.memory(), dst as int, src@),
            final(self).client_id == old(self).client_id,
            writes_extended_by(
                old(self).rpc.word_writes(),
                final(self).rpc.word_writes(),
                old(self).client_id,
            ),
    {
        let ghost mem0 = self.rpc.memory();
        let ghost w0 = self.rpc.word_writes();
        assert(w0.subrange(0, w0.len() as int) =~= w0);
        let _src_len = src.len();
        let mut i: usize = 0;
        let mut off: usize = 0;
        assert(spec_write_bytes(mem0, dst as int, src@.take(0)) =~= mem0);
        while i < count
            invariant
                src@.len() == count * size,
                dst + count * size <= mem0.len(),
                mem0.len() % 64 == 0,
                mem0.len() <= u64::MAX,
                i <= count,
                off == i * size,
                off <= src@.len(),
                src@.len() <= usize::MAX,
                self.rpc.memory() == spec_write_bytes(mem0, dst as int, src@.take(off as int)),
                self.client_id == old(self).client_id,
                w0 == old(self).rpc.word_writes(),
                writes_extended_by(w0, self.rpc.word_writes(), self.client_id),
            decreases count - i,
        {
            proof {
                assert((i + 1) * size <= count * size) by (nonlinear_arith)
                    requires
                        i < count,
                ;
                assert((i + 1) * size == i * size + size) by (nonlinear_arith);
            }
            let elem = slice_subrange(src, off, off + size);
            let ghost before = self.rpc.word_writes();
            self.write_bytes(dst + off as u64, elem);
            proof {
                lemma_writes_extended_trans(w0, before, self.rpc.word_writes(), self.client_id);
                lemma_write_bytes_concat(mem0, dst as int, src@.take(off as int), elem@);
                assert(src@.take(off as int) + elem@ =~= src@.take(off + size));
            }
            i = i + 1;
            off = off + size;
        }
        assert(src@.take(off as int) =~= src@);
    }

    /// A pointer to values of `size` bytes and alignment `align` at `addr`.
    pub fn with_dma_addr(&self, addr: DmaAddress, size: u64, align: u64) -> (res: Ptr)
        ensures
            res == (Ptr { addr, size, align }),
    {
        Ptr::new(addr, size, align)
    }
}

/// A pointer into the device-reachable memory to values of `size` bytes and
/// alignment `align`.
#[derive(Debug, Clone, Copy, PartialEq, Eq, Structural)]
pub struct Ptr {
    pub addr: DmaAddress,
    pub size: u64,
    pub align: u64,
}

impl Ptr {
    pub fn new(addr: DmaAddress, size: u64, align: u64) -> (res: Self)
        ensures
            res == (Ptr { addr, size, align }),
    {
        Ptr { addr, size, align }
    }

    /// The pointer `count` values further.
    pub fn add(self, count: u64) -> (res: Self)
        requires
            self.addr.0 + count * self.size <= u64::MAX,
        ensures
            res == (Ptr { addr: DmaAddress((self.addr.0 + count * self.size) as u64), ..self }),
    {
        proof {
            assert(0 <= count * self.size) by (nonlinear_arith);
        }
        Ptr { addr: DmaAddress(self.addr.0 + count * self.size), size: self.size, align: self.align }
    }

    /// Reads the value the pointer points to; the pointer must be aligned.
    pub fn read<R: Client>(self, client: &DmaClient<R>) -> (res: Vec<u8>)
        requires
            self.align > 0,
            self.addr.0 % self.align == 0,
            self.addr.0 + self.size <= client.rpc.memory().len(),
            client.rpc.memory().len() % 64 == 0,
            client.rpc.memory().len() <= u64::MAX,
            self.size <= usize::MAX,
        ensures
            res@ == client.rpc.memory().subrange(self.addr.0 as int, self.addr.0 + self.size),
    {
        client.read(self.addr.0, self.size as usize, self.align)
    }

    /// Writes a value of `size` bytes where the pointer points.
    pub fn write<R: Client>(self, client: &mut DmaClient<R>, val: &[u8])
        requires
            val@.len() == self.size,
            self.addr.0 + self.size <= old(client).rpc.memory().len(),
            old(client).rpc.memory().len() % 64 == 0,
            old(client).rpc.memory().len() <= u64::MAX,
        ensures
            final(client).rpc.memory() == spec_write_bytes(
                old(client).rpc.memory(),
                self.addr.0 as int,
                val@,
            ),
            final(client).client_id == old(client).client_id,
    {
        client.write(self.addr.0, val)
    }

    /// Writes raw bytes where the pointer points.
    pub fn write_bytes<R: Client>(self, client: &mut DmaClient<R>, data: &[u8])
        requires
            self.addr.0 + data@.len() <= old(client).rpc.memory().len(),
            old(client).rpc.memory().len() % 64 == 0,
            old(client).rpc.memory().len() <= u64::MAX,
        ensures
            final(client).rpc.memory() == spec_write_bytes(
                old(client).rpc.memory(),
                self.addr.0 as int,
                data@,
            ),
            final(client).client_id == old(client).client_id,
    {
        client.write_bytes(self.addr.0, data)
    }

    /// Copies `count` values from `src` to where the pointer points, value
    /// `i` to the `i`-th place from there.
    pub fn copy_nonoverlapping<R: Client>(self, client: &mut DmaClient<R>, src: &[u8], count: usize)
        requires
            src@.len() == count * self.size,
            self.size <= usize::MAX,
            self.addr.0 + count * self.size <= old(client).rpc.memory().len(),
            old(client).rpc.memory().len() % 64 == 0,
            old(client).rpc.memory().len() <= u64::MAX,
        ensures
            final(client).rpc.memory() == spec_write_bytes(
                old(client).rpc.memory(),
                self.addr.0 as int,
                src@,
            ),
            final(client).client_id == old(client).client_id,
    {
        client.copy_nonoverlapping(src, self.addr.0, count, self.size as usize)
    }
}

} // verus!
