//! Files stored in the pages of a database.
//!
//! A file is a byte sequence of `len` bytes kept in whole pages of
//! `PAGE_SIZE` bytes. The header (`root`, `len`) is what is persisted to find
//! the file again: `root` names the page tree of the file in the database
//! (`0` when the file has no page) and `len` is its length.
//!
//! The page storage of the database is held in memory by `DatabaseRef`:
//! tree `r` (for `r >= 1`) is the byte sequence of the pages of the file
//! whose root is `r`, laid end to end.

use vstd::prelude::*;
use vstd::bytes::{
    spec_u32_from_le_bytes, spec_u32_to_le_bytes, spec_u64_from_le_bytes, spec_u64_to_le_bytes,
};
use crate::db::bytes::{
    ByteOrder, in_order, native_byte_order, u32_from_bytes, u32_to_bytes, u64_from_bytes,
    u64_to_bytes,
};

verus! {

/// Size of a database page in bytes.
pub const PAGE_SIZE: usize = 4096;

/// Number of a page in the database.
pub type PageNr = u32;

/// Size of a serialized file header in bytes.
pub const HEADER_SIZE: usize = 12;

/// Number of pages needed for `len` bytes.
pub open spec fn page_count(len: int) -> int {
    (len + PAGE_SIZE - 1) / (PAGE_SIZE as int)
}

/// `n` zero bytes.
pub open spec fn zeros(n: int) -> Seq<u8> {
    Seq::new(n as nat, |i: int| 0u8)
}

/// `data` cut or zero-extended to `n` bytes.
pub open spec fn resized(data: Seq<u8>, n: int) -> Seq<u8> {
    if n <= data.len() {
        data.take(n)
    } else {
        data + zeros(n - data.len())
    }
}

/// `data` with the bytes from `at` on replaced by `bytes`.
pub open spec fn overwrite(data: Seq<u8>, at: int, bytes: Seq<u8>) -> Seq<u8> {
    Seq::new(
        data.len(),
        |i: int|
            if at <= i < at + bytes.len() {
                bytes[i - at]
            } else {
                data[i]
            },
    )
}

/// The persisted description of a file.
#[derive(Clone, Copy, Debug)]
pub struct FileHeader {
    pub root: PageNr,
    pub len: u64,
}

impl Default for FileHeader {
    fn default() -> (h: Self)
        ensures
            h.root == 0,
            h.len == 0,
    {
        FileHeader { root: 0, len: 0 }
    }
}

/// The serialized form of a header in byte order `order`: the root (4 bytes)
/// followed by the length (8 bytes).
pub open spec fn spec_header_bytes(h: FileHeader, order: ByteOrder) -> Seq<u8> {
    in_order(spec_u32_to_le_bytes(h.root), order) + in_order(spec_u64_to_le_bytes(h.len), order)
}

/// The header whose serialized form in byte order `order` starts `bytes`.
pub open spec fn spec_header_from_bytes(bytes: Seq<u8>, order: ByteOrder) -> FileHeader {
    FileHeader {
        root: spec_u32_from_le_bytes(in_order(bytes.subrange(0, 4), order)),
        len: spec_u64_from_le_bytes(in_order(bytes.subrange(4, 12), order)),
    }
}

impl FileHeader {
    /// Number of pages that hold the file's bytes.
    pub fn pages(&self) -> (n: usize)
        requires
            self.len + PAGE_SIZE <= usize::MAX,
        ensures
            n == page_count(self.len as int),
    {
        let len = self.len as usize;
        assert(len == self.len);
        (len + PAGE_SIZE - 1) / PAGE_SIZE
    }

    /// The serialized header in byte order `order`.
    pub fn to_bytes(&self, order: ByteOrder) -> (bytes: Vec<u8>)
        ensures
            bytes@ == spec_header_bytes(*self, order),
            bytes@.len() == HEADER_SIZE,
    {
        let mut bytes = u32_to_bytes(self.root, order);
        let mut len = u64_to_bytes(self.len, order);
        bytes.append(&mut len);
        bytes
    }

    /// Reads a header serialized in byte order `order` from the first
    /// `HEADER_SIZE` bytes of `bytes`.
    pub fn from_bytes(bytes: &[u8], order: ByteOrder) -> (h: FileHeader)
        requires
            bytes@.len() >= HEADER_SIZE,
        ensures
            h == spec_header_from_bytes(bytes@, order),
    {
        FileHeader { root: u32_from_bytes(bytes, 0, order), len: u64_from_bytes(bytes, 4, order) }
    }
}

/// Serializing a header and reading it back in the same byte order gives
/// the same header.
pub proof fn lemma_header_round_trip(h: FileHeader, order: ByteOrder)
    ensures
        spec_header_bytes(h, order).len() == HEADER_SIZE,
        spec_header_from_bytes(spec_header_bytes(h, order), order) == h,
{
    vstd::bytes::lemma_auto_spec_u32_to_from_le_bytes();
    vstd::bytes::lemma_auto_spec_u64_to_from_le_bytes();
    crate::db::bytes::lemma_in_order_involutive(spec_u32_to_le_bytes(h.root), order);
    crate::db::bytes::lemma_in_order_involutive(spec_u64_to_le_bytes(h.len), order);
    crate::db::bytes::lemma_round_trip(h.root, h.len, order);
    let b = spec_header_bytes(h, order);
    assert(b.subrange(0, 4) =~= in_order(spec_u32_to_le_bytes(h.root), order));
    assert(b.subrange(4, 12) =~= in_order(spec_u64_to_le_bytes(h.len), order));
}

/// The page storage of a database.
pub struct DatabaseRef {
    trees: Vec<Vec<u8>>,
    order: ByteOrder,
}

impl View for DatabaseRef {
    type V = Seq<Seq<u8>>;

    /// Entry `r - 1` is the page data of the tree with root `r`.
    closed spec fn view(&self) -> Seq<Seq<u8>> {
        Seq::new(self.trees@.len(), |i: int| self.trees@[i]@)
    }
}

/// The abstract state of a file: its header and the page trees of its
/// database.
pub struct FileView {
    pub root: PageNr,
    pub len: nat,
    pub trees: Seq<Seq<u8>>,
    /// The byte order in which the database stores file headers.
    pub order: ByteOrder,
}

impl FileView {
    /// The bytes of the pages of the file.
    pub open spec fn data(self) -> Seq<u8> {
        if self.root == 0 {
            Seq::empty()
        } else {
            self.trees[self.root - 1]
        }
    }

    /// The header of the file.
    pub open spec fn header(self) -> FileHeader {
        FileHeader { root: self.root, len: self.len as u64 }
    }

    /// The bytes of the file.
    pub open spec fn content(self) -> Seq<u8> {
        self.data().take(self.len as int)
    }

    /// The header agrees with the storage: the file has a page tree exactly
    /// when it needs a page, and the tree holds the pages for `len` bytes.
    pub open spec fn wf(self) -> bool {
        &&& self.len + PAGE_SIZE <= usize::MAX
        &&& self.root <= self.trees.len()
        &&& (self.root == 0) == (page_count(self.len as int) == 0)
        &&& self.root != 0 ==> self.trees[self.root - 1].len() == page_count(self.len as int)
            * PAGE_SIZE
    }
}

/// The file after its length became `size`: the page tree is freed when no
/// page is needed any more, created (zero-filled) when the file had none,
/// and otherwise cut or zero-extended to the new number of pages.
pub open spec fn spec_set_len(v: FileView, size: nat) -> FileView {
    let new_pages = page_count(size as int);
    if new_pages == 0 {
        FileView {
            root: 0,
            len: size,
            trees: if v.root == 0 {
                v.trees
            } else {
                v.trees.update(v.root - 1, Seq::empty())
            },
            order: v.order,
        }
    } else if v.root == 0 {
        FileView {
            root: (v.trees.len() + 1) as u32,
            len: size,
            trees: v.trees.push(zeros(new_pages * PAGE_SIZE)),
            order: v.order,
        }
    } else {
        FileView {
            root: v.root,
            len: size,
            trees: v.trees.update(v.root - 1, resized(v.trees[v.root - 1], new_pages * PAGE_SIZE)),
            order: v.order,
        }
    }
}

/// The file after `bytes` were written at `pos`: it first grows to reach
/// the end of the write, then the bytes are replaced.
pub open spec fn spec_write(v: FileView, pos: int, bytes: Seq<u8>) -> FileView {
    let size = pos + bytes.len();
    let grown = if size > v.len {
        spec_set_len(v, size as nat)
    } else {
        v
    };
    if bytes.len() == 0 {
        grown
    } else {
        FileView {
            root: grown.root,
            len: grown.len,
            trees: grown.trees.update(grown.root - 1, overwrite(grown.data(), pos, bytes)),
            order: grown.order,
        }
    }
}

/// Number of bytes a read of at most `max` bytes at `pos` returns.
pub open spec fn read_len(len: int, pos: int, max: int) -> int {
    let avail = if pos < len {
        len - pos
    } else {
        0
    };
    if max < avail {
        max
    } else {
        avail
    }
}

/// The bytes a read of at most `max` bytes at `pos` returns.
pub open spec fn spec_read(v: FileView, pos: int, max: int) -> Seq<u8> {
    let n = read_len(v.len as int, pos, max);
    if n == 0 {
        Seq::empty()
    } else {
        v.content().subrange(pos, pos + n)
    }
}

/// How a seek names the new position.
#[derive(Clone, Copy, Debug)]
pub enum SeekFrom {
    Start(u64),
    End(i64),
    Current(i64),
}

/// `x` reinterpreted as a two's-complement `i64`.
pub open spec fn as_signed(x: u64) -> int {
    if x <= i64::MAX {
        x as int
    } else {
        x - 0x1_0000_0000_0000_0000
    }
}

/// `x`, an `i64` value, reinterpreted as a `u64`.
pub open spec fn as_unsigned(x: int) -> int {
    if x >= 0 {
        x
    } else {
        x + 0x1_0000_0000_0000_0000
    }
}

/// The seek does not overflow the signed position arithmetic.
pub open spec fn seek_ok(len: u64, pos: u64, from: SeekFrom) -> bool {
    match from {
        SeekFrom::Start(_) => true,
        SeekFrom::End(off) => i64::MIN <= as_signed(len) + off <= i64::MAX,
        SeekFrom::Current(off) => i64::MIN <= as_signed(pos) + off <= i64::MAX,
    }
}

/// The position a seek moves to.
pub open spec fn seek_target(len: u64, pos: u64, from: SeekFrom) -> int {
    match from {
        SeekFrom::Start(p) => p as int,
        SeekFrom::End(off) => as_unsigned(as_signed(len) + off),
        SeekFrom::Current(off) => as_unsigned(as_signed(pos) + off),
    }
}

fn seek_position(len: u64, pos: u64, from: SeekFrom) -> (p: u64)
    requires
        seek_ok(len, pos, from),
    ensures
        p == seek_target(len, pos, from),
{
    let (base, off): (u64, i64) = match from {
        SeekFrom::Start(p) => {
            return p;
        },
        SeekFrom::End(off) => (len, off),
        SeekFrom::Current(off) => (pos, off),
    };
    let b: i128 = base as i128;
    let signed: i128 = if b > 0x7fff_ffff_ffff_ffffi128 {
        b - 0x1_0000_0000_0000_0000i128
    } else {
        b
    };
    let target: i128 = signed + off as i128;
    if target >= 0 {
        target as u64
    } else {
        (target + 0x1_0000_0000_0000_0000i128) as u64
    }
}

/// A file of a database.
pub struct File {
    header: FileHeader,
    database: DatabaseRef,
}

/// Why a serialized file could not be read back.
#[derive(Clone, Copy, PartialEq, Eq, Debug)]
pub enum FileError {
    /// Fewer than `HEADER_SIZE` bytes were given.
    UnexpectedEof,
}

/// `r` is the outcome of reading a file of a database (page storage
/// `trees`, header byte order `db_order`) from the header serialized in
/// byte order `order` at the start of `bytes` (which holds at least a
/// header): the file with the header that the bytes hold, whether or not
/// the storage holds its pages.
pub open spec fn deserialized_as(
    bytes: Seq<u8>,
    trees: Seq<Seq<u8>>,
    db_order: ByteOrder,
    r: Result<File, FileError>,
    order: ByteOrder,
) -> bool {
    let h = spec_header_from_bytes(bytes, order);
    match r {
        Ok(f) => f@.root == h.root && f@.len == h.len && f@.trees == trees && f@.order == db_order,
        Err(_) => false,
    }
}

/// Reading back the serialized header of a file against the same storage
/// gives that file again.
pub proof fn lemma_file_round_trip(v: FileView, order: ByteOrder, r: Result<File, FileError>)
    requires
        v.len <= u64::MAX,
        deserialized_as(spec_header_bytes(v.header(), order), v.trees, v.order, r, order),
    ensures
        r is Ok,
        r matches Ok(f) && f@ == v,
{
    lemma_header_round_trip(v.header(), order);
}

impl View for File {
    type V = FileView;

    closed spec fn view(&self) -> FileView {
        FileView {
            root: self.header.root,
            len: self.header.len as nat,
            trees: self.database@,
            order: self.database.order,
        }
    }
}

impl DatabaseRef {
    /// The byte order in which this database stores file headers.
    pub closed spec fn order(&self) -> ByteOrder {
        self.order
    }

    /// A database with no page tree that stores file headers in the byte
    /// order of the machine (which order that is depends on the machine).
    pub fn new() -> (d: Self)
        ensures
            d@ == Seq::<Seq<u8>>::empty(),
            d.order() == ByteOrder::Little || d.order() == ByteOrder::Big,
    {
        Self::with_byte_order(native_byte_order())
    }

    /// A database with no page tree that stores file headers in `order`.
    pub fn with_byte_order(order: ByteOrder) -> (d: Self)
        ensures
            d@ == Seq::<Seq<u8>>::empty(),
            d.order() == order,
    {
        let d = DatabaseRef { trees: Vec::new(), order };
        assert(d@ =~= Seq::<Seq<u8>>::empty());
        d
    }

    /// The byte order in which this database stores file headers.
    pub fn byte_order(&self) -> (o: ByteOrder)
        ensures
            o == self.order(),
    {
        self.order
    }

    fn tree_len(&self, i: usize) -> (n: usize)
        requires
            i < self@.len(),
        ensures
            n == self@[i as int].len(),
    {
        self.trees[i].len()
    }

    fn take_tree(&mut self, i: usize) -> (t: Vec<u8>)
        requires
            i < old(self)@.len(),
        ensures
            t@ == old(self)@[i as int],
            final(self)@ == old(self)@.update(i as int, Seq::empty()),
            final(self).order == old(self).order,
    {
        let mut t: Vec<u8> = Vec::new();
        std::mem::swap(&mut t, &mut self.trees[i]);
        assert(self@ =~= old(self)@.update(i as int, Seq::empty()));
        t
    }

    fn put_tree(&mut self, i: usize, t: Vec<u8>)
        requires
            i < old(self)@.len(),
        ensures
            final(self)@ == old(self)@.update(i as int, t@),
            final(self).order == old(self).order,
    {
        self.trees.set(i, t);
        assert(self@ =~= old(self)@.update(i as int, t@));
    }

    /// Resizes the tree rooted at `root` from `current` to `new` pages and
    /// returns the root afterwards.
    fn reallocate(&mut self, root: PageNr, current: usize, new: usize) -> (r: PageNr)
        requires
            root <= old(self)@.len(),
            root != 0 ==> old(self)@[root - 1].len() == current * PAGE_SIZE,
            new * PAGE_SIZE <= usize::MAX,
            root == 0 && new != 0 ==> old(self)@.len() < u32::MAX,
        ensures
            new == 0 ==> r == 0 && final(self)@ == (if root == 0 {
                old(self)@
            } else {
                old(self)@.update(root - 1, Seq::empty())
            }),
            new != 0 && root == 0 ==> r == old(self)@.len() + 1 && final(self)@ == old(
                self,
            )@.push(zeros(new * PAGE_SIZE)),
            new != 0 && root != 0 ==> r == root && final(self)@ == old(self)@.update(
                root - 1,
                resized(old(self)@[root - 1], new * PAGE_SIZE),
            ),
            final(self).order == old(self).order,
    {
        let bytes = new * PAGE_SIZE;
        if new == 0 {
            if root != 0 {
                let _ = self.take_tree((root - 1) as usize);
            }
            return 0;
        }
        if root == 0 {
            let mut t: Vec<u8> = Vec::new();
            while t.len() < bytes
                invariant
                    t@.len() <= bytes,
                    t@ == zeros(t@.len() as int),
                decreases bytes - t@.len(),
            {
                t.push(0u8);
                assert(t@ =~= zeros(t@.len() as int));
            }
            self.trees.push(t);
            assert(self@ =~= old(self)@.push(zeros(new * PAGE_SIZE)));
            return self.trees.len() as u32;
        }
        let i = (root - 1) as usize;
        let mut t = self.take_tree(i);
        let ghost before = t@;
        if bytes <= t.len() {
            t.truncate(bytes);
        } else {
            while t.len() < bytes
                invariant
                    before.len() <= t@.len() <= bytes,
                    t@ == before + zeros(t@.len() - before.len()),
                decreases bytes - t@.len(),
            {
                t.push(0u8);
                assert(t@ =~= before + zeros(t@.len() - before.len()));
            }
        }
        assert(t@ =~= resized(before, new * PAGE_SIZE));
        self.put_tree(i, t);
        assert(self@ =~= old(self)@.update(root - 1, resized(old(self)@[root - 1], new * PAGE_SIZE)));
        root
    }
}

/// Copies `n` bytes of the file starting at `pos`, page by page.
fn read_at(file: &File, pos: u64, n: usize) -> (bytes: Vec<u8>)
    requires
        file@.wf(),
        n == 0 || pos + n <= file@.len,
    ensures
        n == 0 ==> bytes@ == Seq::<u8>::empty(),
        n != 0 ==> bytes@ == file@.content().subrange(pos as int, pos + n),
{
    let mut bytes: Vec<u8> = Vec::new();
    if n == 0 {
        assert(bytes@ =~= Seq::<u8>::empty());
        return bytes;
    }
    let tree = &file.database.trees[(file.header.root - 1) as usize];
    let mut p = pos as usize;
    let end = p + n;
    while p < end
        invariant
            file@.wf(),
            file@.root != 0,
            *tree == file.database.trees@[file@.root - 1],
            tree@ == file@.data(),
            pos <= p <= end,
            end == pos + n,
            end <= file@.len,
            bytes@ == file@.content().subrange(pos as int, p as int),
        decreases end - p,
    {
        let index = p / PAGE_SIZE;
        let offset = p % PAGE_SIZE;
        let room = PAGE_SIZE - offset;
        let chunk = if end - p < room {
            end - p
        } else {
            room
        };
        let mut k: usize = 0;
        while k < chunk
            invariant
                file@.wf(),
                file@.root != 0,
                tree@ == file@.data(),
                index * PAGE_SIZE + offset == p,
                pos <= p,
                p + chunk <= end,
                end <= file@.len,
                k <= chunk,
                bytes@ == file@.content().subrange(pos as int, p + k),
            decreases chunk - k,
        {
            proof {
                assert(page_count(file@.len as int) * PAGE_SIZE >= file@.len) by (nonlinear_arith)
                    requires
                        page_count(file@.len as int) == (file@.len + PAGE_SIZE - 1) / (
                        PAGE_SIZE as int),
                ;
            }
            bytes.push(tree[index * PAGE_SIZE + offset + k]);
            assert(bytes@ =~= file@.content().subrange(pos as int, p + k + 1));
            k = k + 1;
        }
        p = p + chunk;
    }
    bytes
}

impl File {
    /// An empty file without pages in `database`.
    pub fn new(database: DatabaseRef) -> (f: Self)
        ensures
            f@.root == 0,
            f@.len == 0,
            f@.trees == database@,
            f@.order == database.order(),
            f@.wf(),
    {
        File { header: FileHeader::default(), database }
    }

    /// The file that `header` describes in `database`.
    pub(crate) fn from_header(header: FileHeader, database: DatabaseRef) -> (f: Self)
        ensures
            f@.root == header.root,
            f@.len == header.len,
            f@.trees == database@,
            f@.order == database.order(),
    {
        File { header, database }
    }

    /// The header that finds this file again.
    pub(crate) fn header(&self) -> (h: FileHeader)
        ensures
            h.root == self@.root,
            h.len == self@.len,
    {
        self.header
    }

    /// The length of the file in bytes.
    pub fn len(&self) -> (n: u64)
        ensures
            n == self@.len,
    {
        self.header.len
    }

    /// Whether the header agrees with the page storage, which reading and
    /// writing the file need.
    pub fn fits(&self) -> (r: bool)
        ensures
            r == self@.wf(),
    {
        let header = self.header;
        if header.len > (usize::MAX - PAGE_SIZE) as u64 {
            return false;
        }
        if header.root as usize > self.database.trees.len() {
            return false;
        }
        let pages = header.pages();
        if (header.root == 0) != (pages == 0) {
            return false;
        }
        if header.root != 0 {
            let tree_len = self.database.tree_len((header.root - 1) as usize);
            proof {
                assert(pages * PAGE_SIZE <= usize::MAX) by (nonlinear_arith)
                    requires
                        pages == (header.len + PAGE_SIZE - 1) / (PAGE_SIZE as int),
                        header.len + PAGE_SIZE <= usize::MAX,
                ;
            }
            if tree_len != pages * PAGE_SIZE {
                return false;
            }
        }
        true
    }

    /// Gives the page storage back, to read the file again from its header.
    pub fn into_database(self) -> (d: DatabaseRef)
        ensures
            d@ == self@.trees,
            d.order() == self@.order,
    {
        self.database
    }

    /// Reads a file of `database` from its header, serialized in byte order
    /// `order` at the start of `bytes`.
    pub fn deserialize_with(bytes: &[u8], database: DatabaseRef, order: ByteOrder) -> (r: Result<
        Self,
        FileError,
    >)
        ensures
            bytes@.len() < HEADER_SIZE <==> r == Err::<File, FileError>(FileError::UnexpectedEof),
            bytes@.len() >= HEADER_SIZE ==> deserialized_as(
                bytes@,
                database@,
                database.order(),
                r,
                order,
            ),
    {
        if bytes.len() < HEADER_SIZE {
            return Err(FileError::UnexpectedEof);
        }
        let header = FileHeader::from_bytes(bytes, order);
        Ok(File { header, database })
    }

    /// Reads a file of `database` from its header, serialized in the
    /// database's byte order at the start of `bytes`.
    pub fn deserialize(bytes: &[u8], database: DatabaseRef) -> (r: Result<Self, FileError>)
        ensures
            bytes@.len() < HEADER_SIZE <==> r == Err::<File, FileError>(FileError::UnexpectedEof),
            bytes@.len() >= HEADER_SIZE ==> deserialized_as(
                bytes@,
                database@,
                database.order(),
                r,
                database.order(),
            ),
    {
        let order = database.byte_order();
        Self::deserialize_with(bytes, database, order)
    }

    /// The serialized header of the file in byte order `order`.
    pub fn serialize_with(&self, order: ByteOrder) -> (bytes: Vec<u8>)
        ensures
            bytes@ == spec_header_bytes(self@.header(), order),
            spec_header_from_bytes(bytes@, order).root == self@.root,
            spec_header_from_bytes(bytes@, order).len == self@.len,
    {
        proof {
            lemma_header_round_trip(self.header, order);
        }
        self.header.to_bytes(order)
    }

    /// The serialized header of the file in its database's byte order.
    pub fn serialize(&self) -> (bytes: Vec<u8>)
        ensures
            bytes@ == spec_header_bytes(self@.header(), self@.order),
            spec_header_from_bytes(bytes@, self@.order).root == self@.root,
            spec_header_from_bytes(bytes@, self@.order).len == self@.len,
    {
        let order = self.database.byte_order();
        self.serialize_with(order)
    }

    /// Whether the database can take one more page tree (page numbers are
    /// 32-bit), which a file without pages needs to grow.
    pub fn can_grow(&self) -> (r: bool)
        ensures
            r == (self@.root == 0 ==> self@.trees.len() < u32::MAX),
    {
        self.header.root != 0 || self.database.trees.len() < u32::MAX as usize
    }

    /// A reader positioned at the start of the file.
    pub fn read(&self) -> (g: ReadFileGuard<'_>)
        ensures
            g.file == self,
            g.pos == 0,
    {
        ReadFileGuard { file: self, pos: 0 }
    }

    /// A writer positioned at the start of the file; the file takes the
    /// state the writer leaves it in.
    pub fn write(&mut self) -> (g: FileGuard<'_>)
        ensures
            *g.file == *old(self),
            g.pos == 0,
            *final(self) == *final(g.file),
    {
        FileGuard { file: self, pos: 0 }
    }
}

/// A reading position in a file.
pub struct ReadFileGuard<'a> {
    pub file: &'a File,
    pub pos: u64,
}

impl<'a> ReadFileGuard<'a> {
    /// Moves the position; returns it.
    pub fn seek(&mut self, from: SeekFrom) -> (p: u64)
        requires
            seek_ok(old(self).file@.len as u64, old(self).pos, from),
        ensures
            p == seek_target(old(self).file@.len as u64, old(self).pos, from),
            final(self).pos == p,
            final(self).file == old(self).file,
    {
        self.pos = seek_position(self.file.header.len, self.pos, from);
        self.pos
    }

    /// Reads at most `max` bytes from the position on and advances past them.
    pub fn read(&mut self, max: usize) -> (bytes: Vec<u8>)
        requires
            old(self).file@.wf(),
            old(self).pos <= usize::MAX,
        ensures
            bytes@ == spec_read(old(self).file@, old(self).pos as int, max as int),
            final(self).pos == old(self).pos + bytes@.len(),
            final(self).file == old(self).file,
    {
        let len = self.file.header.len as usize;
        let pos = self.pos as usize;
        assert(len == self.file@.len && pos == self.pos);
        let avail = if pos < len {
            len - pos
        } else {
            0
        };
        let n = if max < avail {
            max
        } else {
            avail
        };
        let bytes = read_at(self.file, self.pos, n);
        self.pos = self.pos + n as u64;
        bytes
    }
}

/// A writing position in a file.
pub struct FileGuard<'a> {
    pub file: &'a mut File,
    pub pos: u64,
}

impl<'a> FileGuard<'a> {
    /// Sets the length of the file, freeing, creating or resizing its pages.
    pub fn set_len(&mut self, size: u64)
        requires
            old(self).file@.wf(),
            size + PAGE_SIZE <= usize::MAX,
            old(self).file@.root == 0 ==> old(self).file@.trees.len() < u32::MAX,
        ensures
            final(self).file@ == spec_set_len(old(self).file@, size as nat),
            final(self).file@.wf(),
            final(self).pos == old(self).pos,
            *final(final(self).file) == *final(old(self).file),
    {
        let current = self.file.header.pages();
        self.file.header.len = size;
        let new_pages = self.file.header.pages();
        proof {
            assert(new_pages * PAGE_SIZE <= usize::MAX) by (nonlinear_arith)
                requires
                    new_pages == (size + PAGE_SIZE - 1) / (PAGE_SIZE as int),
                    size + PAGE_SIZE <= usize::MAX,
            ;
        }
        let root = self.file.header.root;
        let new_root = self.file.database.reallocate(root, current, new_pages);
        self.file.header.root = new_root;
        proof {
            let v = old(self).file@;
            assert(self.file@.trees =~= spec_set_len(v, size as nat).trees);
        }
    }

    /// Cuts the file (or extends it with zeros) to end at the position, as
    /// a snapshot does after writing the content.
    pub fn cut_at_position(&mut self)
        requires
            old(self).file@.wf(),
            old(self).pos + PAGE_SIZE <= usize::MAX,
            old(self).file@.root == 0 ==> old(self).file@.trees.len() < u32::MAX,
        ensures
            final(self).file@ == spec_set_len(old(self).file@, old(self).pos as nat),
            final(self).file@.len == old(self).pos,
            final(self).file@.wf(),
            final(self).pos == old(self).pos,
            *final(final(self).file) == *final(old(self).file),
    {
        let size = self.pos;
        self.set_len(size);
    }

    /// Moves the position; returns it.
    pub fn seek(&mut self, from: SeekFrom) -> (p: u64)
        requires
            seek_ok(old(self).file@.len as u64, old(self).pos, from),
        ensures
            p == seek_target(old(self).file@.len as u64, old(self).pos, from),
            final(self).pos == p,
            *final(self).file == *old(self).file,
            *final(final(self).file) == *final(old(self).file),
    {
        self.pos = seek_position(self.file.header.len, self.pos, from);
        self.pos
    }

    /// Reads at most `max` bytes from the position on and advances past them.
    pub fn read(&mut self, max: usize) -> (bytes: Vec<u8>)
        requires
            old(self).file@.wf(),
            old(self).pos <= usize::MAX,
        ensures
            bytes@ == spec_read(old(self).file@, old(self).pos as int, max as int),
            final(self).pos == old(self).pos + bytes@.len(),
            *final(self).file == *old(self).file,
            *final(final(self).file) == *final(old(self).file),
    {
        let len = self.file.header.len as usize;
        let pos = self.pos as usize;
        assert(len == self.file@.len && pos == self.pos);
        let avail = if pos < len {
            len - pos
        } else {
            0
        };
        let n = if max < avail {
            max
        } else {
            avail
        };
        let bytes = read_at(self.file, self.pos, n);
        self.pos = self.pos + n as u64;
        bytes
    }

    /// Writes `buf` at the position, growing the file to reach its end, and
    /// advances past it. Returns the number of bytes written.
    pub fn write(&mut self, buf: &[u8]) -> (n: usize)
        requires
            old(self).file@.wf(),
            old(self).pos + buf@.len() + PAGE_SIZE <= usize::MAX,
            old(self).file@.root == 0 ==> old(self).file@.trees.len() < u32::MAX,
        ensures
            n == buf@.len(),
            final(self).pos == old(self).pos + n,
            final(self).file@ == spec_write(old(self).file@, old(self).pos as int, buf@),
            final(self).file@.wf(),
            *final(final(self).file) == *final(old(self).file),
    {
        let len = buf.len();
        let size = self.pos + len as u64;
        if size > self.file.header.len {
            self.set_len(size);
        }
        let ghost grown = self.file@;
        assert(grown == if size > old(self).file@.len {
            spec_set_len(old(self).file@, size as nat)
        } else {
            old(self).file@
        });
        if len == 0 {
            return 0;
        }
        assert(grown.root != 0);
        let i = (self.file.header.root - 1) as usize;
        let mut tree = self.file.database.take_tree(i);
        let start = self.pos as usize;
        let end = start + len;
        let mut p = start;
        while p < end
            invariant
                grown.wf(),
                grown.root != 0,
                end <= grown.len,
                start <= p <= end,
                end == start + buf@.len(),
                tree@.len() == grown.data().len(),
                forall|j: int|
                    0 <= j < tree@.len() ==> #[trigger] tree@[j] == if start <= j < p {
                        buf@[j - start]
                    } else {
                        grown.data()[j]
                    },
            decreases end - p,
        {
            let index = p / PAGE_SIZE;
            let offset = p % PAGE_SIZE;
            let room = PAGE_SIZE - offset;
            let chunk = if end - p < room {
                end - p
            } else {
                room
            };
            let mut k: usize = 0;
            while k < chunk
                invariant
                    grown.wf(),
                    grown.root != 0,
                    index * PAGE_SIZE + offset == p,
                    start <= p,
                    p + chunk <= end,
                    end <= grown.len,
                    end == start + buf@.len(),
                    k <= chunk,
                    tree@.len() == grown.data().len(),
                    forall|j: int|
                        0 <= j < tree@.len() ==> #[trigger] tree@[j] == if start <= j < p + k {
                            buf@[j - start]
                        } else {
                            grown.data()[j]
                        },
                decreases chunk - k,
            {
                proof {
                    assert(page_count(grown.len as int) * PAGE_SIZE >= grown.len)
                        by (nonlinear_arith)
                        requires
                            page_count(grown.len as int) == (grown.len + PAGE_SIZE - 1) / (
                            PAGE_SIZE as int),
                    ;
                }
                tree.set(index * PAGE_SIZE + offset + k, buf[p + k - start]);
                k = k + 1;
            }
            p = p + chunk;
        }
        assert(tree@ =~= overwrite(grown.data(), start as int, buf@));
        self.file.database.put_tree(i, tree);
        assert(self.file@.trees == grown.trees.update(grown.root - 1, overwrite(grown.data(), start as int, buf@)));
        self.pos = self.pos + len as u64;
        len
    }
}

/// Writing bytes and reading the same range back gives the bytes written.
pub proof fn lemma_read_after_write(v: FileView, pos: nat, bytes: Seq<u8>)
    requires
        v.wf(),
        pos + bytes.len() + PAGE_SIZE <= usize::MAX,
        v.root == 0 ==> v.trees.len() < u32::MAX,
    ensures
        spec_read(spec_write(v, pos as int, bytes), pos as int, bytes.len() as int) == bytes,
{
    let size = pos + bytes.len();
    let grown = if size > v.len {
        spec_set_len(v, size as nat)
    } else {
        v
    };
    lemma_set_len_wf(v, size as nat);
    let w = spec_write(v, pos as int, bytes);
    assert(w.len >= size);
    if bytes.len() > 0 {
        assert(grown.root != 0);
        assert(page_count(grown.len as int) * PAGE_SIZE >= grown.len) by (nonlinear_arith)
            requires
                page_count(grown.len as int) == (grown.len + PAGE_SIZE - 1) / (PAGE_SIZE as int),
        ;
        assert(w.data() == overwrite(grown.data(), pos as int, bytes));
    }
    assert(spec_read(w, pos as int, bytes.len() as int) =~= bytes);
}

/// Setting the length of a well-formed file keeps it well-formed, gives it
/// the requested length, and keeps its bytes up to the shorter of the two
/// lengths; bytes beyond the old page data read as zero.
pub proof fn lemma_set_len_wf(v: FileView, size: nat)
    requires
        v.wf(),
        size + PAGE_SIZE <= usize::MAX,
        v.root == 0 ==> v.trees.len() < u32::MAX,
    ensures
        spec_set_len(v, size).wf(),
        spec_set_len(v, size).len == size,
        forall|i: int|
            0 <= i < size && i < v.len ==> #[trigger] spec_set_len(v, size).content()[i]
                == v.content()[i],
{
    let w = spec_set_len(v, size);
    let new_pages = page_count(size as int);
    assert(new_pages * PAGE_SIZE >= size) by (nonlinear_arith)
        requires
            new_pages == (size + PAGE_SIZE - 1) / (PAGE_SIZE as int),
    ;
    assert(page_count(v.len as int) * PAGE_SIZE >= v.len) by (nonlinear_arith)
        requires
            page_count(v.len as int) == (v.len + PAGE_SIZE - 1) / (PAGE_SIZE as int),
    ;
    assert(new_pages >= 0) by (nonlinear_arith)
        requires
            new_pages == (size + PAGE_SIZE - 1) / (PAGE_SIZE as int),
    ;
    assert forall|i: int| 0 <= i < size && i < v.len implies #[trigger] w.content()[i]
        == v.content()[i] by {
        if new_pages != 0 && v.root != 0 {
            assert(w.data() == resized(v.data(), new_pages * PAGE_SIZE));
        }
    }
}

} // verus!
