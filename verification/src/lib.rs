//! Reader for a binary telemetry capture format: a fixed-size capture header,
//! a disk summary header, a table of fixed-stride variable descriptors, and a
//! region of fixed-stride tick records, all little-endian.

use vstd::prelude::*;

pub mod constants;
pub mod events;
pub mod headers;
pub mod samples;
pub mod session_info;

use crate::headers::{
    cp1252_seq, cp1252_decode, DiskHeader, Header, VarHeader, DISK_HEADER_BYTES_SIZE,
    HEADER_BYTES_SIZE, VAR_HEADER_BYTES_SIZE,
};
use crate::samples::Samples;

verus! {

/// The ways in which decoding a capture can fail.
#[derive(Clone, Copy, Debug, PartialEq, Eq, Structural)]
pub enum DecodeError {
    /// Fewer bytes were available than a fixed region demands.
    TruncatedInput,
    /// Text could not be decoded from the fixed-width code page.
    InvalidText,
    /// A descriptor's offset and width exceed the record it is applied to.
    OutOfBounds,
    /// A descriptor carries a type tag outside the known values.
    UnsupportedType,
    /// The underlying byte source failed for a reason other than truncation.
    IoFailure,
}

/// A seekable byte source. `data()` is the full content of the source and
/// `reliable()` says that reads within `data()` never fail; an in-memory
/// source is always reliable, while a device-backed one may not be.
pub trait ReadSeek: Sized {
    /// The content of the source. An implementation outside the verifier's
    /// view may keep the default; nothing is proved through such an
    /// implementation.
    open spec fn data(&self) -> Seq<u8> {
        Seq::empty()
    }

    /// Whether reads within `data()` are guaranteed to succeed. The default
    /// promises nothing.
    open spec fn reliable(&self) -> bool {
        false
    }

    /// Seek to `from` and read exactly `size` bytes.
    fn read_at(&mut self, from: u64, size: usize) -> (r: Result<Vec<u8>, DecodeError>)
        ensures
            final(self).data() == old(self).data(),
            final(self).reliable() == old(self).reliable(),
            r matches Ok(v) ==> from + size <= old(self).data().len()
                && v@ == old(self).data().subrange(from as int, from + size),
            r matches Err(e) ==> e is TruncatedInput || e is IoFailure,
            r matches Err(e) && e is TruncatedInput ==> from + size > old(self).data().len(),
            old(self).reliable() && from + size <= old(self).data().len() ==> r is Ok,
    ;
}

/// A byte source over an in-memory buffer.
pub struct MemorySource {
    bytes: Vec<u8>,
}

impl MemorySource {
    pub fn new(bytes: Vec<u8>) -> (r: MemorySource)
        ensures
            r.data() == bytes@,
            r.reliable(),
    {
        MemorySource { bytes }
    }
}

impl ReadSeek for MemorySource {
    closed spec fn data(&self) -> Seq<u8> {
        self.bytes@
    }

    closed spec fn reliable(&self) -> bool {
        true
    }

    fn read_at(&mut self, from: u64, size: usize) -> (r: Result<Vec<u8>, DecodeError>) {
        if size > self.bytes.len() {
            return Err(DecodeError::TruncatedInput);
        }
        if from > (self.bytes.len() - size) as u64 {
            return Err(DecodeError::TruncatedInput);
        }
        let start = from as usize;
        let mut out: Vec<u8> = Vec::new();
        let mut i: usize = 0;
        while i < size
            invariant
                i <= size,
                start + size <= self.bytes.len(),
                out@ == self.bytes@.subrange(start as int, start + i),
                self == old(self),
            decreases size - i,
        {
            out.push(self.bytes[start + i]);
            assert(out@ =~= self.bytes@.subrange(start as int, start + i + 1));
            i = i + 1;
        }
        Ok(out)
    }
}

/// Copy `v[start..end]` into a fresh vector.
fn subvec(v: &Vec<u8>, start: usize, end: usize) -> (r: Vec<u8>)
    requires
        start <= end <= v@.len(),
    ensures
        r@ == v@.subrange(start as int, end as int),
{
    vstd::slice::slice_to_vec(vstd::slice::slice_subrange(v.as_slice(), start, end))
}

/// Read the raw bytes of the variable descriptor table that `header` locates:
/// `num_vars` records of the fixed descriptor stride, at the header's table
/// offset.
pub fn get_var_header<S: ReadSeek>(file: &mut S, header: &Header) -> (r: Result<
    Vec<u8>,
    DecodeError,
>)
    ensures
        final(file).data() == old(file).data(),
        final(file).reliable() == old(file).reliable(),
        r matches Ok(v) ==> header.num_vars >= 0 && header.var_header_offset >= 0
            && header.num_vars * VAR_HEADER_BYTES_SIZE <= usize::MAX
            && header.var_header_offset + header.num_vars * VAR_HEADER_BYTES_SIZE <= old(
            file,
        ).data().len() && v@ == old(file).data().subrange(
            header.var_header_offset as int,
            header.var_header_offset + header.num_vars * VAR_HEADER_BYTES_SIZE,
        ),
        r matches Err(e) ==> e is TruncatedInput || e is IoFailure,
        r matches Err(e) && e is TruncatedInput ==> header.num_vars < 0
            || header.var_header_offset < 0 || header.num_vars * VAR_HEADER_BYTES_SIZE
            > usize::MAX || header.var_header_offset + header.num_vars * VAR_HEADER_BYTES_SIZE
            > old(file).data().len(),
        old(file).reliable() && header.num_vars >= 0 && header.var_header_offset >= 0
            && header.num_vars * VAR_HEADER_BYTES_SIZE <= usize::MAX
            && header.var_header_offset + header.num_vars * VAR_HEADER_BYTES_SIZE <= old(
            file,
        ).data().len() ==> r is Ok,
{
    if header.num_vars < 0 || header.var_header_offset < 0 {
        return Err(DecodeError::TruncatedInput);
    }
    let size = match (header.num_vars as usize).checked_mul(VAR_HEADER_BYTES_SIZE) {
        Some(s) => s,
        None => {
            return Err(DecodeError::TruncatedInput);
        },
    };
    file.read_at(header.var_header_offset as u64, size)
}

/// The first descriptor in `vars` whose name is `name`, if any.
pub open spec fn spec_find_var(vars: Seq<VarHeader>, name: Seq<char>) -> Option<VarHeader>
    decreases vars.len(),
{
    if vars.len() == 0 {
        None
    } else if vars[0].name@ == name {
        Some(vars[0])
    } else {
        spec_find_var(vars.skip(1), name)
    }
}

/// Name lookup returns the first descriptor bearing the requested name, and
/// nothing exactly when no descriptor bears it.
pub proof fn lemma_find_var_properties(vars: Seq<VarHeader>, name: Seq<char>)
    ensures
        match spec_find_var(vars, name) {
            Some(v) => exists|i: int|
                0 <= i < vars.len() && vars[i] == v && v.name@ == name && (forall|j: int|
                    0 <= j < i ==> vars[j].name@ != name),
            None => forall|i: int| 0 <= i < vars.len() ==> vars[i].name@ != name,
        },
    decreases vars.len(),
{
    if vars.len() == 0 {
    } else if vars[0].name@ == name {
        let v = vars[0];
        assert(0 <= 0 < vars.len() && vars[0] == v && v.name@ == name && (forall|j: int|
            0 <= j < 0 ==> vars[j].name@ != name));
    } else {
        lemma_find_var_properties(vars.skip(1), name);
        let rest = vars.skip(1);
        assert(forall|k: int| 0 <= k < rest.len() ==> rest[k] == vars[k + 1]);
        match spec_find_var(rest, name) {
            Some(v) => {
                let i = choose|i: int|
                    0 <= i < rest.len() && rest[i] == v && v.name@ == name && (forall|j: int|
                        0 <= j < i ==> rest[j].name@ != name);
                assert(0 <= i + 1 < vars.len() && vars[i + 1] == v);
                assert(forall|j: int| 0 <= j < i + 1 ==> vars[j].name@ != name) by {
                    assert(forall|j: int| 1 <= j < i + 1 ==> vars[j].name@ == rest[j - 1].name@);
                }
            },
            None => {
                assert(forall|i: int| 1 <= i < vars.len() ==> vars[i].name@ == rest[i - 1].name@);
            },
        }
    }
}

/// The lookup is a pure function of the catalog and the name: any two results
/// obtained for the same catalog and name are identical, so repeated queries
/// of an unchanged reader agree.
pub proof fn lemma_find_var_idempotent(
    vars: Seq<VarHeader>,
    name: Seq<char>,
    r1: Option<VarHeader>,
    r2: Option<VarHeader>,
)
    requires
        r1 == spec_find_var(vars, name),
        r2 == spec_find_var(vars, name),
    ensures
        r1 == r2,
{
}

/// The regions a successful `open` must find inside a source of content `d`:
/// the two fixed header regions, the session metadata region and the whole
/// descriptor table, each within bounds.
pub open spec fn spec_open_ok(d: Seq<u8>) -> bool {
    let h = Header::spec_from_bytes(d);
    &&& DISK_HEADER_BYTES_SIZE + HEADER_BYTES_SIZE <= d.len()
    &&& 0 <= h.sesion_info_offset
    &&& 0 <= h.sesion_info_length
    &&& h.sesion_info_offset + h.sesion_info_length <= d.len()
    &&& 0 <= h.num_vars
    &&& 0 <= h.var_header_offset
    &&& h.num_vars * VAR_HEADER_BYTES_SIZE <= usize::MAX
    &&& h.var_header_offset + h.num_vars * VAR_HEADER_BYTES_SIZE <= d.len()
}

/// The reader facade: parses both headers, the session metadata text and the
/// descriptor table once at construction, retains the byte source, and hands
/// out channel lookup and record iteration.
pub struct IbtReader<S: ReadSeek> {
    /// The retained byte source; borrowed exclusively by `samples`.
    pub file: S,
    pub header: Header,
    pub disk_header: DiskHeader,
    pub vars: Vec<VarHeader>,
    /// The capture's session metadata document, decoded from the code page;
    /// its interpretation is left to an external structured-document parser.
    pub session_info: String,
}

impl<S: ReadSeek> IbtReader<S> {
    /// The content of the retained byte source.
    pub open spec fn src(&self) -> Seq<u8> {
        self.file.data()
    }

    /// Whether reads within the retained source are guaranteed to succeed.
    pub open spec fn src_reliable(&self) -> bool {
        self.file.reliable()
    }

    /// Open a capture: parse both fixed headers, decode the session metadata
    /// text, and materialize the descriptor table. Any failure aborts
    /// construction; on a reliable source, construction succeeds exactly when
    /// every region lies within the source.
    pub fn new(file: S) -> (r: Result<IbtReader<S>, DecodeError>)
        ensures
            r matches Ok(reader) ==> ({
                let d = file.data();
                let h = Header::spec_from_bytes(d);
                &&& reader.src() == d
                &&& reader.src_reliable() == file.reliable()
                &&& spec_open_ok(d)
                &&& reader.header == h
                &&& reader.disk_header == DiskHeader::spec_from_bytes(d.subrange(
                    DISK_HEADER_BYTES_SIZE as int,
                    DISK_HEADER_BYTES_SIZE + HEADER_BYTES_SIZE,
                ))
                &&& reader.session_info@ == cp1252_seq(d.subrange(
                    h.sesion_info_offset as int,
                    h.sesion_info_offset + h.sesion_info_length,
                ))
                &&& reader.vars@.len() == h.num_vars
                &&& forall|i: int|
                    0 <= i < h.num_vars ==> reader.vars@[i].matches_bytes(d.subrange(
                        h.var_header_offset + i * VAR_HEADER_BYTES_SIZE,
                        h.var_header_offset + (i + 1) * VAR_HEADER_BYTES_SIZE,
                    ))
            }),
            r matches Err(e) ==> e is TruncatedInput || e is IoFailure,
            r matches Err(e) && e is TruncatedInput ==> !spec_open_ok(file.data()),
            file.reliable() ==> (r is Ok <==> spec_open_ok(file.data())),
    {
        let mut file = file;
        let ghost d = file.data();
        let header_bytes = match file.read_at(0, HEADER_BYTES_SIZE) {
            Ok(v) => v,
            Err(e) => {
                return Err(e);
            },
        };
        let header = Header::from_bytes(&header_bytes);
        proof {
            assert(header_bytes@ =~= d.subrange(0, HEADER_BYTES_SIZE as int));
            assert(Header::spec_from_bytes(header_bytes@) == Header::spec_from_bytes(d));
        }
        let disk_bytes = match file.read_at(DISK_HEADER_BYTES_SIZE as u64, HEADER_BYTES_SIZE) {
            Ok(v) => v,
            Err(e) => {
                return Err(e);
            },
        };
        let disk_header = DiskHeader::from_bytes(&disk_bytes);
        if header.sesion_info_offset < 0 || header.sesion_info_length < 0 {
            return Err(DecodeError::TruncatedInput);
        }
        let si_bytes = match file.read_at(
            header.sesion_info_offset as u64,
            header.sesion_info_length as usize,
        ) {
            Ok(v) => v,
            Err(e) => {
                return Err(e);
            },
        };
        let session_info = cp1252_decode(&si_bytes);
        proof {
            assert(session_info@ =~= cp1252_seq(si_bytes@));
        }
        let vars_data = match get_var_header(&mut file, &header) {
            Ok(v) => v,
            Err(e) => {
                return Err(e);
            },
        };
        let num_vars = header.num_vars as usize;
        let ghost vho = header.var_header_offset as int;
        let mut vars: Vec<VarHeader> = Vec::new();
        let mut n: usize = 0;
        while n < num_vars
            invariant
                num_vars * VAR_HEADER_BYTES_SIZE <= usize::MAX,
                vars_data@.len() == num_vars * VAR_HEADER_BYTES_SIZE,
                vars_data@ == d.subrange(vho, vho + num_vars * VAR_HEADER_BYTES_SIZE),
                0 <= vho,
                vho + num_vars * VAR_HEADER_BYTES_SIZE <= d.len(),
                n <= num_vars,
                vars@.len() == n,
                forall|i: int|
                    0 <= i < n ==> vars@[i].matches_bytes(d.subrange(
                        vho + i * VAR_HEADER_BYTES_SIZE,
                        vho + (i + 1) * VAR_HEADER_BYTES_SIZE,
                    )),
            decreases num_vars - n,
        {
            proof {
                assert((n + 1) * VAR_HEADER_BYTES_SIZE == n * VAR_HEADER_BYTES_SIZE
                    + VAR_HEADER_BYTES_SIZE) by (nonlinear_arith);
                assert((n + 1) * VAR_HEADER_BYTES_SIZE <= num_vars * VAR_HEADER_BYTES_SIZE)
                    by (nonlinear_arith)
                    requires
                        n + 1 <= num_vars,
                ;
            }
            let start = n * VAR_HEADER_BYTES_SIZE;
            let chunk = subvec(&vars_data, start, start + VAR_HEADER_BYTES_SIZE);
            proof {
                assert(chunk@ =~= d.subrange(
                    vho + n * VAR_HEADER_BYTES_SIZE,
                    vho + (n + 1) * VAR_HEADER_BYTES_SIZE,
                ));
            }
            vars.push(VarHeader::from_bytes(&chunk));
            n = n + 1;
        }
        Ok(IbtReader { file, header, disk_header, vars, session_info })
    }

    /// A fresh walk of the tick-record region, cursor at zero, borrowing the
    /// retained byte source exclusively for the iterator's lifetime.
    pub fn samples(&mut self) -> (r: Samples<'_, S>)
        ensures
            r.length == old(self).header.buf_len,
            r.buf_offset == old(self).header.buf_offset,
            r.current == 0,
            (*r.file).data() == old(self).src(),
            (*r.file).reliable() == old(self).src_reliable(),
            final(self).header == old(self).header,
            final(self).disk_header == old(self).disk_header,
            final(self).vars == old(self).vars,
            final(self).session_info == old(self).session_info,
            final(self).src() == (*final(r.file)).data(),
            final(self).src_reliable() == (*final(r.file)).reliable(),
    {
        Samples {
            current: 0,
            buf_offset: self.header.buf_offset,
            length: self.header.buf_len,
            file: &mut self.file,
        }
    }

    /// Linear scan of the descriptor catalog by exact name: the first match,
    /// cloned, or nothing if no descriptor bears the name.
    pub fn find_var(&self, name: String) -> (r: Option<VarHeader>)
        ensures
            r == spec_find_var(self.vars@, name@),
    {
        let mut i: usize = 0;
        while i < self.vars.len()
            invariant
                i <= self.vars@.len(),
                forall|j: int| 0 <= j < i ==> self.vars@[j].name@ != name@,
            decreases self.vars@.len() - i,
        {
            if self.vars[i].name == name {
                proof {
                    lemma_find_var_first_match(self.vars@, name@, i as int);
                }
                return Some(self.vars[i].clone());
            }
            i = i + 1;
        }
        proof {
            lemma_find_var_no_match(self.vars@, name@);
        }
        None
    }
}

proof fn lemma_find_var_first_match(vars: Seq<VarHeader>, name: Seq<char>, i: int)
    requires
        0 <= i < vars.len(),
        vars[i].name@ == name,
        forall|j: int| 0 <= j < i ==> vars[j].name@ != name,
    ensures
        spec_find_var(vars, name) == Some(vars[i]),
    decreases i,
{
    if i == 0 {
    } else {
        let rest = vars.skip(1);
        assert(forall|k: int| 0 <= k < rest.len() ==> rest[k] == vars[k + 1]);
        lemma_find_var_first_match(rest, name, i - 1);
    }
}

proof fn lemma_find_var_no_match(vars: Seq<VarHeader>, name: Seq<char>)
    requires
        forall|j: int| 0 <= j < vars.len() ==> vars[j].name@ != name,
    ensures
        spec_find_var(vars, name) is None,
    decreases vars.len(),
{
    if vars.len() == 0 {
    } else {
        let rest = vars.skip(1);
        assert(forall|k: int| 0 <= k < rest.len() ==> rest[k] == vars[k + 1]);
        lemma_find_var_no_match(rest, name);
    }
}

} // verus!
