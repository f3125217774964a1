//! Extraction planning: from the entries of a downloaded archive to the
//! exact list of filesystem writes the host may perform. Entries whose names
//! fail the path-traversal guard are skipped, never written.

use vstd::prelude::*;
use crate::paths::{entry_path_is_safe, entry_path_safe, is_dir_entry, is_dir_name};

verus! {

/// One entry of a zip archive: its name as stored and its inflated contents.
pub struct ZipEntry {
    pub name: String,
    pub data: Vec<u8>,
}

impl View for ZipEntry {
    type V = (Seq<char>, Seq<u8>);

    open spec fn view(&self) -> (Seq<char>, Seq<u8>) {
        (self.name@, self.data@)
    }
}

/// One filesystem write of an extraction plan. For `WriteFile` the host
/// creates the missing parent directories before writing.
pub enum WriteOp {
    MakeDir { path: String },
    WriteFile { path: String, data: Vec<u8> },
}

/// The mathematical model of a [`WriteOp`].
pub enum WriteOpModel {
    MakeDir { path: Seq<char> },
    WriteFile { path: Seq<char>, data: Seq<u8> },
}

impl View for WriteOp {
    type V = WriteOpModel;

    open spec fn view(&self) -> WriteOpModel {
        match self {
            WriteOp::MakeDir { path } => WriteOpModel::MakeDir { path: path@ },
            WriteOp::WriteFile { path, data } => WriteOpModel::WriteFile {
                path: path@,
                data: data@,
            },
        }
    }
}

/// The path a write touches.
pub open spec fn op_path(op: WriteOpModel) -> Seq<char> {
    match op {
        WriteOpModel::MakeDir { path } => path,
        WriteOpModel::WriteFile { path, .. } => path,
    }
}

/// The models of a list of entries.
pub open spec fn entries_model(es: Seq<ZipEntry>) -> Seq<(Seq<char>, Seq<u8>)> {
    es.map_values(|e: ZipEntry| e@)
}

/// The models of a list of writes.
pub open spec fn ops_model(ops: Seq<WriteOp>) -> Seq<WriteOpModel> {
    ops.map_values(|op: WriteOp| op@)
}

/// The write a single safe entry gives rise to.
pub open spec fn op_of_entry(name: Seq<char>, data: Seq<u8>) -> WriteOpModel {
    if is_dir_entry(name) {
        WriteOpModel::MakeDir { path: name }
    } else {
        WriteOpModel::WriteFile { path: name, data }
    }
}

/// The extraction plan for a list of entries: the safe entries in order,
/// directory entries as `MakeDir`, the rest as `WriteFile`; unsafe entries
/// are skipped.
pub open spec fn plan_of(entries: Seq<(Seq<char>, Seq<u8>)>) -> Seq<WriteOpModel>
    decreases entries.len(),
{
    if entries.len() == 0 {
        Seq::empty()
    } else {
        let prefix = plan_of(entries.drop_last());
        let name = entries.last().0;
        let data = entries.last().1;
        if entry_path_is_safe(name) {
            prefix.push(op_of_entry(name, data))
        } else {
            prefix
        }
    }
}

/// Copies a byte vector.
pub fn clone_bytes(v: &Vec<u8>) -> (r: Vec<u8>)
    ensures
        r@ == v@,
{
    let mut out: Vec<u8> = Vec::new();
    let mut i: usize = 0;
    while i < v.len()
        invariant
            i <= v@.len(),
            out@ == v@.take(i as int),
        decreases v@.len() - i,
    {
        out.push(v[i]);
        proof {
            assert(out@ =~= v@.take(i + 1));
        }
        i = i + 1;
    }
    proof {
        assert(v@.take(v@.len() as int) =~= v@);
    }
    out
}

/// Builds the extraction plan for the given entries.
pub fn extraction_plan(entries: &Vec<ZipEntry>) -> (r: Vec<WriteOp>)
    ensures
        ops_model(r@) == plan_of(entries_model(entries@)),
{
    let ghost em = entries_model(entries@);
    let mut out: Vec<WriteOp> = Vec::new();
    let mut i: usize = 0;
    while i < entries.len()
        invariant
            i <= entries@.len(),
            em == entries_model(entries@),
            ops_model(out@) == plan_of(em.take(i as int)),
        decreases entries@.len() - i,
    {
        let ghost old_out = out@;
        let e = &entries[i];
        if entry_path_safe(e.name.as_str()) {
            if is_dir_name(e.name.as_str()) {
                out.push(WriteOp::MakeDir { path: e.name.clone() });
            } else {
                out.push(
                    WriteOp::WriteFile { path: e.name.clone(), data: clone_bytes(&e.data) },
                );
            }
            proof {
                assert(ops_model(out@) =~= ops_model(old_out).push(out@.last()@));
            }
        }
        proof {
            assert(em.take(i + 1).drop_last() =~= em.take(i as int));
            assert(em.take(i + 1).last() == em[i as int]);
            assert(em[i as int] == entries@[i as int]@);
            if entry_path_is_safe(em[i as int].0) {
                assert(ops_model(out@) =~= plan_of(em.take(i as int)).push(
                    op_of_entry(em[i as int].0, em[i as int].1),
                ));
            }
        }
        i = i + 1;
    }
    proof {
        assert(em.take(entries@.len() as int) =~= em);
    }
    out
}

/// Declares `zip::result::ZipError` so the archive reader can return it;
/// callers only test for it and fail with the library's own extraction
/// error.
#[verifier::external_type_specification]
#[verifier::external_body]
pub struct ExZipError(zip::result::ZipError);

/// The entry list — each entry's name as stored and its inflated contents —
/// that the zip reader yields for these archive bytes, or `None` where the
/// bytes are not an archive it can read. A function of the bytes alone.
pub uninterp spec fn zip_entries_of(bytes: Seq<u8>) -> Option<Seq<(Seq<char>, Seq<u8>)>>;

/// Relies on `zip::ZipArchive` read over an in-memory cursor: `new` parses
/// the central directory, `by_index` opens each entry in order, `name` is the
/// entry's stored name and reading the entry inflates its contents. The
/// result is a function of the archive bytes alone.
#[verifier::external_body]
pub fn read_archive_entries(bytes: &Vec<u8>) -> (r: Result<Vec<ZipEntry>, zip::result::ZipError>)
    ensures
        r matches Ok(es) ==> zip_entries_of(bytes@) == Some(entries_model(es@)),
        r is Err ==> zip_entries_of(bytes@) is None,
{
    let mut ar = match zip::ZipArchive::new(std::io::Cursor::new(bytes.as_slice())) {
        Ok(a) => a,
        Err(e) => return Err(e),
    };
    let mut out = Vec::new();
    for i in 0..ar.len() {
        let mut f = match ar.by_index(i) { Ok(f) => f, Err(e) => return Err(e) };
        let name = f.name().to_string();
        let mut data = Vec::new();
        if let Err(e) = std::io::Read::read_to_end(&mut f, &mut data) {
            return Err(zip::result::ZipError::Io(e));
        }
        out.push(ZipEntry { name, data });
    }
    Ok(out)
}

/// Every write of an extraction plan stays below the destination root.
pub proof fn lemma_plan_paths_safe(entries: Seq<(Seq<char>, Seq<u8>)>)
    ensures
        forall|i: int|
            0 <= i < plan_of(entries).len() ==> entry_path_is_safe(
                #[trigger] op_path(plan_of(entries)[i]),
            ),
    decreases entries.len(),
{
    if entries.len() > 0 {
        lemma_plan_paths_safe(entries.drop_last());
        let name = entries.last().0;
        let data = entries.last().1;
        let p = plan_of(entries.drop_last());
        if entry_path_is_safe(name) {
            assert forall|i: int| 0 <= i < plan_of(entries).len() implies entry_path_is_safe(
                #[trigger] op_path(plan_of(entries)[i]),
            ) by {
                if i < p.len() {
                    assert(plan_of(entries)[i] == p[i]);
                } else {
                    assert(plan_of(entries)[i] == op_of_entry(name, data));
                }
            }
        }
    }
}

/// Every safe entry of the archive is kept in the extraction plan: skipping
/// an unsafe sibling never drops a legal entry.
pub proof fn lemma_plan_keeps_safe_entries(entries: Seq<(Seq<char>, Seq<u8>)>, j: int)
    requires
        0 <= j < entries.len(),
        entry_path_is_safe(entries[j].0),
    ensures
        plan_of(entries).contains(op_of_entry(entries[j].0, entries[j].1)),
    decreases entries.len(),
{
    let op = op_of_entry(entries[j].0, entries[j].1);
    if j == entries.len() - 1 {
        assert(plan_of(entries).last() == op);
    } else {
        lemma_plan_keeps_safe_entries(entries.drop_last(), j);
        let k = choose|k: int|
            0 <= k < plan_of(entries.drop_last()).len() && plan_of(entries.drop_last())[k] == op;
        assert(plan_of(entries)[k] == op);
    }
}

} // verus!
