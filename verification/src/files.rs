use vstd::prelude::*;

use crate::models::FileItem;
use crate::models::ReadFiles;

verus! {

/// A path handed out by the clipboard together with the outcome of probing
/// its byte size: `Some` when the probe succeeded, `None` when the file is
/// missing or unreadable.
pub struct FileSizeProbe {
    pub path: String,
    pub size: Option<u64>,
}

/// The size an entry contributes: a failed probe counts as zero rather than
/// failing the whole read.
pub open spec fn size_or_zero(size: Option<u64>) -> u64 {
    match size {
        Some(n) => n,
        None => 0u64,
    }
}

/// The mathematical aggregate size of a probe batch.
pub open spec fn total_of(probes: Seq<FileSizeProbe>) -> int
    decreases probes.len(),
{
    if probes.len() == 0 {
        0
    } else {
        total_of(probes.drop_last()) + size_or_zero(probes.last().size)
    }
}

/// The aggregate size of a probe batch is never negative.
pub proof fn lemma_total_nonneg(probes: Seq<FileSizeProbe>)
    ensures
        total_of(probes) >= 0,
    decreases probes.len(),
{
    if probes.len() > 0 {
        lemma_total_nonneg(probes.drop_last());
    }
}

/// Clamp a mathematical size to the machine word it is reported in.
pub open spec fn sat_u64(n: int) -> u64 {
    if n > u64::MAX {
        u64::MAX
    } else if n < 0 {
        0u64
    } else {
        n as u64
    }
}

/// Aggregate a probed file list into the read result. Each entry keeps its
/// path and gets the probed size, with a failed probe contributing zero, so
/// one bad path never fails the whole call; the total is the sum of the
/// entry sizes (saturating at the word size).
pub fn build_read_files(probes: Vec<FileSizeProbe>) -> (r: ReadFiles)
    ensures
        r.files@.len() == probes@.len(),
        forall|i: int|
            0 <= i < probes@.len() ==> r.files@[i].path@ == probes@[i].path@
                && r.files@[i].size == size_or_zero(probes@[i].size),
        r.size == sat_u64(total_of(probes@)),
{
    let ghost all: Seq<FileSizeProbe> = probes@;
    let mut rest = probes;
    let mut items: Vec<FileItem> = Vec::new();
    let mut acc: u64 = 0;
    while rest.len() > 0
        invariant
            items@.len() + rest@.len() == all.len(),
            rest@ == all.subrange(items@.len() as int, all.len() as int),
            forall|i: int|
                0 <= i < items@.len() ==> items@[i].path@ == all[i].path@ && items@[i].size
                    == size_or_zero(all[i].size),
            acc == sat_u64(total_of(all.take(items@.len() as int))),
        decreases rest@.len(),
    {
        let ghost k: int = items@.len() as int;
        let probe = rest.remove(0);
        proof {
            assert(rest@ =~= all.subrange(k + 1, all.len() as int));
            assert(probe == all[k]);
        }
        let entry_size: u64 = match probe.size {
            Some(n) => n,
            None => 0,
        };
        items.push(FileItem { path: probe.path, size: entry_size });
        acc = if acc <= u64::MAX - entry_size {
            acc + entry_size
        } else {
            u64::MAX
        };
        proof {
            assert(all.take(k + 1).drop_last() =~= all.take(k));
            assert(all.take(k + 1).last() == all[k]);
            lemma_total_nonneg(all.take(k));
        }
    }
    proof {
        assert(all.take(all.len() as int) =~= all);
    }
    ReadFiles { files: items, size: acc }
}

/// An empty file list aggregates to an empty result with total size zero.
pub proof fn lemma_empty_file_list_total()
    ensures
        total_of(Seq::<FileSizeProbe>::empty()) == 0,
        sat_u64(total_of(Seq::<FileSizeProbe>::empty())) == 0u64,
{
}

} // verus!
