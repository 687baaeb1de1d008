//! The memory collector: which measure each line of the kernel's memory
//! statistics gives.
use vstd::prelude::*;
use crate::label::{LabelView, Labels};
use crate::measure::{Measure, Value};
use crate::text::str_eq;

verus! {

/// A name for the lower-case form of a text, as `str::to_lowercase` gives
/// it.
pub uninterp spec fn lowercase_of(s: Seq<char>) -> Seq<char>;

/// `str::to_lowercase`: the text in lower case. Its result depends on the
/// text alone; the contract names it and says no more.
#[verifier::external_body]
pub(crate) fn lowercase(s: &str) -> (r: String)
    ensures
        r@ == lowercase_of(s@),
{
    s.to_lowercase()
}

/// Each statistic the collector reports: the lower-case key of the
/// statistic, the measure's name and its help.
pub open spec fn meminfo_table() -> Seq<(Seq<char>, Seq<char>, Seq<char>)> {
    seq![
        ("active"@, "mem_active"@, "???"@),
        ("active(anon)"@, "mem_active_anon"@, "Active anonymous memory, bytes"@),
        ("active(file)"@, "mem_active_file"@, "Active pagecache memory, bytes"@),
        ("anonhugepages"@, "mem_anon_huge_pages"@, "Non-file backed huge pages mapped into userspace page tables"@),
        ("anonpages"@, "mem_anon_pages"@, "Non-file backed pages mapped into userspace page tables"@),
        ("bounce"@, "mem_bounce"@, "Memory used for block device 'bounce buffers'"@),
        ("buffers"@, "mem_buffers"@, "Memory in buffer cache"@),
        ("cached"@, "mem_cached"@, "Memory in the pagecache"@),
        ("commitlimit"@, "mem_commit_limit"@, "Total amount of memory currently available to be allocated on the system"@),
        ("committed_as"@, "mem_committed_as"@, " The amount of memory presently allocated on the system"@),
        ("directmap1g"@, "mem_direct_map_1g"@, "The amount of memory being mapped into the kernel space with 1GB size pages"@),
        ("directmap2m"@, "mem_direct_map_2m"@, "The amount of memory being mapped into the kernel space with 2MB size pages"@),
        ("directmap4k"@, "mem_direct_map_4k"@, "The amount of memory being mapped into the kernel space with 4k size pages"@),
        ("dirty"@, "mem_dirty"@, "Memory waiting to be written back to disk"@),
        ("filehugepages"@, "mem_file_huge_pages"@, "Memory used for filesystem data (page cache) allocated with huge pages"@),
        ("filepmdmapped"@, "mem_file_pmd_mapped"@, "Page cache mapped into userspace with huge pages"@),
        ("hugepagesize"@, "mem_huge_page_size"@, "default hugepage size (in kB)"@),
        ("hugetlb"@, "mem_huge_tlb"@, "total amount of memory (in kB), consumed by huge pages of all sizes"@),
        ("inactive"@, "mem_inactive"@, "???"@),
        ("inactive(anon)"@, "mem_inactive_anon"@, "Anonymous memory that has not been used recently and can be swapped out"@),
        ("inactive(file)"@, "mem_inactive_file"@, "Pagecache memory that can be reclaimed without huge performance impact"@),
        ("kreclaimable"@, "mem_k_reclaimable"@, "Kernel allocations that the kernel will attempt to reclaim under memory pressure"@),
        ("kernelstack"@, "mem_kernel_stack"@, "Memory consumed by the kernel stacks of all tasks"@),
        ("mapped"@, "mem_mapped"@, "files which have been mmaped, such as libraries"@),
        ("memavailable"@, "mem_available"@, "estimate of how much memory is available for starting new applications"@),
        ("memfree"@, "mem_free"@, "Free memory in bytes"@),
        ("memtotal"@, "mem_total"@, "Total memory in bytes"@),
        ("mlocked"@, "mem_m_locked"@, "Memory locked with mlock()"@),
        ("nfs_unstable"@, "mem_nfs_unstable"@, "Always zero. Previous counted pages which had been written to the server, but has not been committed to stable storage"@),
        ("pagetables"@, "mem_page_tables"@, "Memory consumed by userspace page tables"@),
        ("percpu"@, "mem_per_cpu"@, "Memory allocated to the percpu allocator used to back percpu allocations. This stat excludes the cost of metadata"@),
        ("sreclaimable"@, "mem_s_reclaimable"@, "Part of Slab, that might be reclaimed, such as caches"@),
        ("sunreclaim"@, "mem_s_unreclaim"@, "Part of Slab, that cannot be reclaimed on memory pressure"@),
        ("shmem"@, "mem_sh_mem"@, "Total memory used by shared memory (shmem) and tmpfs"@),
        ("shmemhugepages"@, "mem_sh_mem_huge_pages"@, "Memory used by shared memory (shmem) and tmpfs allocated with huge pages"@),
        ("shmempmdmapped"@, "mem_sh_mem_pmd_mapped"@, "Shared memory mapped into userspace with huge pages"@),
        ("slab"@, "mem_slab"@, "in-kernel data structures cache"@),
        ("swapcached"@, "swap_cached"@, "Memory that once was swapped out, is swapped back in but still also is in the swapfile"@),
        ("swapfree"@, "swap_free"@, "Memory which has been evicted from RAM, and is temporarily on the disk"@),
        ("swaptotal"@, "swap_total"@, "total amount of swap space available"@),
        ("unevictable"@, "mem_unevictable"@, "Memory allocated for userspace which cannot be reclaimed"@),
        ("vmallocchunk"@, "mem_vmalloc_chunk"@, "largest contiguous block of vmalloc area which is free"@),
        ("vmalloctotal"@, "mem_vmalloc_total"@, "total size of vmalloc virtual address space"@),
        ("vmallocused"@, "mem_vmalloc_used"@, "amount of vmalloc area which is used"@),
        ("writeback"@, "mem_writeback"@, "Memory which is actively being written back to the disk"@),
        ("writebacktmp"@, "mem_writeback_tmp"@, "Memory used by FUSE for temporary writeback buffers"@)
    ]
}

/// The table as executable data.
fn meminfo_rows() -> (r: Vec<(&'static str, &'static str, &'static str)>)
    ensures
        r@.map_values(|x: (&'static str, &'static str, &'static str)| (x.0@, x.1@, x.2@)) == meminfo_table(),
{
    let r = vec![
        ("active", "mem_active", "???"),
        ("active(anon)", "mem_active_anon", "Active anonymous memory, bytes"),
        ("active(file)", "mem_active_file", "Active pagecache memory, bytes"),
        ("anonhugepages", "mem_anon_huge_pages", "Non-file backed huge pages mapped into userspace page tables"),
        ("anonpages", "mem_anon_pages", "Non-file backed pages mapped into userspace page tables"),
        ("bounce", "mem_bounce", "Memory used for block device 'bounce buffers'"),
        ("buffers", "mem_buffers", "Memory in buffer cache"),
        ("cached", "mem_cached", "Memory in the pagecache"),
        ("commitlimit", "mem_commit_limit", "Total amount of memory currently available to be allocated on the system"),
        ("committed_as", "mem_committed_as", " The amount of memory presently allocated on the system"),
        ("directmap1g", "mem_direct_map_1g", "The amount of memory being mapped into the kernel space with 1GB size pages"),
        ("directmap2m", "mem_direct_map_2m", "The amount of memory being mapped into the kernel space with 2MB size pages"),
        ("directmap4k", "mem_direct_map_4k", "The amount of memory being mapped into the kernel space with 4k size pages"),
        ("dirty", "mem_dirty", "Memory waiting to be written back to disk"),
        ("filehugepages", "mem_file_huge_pages", "Memory used for filesystem data (page cache) allocated with huge pages"),
        ("filepmdmapped", "mem_file_pmd_mapped", "Page cache mapped into userspace with huge pages"),
        ("hugepagesize", "mem_huge_page_size", "default hugepage size (in kB)"),
        ("hugetlb", "mem_huge_tlb", "total amount of memory (in kB), consumed by huge pages of all sizes"),
        ("inactive", "mem_inactive", "???"),
        ("inactive(anon)", "mem_inactive_anon", "Anonymous memory that has not been used recently and can be swapped out"),
        ("inactive(file)", "mem_inactive_file", "Pagecache memory that can be reclaimed without huge performance impact"),
        ("kreclaimable", "mem_k_reclaimable", "Kernel allocations that the kernel will attempt to reclaim under memory pressure"),
        ("kernelstack", "mem_kernel_stack", "Memory consumed by the kernel stacks of all tasks"),
        ("mapped", "mem_mapped", "files which have been mmaped, such as libraries"),
        ("memavailable", "mem_available", "estimate of how much memory is available for starting new applications"),
        ("memfree", "mem_free", "Free memory in bytes"),
        ("memtotal", "mem_total", "Total memory in bytes"),
        ("mlocked", "mem_m_locked", "Memory locked with mlock()"),
        ("nfs_unstable", "mem_nfs_unstable", "Always zero. Previous counted pages which had been written to the server, but has not been committed to stable storage"),
        ("pagetables", "mem_page_tables", "Memory consumed by userspace page tables"),
        ("percpu", "mem_per_cpu", "Memory allocated to the percpu allocator used to back percpu allocations. This stat excludes the cost of metadata"),
        ("sreclaimable", "mem_s_reclaimable", "Part of Slab, that might be reclaimed, such as caches"),
        ("sunreclaim", "mem_s_unreclaim", "Part of Slab, that cannot be reclaimed on memory pressure"),
        ("shmem", "mem_sh_mem", "Total memory used by shared memory (shmem) and tmpfs"),
        ("shmemhugepages", "mem_sh_mem_huge_pages", "Memory used by shared memory (shmem) and tmpfs allocated with huge pages"),
        ("shmempmdmapped", "mem_sh_mem_pmd_mapped", "Shared memory mapped into userspace with huge pages"),
        ("slab", "mem_slab", "in-kernel data structures cache"),
        ("swapcached", "swap_cached", "Memory that once was swapped out, is swapped back in but still also is in the swapfile"),
        ("swapfree", "swap_free", "Memory which has been evicted from RAM, and is temporarily on the disk"),
        ("swaptotal", "swap_total", "total amount of swap space available"),
        ("unevictable", "mem_unevictable", "Memory allocated for userspace which cannot be reclaimed"),
        ("vmallocchunk", "mem_vmalloc_chunk", "largest contiguous block of vmalloc area which is free"),
        ("vmalloctotal", "mem_vmalloc_total", "total size of vmalloc virtual address space"),
        ("vmallocused", "mem_vmalloc_used", "amount of vmalloc area which is used"),
        ("writeback", "mem_writeback", "Memory which is actively being written back to the disk"),
        ("writebacktmp", "mem_writeback_tmp", "Memory used by FUSE for temporary writeback buffers")
    ];
    assert(r@.map_values(|x: (&'static str, &'static str, &'static str)| (x.0@, x.1@, x.2@)) =~= meminfo_table());
    r
}

/// The first row of `t` for the key `k`.
pub open spec fn row_for(t: Seq<(Seq<char>, Seq<char>, Seq<char>)>, k: Seq<char>) -> Option<(Seq<char>, Seq<char>)>
    decreases t.len(),
{
    if t.len() == 0 {
        None
    } else if t[0].0 == k {
        Some((t[0].1, t[0].2))
    } else {
        row_for(t.drop_first(), k)
    }
}

/// A gauge without labels.
pub open spec fn plain_gauge(m: Measure, name: Seq<char>, help: Seq<char>, v: u64) -> bool {
    m.name@ == name && m.help@ == help && m.value == Value::Gauge(v) && m.labels@ == None::<Seq<LabelView>>
        && m.timestamp.is_none()
}

/// The gauges the statistics give, in order: one per statistic whose
/// lower-cased key is in the table.
pub open spec fn meminfo_gauges(entries: Seq<(String, u64)>) -> Seq<(Seq<char>, Seq<char>, u64)>
    decreases entries.len(),
{
    if entries.len() == 0 {
        Seq::empty()
    } else {
        let prev = meminfo_gauges(entries.drop_last());
        let e = entries.last();
        match row_for(meminfo_table(), lowercase_of(e.0@)) {
            Some((n, h)) => prev.push((n, h, e.1)),
            None => prev,
        }
    }
}

/// The measure for a key of the table.
fn lookup(rows: &Vec<(&'static str, &'static str, &'static str)>, key: &str) -> (r: Option<(&'static str, &'static str)>)
    requires
        rows@.map_values(|x: (&'static str, &'static str, &'static str)| (x.0@, x.1@, x.2@)) == meminfo_table(),
    ensures
        match row_for(meminfo_table(), key@) {
            Some((n, h)) => r matches Some(x) && x.0@ == n && x.1@ == h,
            None => r.is_none(),
        },
{
    let ghost t = meminfo_table();
    let mut i: usize = 0;
    assert(t.skip(0) =~= t);
    while i < rows.len()
        invariant
            i <= rows.len(),
            rows@.map_values(|x: (&'static str, &'static str, &'static str)| (x.0@, x.1@, x.2@)) == t,
            t == meminfo_table(),
            row_for(t, key@) == row_for(t.skip(i as int), key@),
        decreases rows.len() - i,
    {
        assert(t.skip(i as int)[0] == t[i as int]);
        assert(t.skip(i as int).drop_first() =~= t.skip(i + 1));
        if str_eq(rows[i].0, key) {
            return Some((rows[i].1, rows[i].2));
        }
        i = i + 1;
    }
    assert(t.skip(i as int).len() == 0);
    None
}

/// The gauges of the kernel's memory statistics (see `meminfo_gauges`).
pub fn meminfo_measures(entries: &Vec<(String, u64)>) -> (r: Vec<Measure>)
    ensures
        r.len() == meminfo_gauges(entries@).len(),
        forall|i: int| 0 <= i < r.len() ==> plain_gauge(#[trigger] r[i], meminfo_gauges(entries@)[i].0,
            meminfo_gauges(entries@)[i].1, meminfo_gauges(entries@)[i].2),
{
    let rows = meminfo_rows();
    let mut r: Vec<Measure> = Vec::new();
    let mut i: usize = 0;
    while i < entries.len()
        invariant
            i <= entries.len(),
            rows@.map_values(|x: (&'static str, &'static str, &'static str)| (x.0@, x.1@, x.2@)) == meminfo_table(),
            r.len() == meminfo_gauges(entries@.take(i as int)).len(),
            forall|j: int| 0 <= j < r.len() ==> plain_gauge(#[trigger] r[j], meminfo_gauges(entries@.take(i as int))[j].0,
                meminfo_gauges(entries@.take(i as int))[j].1, meminfo_gauges(entries@.take(i as int))[j].2),
        decreases entries.len() - i,
    {
        assert(entries@.take(i + 1).drop_last() =~= entries@.take(i as int));
        assert(entries@.take(i + 1).last() == entries@[i as int]);
        let key = lowercase(entries[i].0.as_str());
        match lookup(&rows, key.as_str()) {
            Some((n, h)) => {
                r.push(gauge(n, h, entries[i].1));
            },
            None => {},
        }
        i = i + 1;
    }
    assert(entries@.take(i as int) =~= entries@);
    r
}

/// A gauge without labels.
pub fn gauge(name: &str, help: &str, v: u64) -> (m: Measure)
    ensures
        plain_gauge(m, name@, help@, v),
{
    Measure { name: name.to_owned(), help: help.to_owned(), value: Value::Gauge(v), labels: Labels::default(), timestamp: None }
}

/// The collector's first two measures: `mem_total` with the total memory,
/// and `mem_free` with the free memory.
pub fn totals(total: u64, free: u64) -> (r: Vec<Measure>)
    ensures
        r.len() == 2,
        plain_gauge(r[0], "mem_total"@, "Total memory in bytes"@, total),
        plain_gauge(r[1], "mem_free"@, "Free memory in bytes"@, free),
{
    let mut r: Vec<Measure> = Vec::new();
    r.push(gauge("mem_total", "Total memory in bytes", total));
    r.push(gauge("mem_free", "Free memory in bytes", free));
    r
}


/// A key without the closing bracket that some statistics end with.
pub open spec fn bare_key(key: Seq<char>) -> Seq<char> {
    if key.len() > 0 && key.last() == ')' {
        key.drop_last()
    } else {
        key
    }
}

/// A measure name made of a statistic's key: it ends with `_` and the
/// key's last characters (at least two), brackets aside, as `swap_free`
/// ends with `_free` for `swapfree`.
pub open spec fn named_after(key: Seq<char>, name: Seq<char>) -> bool {
    exists|w: Seq<char>| w.len() >= 2 && #[trigger] w.is_suffix_of(bare_key(key)) && (seq!['_'] + w).is_suffix_of(name)
}

proof fn lemma_named_at(key: Seq<char>, name: Seq<char>, p: int)
    requires
        1 <= p,
        name.len() - p >= 2,
        name[p - 1] == '_',
        name.len() - p <= bare_key(key).len(),
        name.subrange(p, name.len() as int)
            == bare_key(key).subrange(bare_key(key).len() - (name.len() - p), bare_key(key).len() as int),
    ensures
        named_after(key, name),
{
    let w = name.subrange(p, name.len() as int);
    assert(name.subrange(name.len() - (w.len() + 1), name.len() as int) =~= seq!['_'] + w);
    assert(w.is_suffix_of(bare_key(key)));
    assert((seq!['_'] + w).is_suffix_of(name));
}

proof fn lemma_row_named(i: int)
    requires
        0 <= i < meminfo_table().len(),
    ensures
        named_after(meminfo_table()[i].0, meminfo_table()[i].1),
{
    let t = meminfo_table();
    if i == 0 {
        reveal_strlit("active");
        reveal_strlit("mem_active");
        assert(t[0].0 == "active"@ && t[0].1 == "mem_active"@);
        assert("mem_active"@.subrange(4, 10) =~= bare_key("active"@).subrange(0, 6));
        lemma_named_at("active"@, "mem_active"@, 4);
    } else if i == 1 {
        reveal_strlit("active(anon)");
        reveal_strlit("mem_active_anon");
        assert(t[1].0 == "active(anon)"@ && t[1].1 == "mem_active_anon"@);
        assert("active(anon)"@.last() == ')');
        assert("mem_active_anon"@.subrange(11, 15) =~= bare_key("active(anon)"@).subrange(7, 11));
        lemma_named_at("active(anon)"@, "mem_active_anon"@, 11);
    } else if i == 2 {
        reveal_strlit("active(file)");
        reveal_strlit("mem_active_file");
        assert(t[2].0 == "active(file)"@ && t[2].1 == "mem_active_file"@);
        assert("active(file)"@.last() == ')');
        assert("mem_active_file"@.subrange(11, 15) =~= bare_key("active(file)"@).subrange(7, 11));
        lemma_named_at("active(file)"@, "mem_active_file"@, 11);
    } else if i == 3 {
        reveal_strlit("anonhugepages");
        reveal_strlit("mem_anon_huge_pages");
        assert(t[3].0 == "anonhugepages"@ && t[3].1 == "mem_anon_huge_pages"@);
        assert("mem_anon_huge_pages"@.subrange(14, 19) =~= bare_key("anonhugepages"@).subrange(8, 13));
        lemma_named_at("anonhugepages"@, "mem_anon_huge_pages"@, 14);
    } else if i == 4 {
        reveal_strlit("anonpages");
        reveal_strlit("mem_anon_pages");
        assert(t[4].0 == "anonpages"@ && t[4].1 == "mem_anon_pages"@);
        assert("mem_anon_pages"@.subrange(9, 14) =~= bare_key("anonpages"@).subrange(4, 9));
        lemma_named_at("anonpages"@, "mem_anon_pages"@, 9);
    } else if i == 5 {
        reveal_strlit("bounce");
        reveal_strlit("mem_bounce");
        assert(t[5].0 == "bounce"@ && t[5].1 == "mem_bounce"@);
        assert("mem_bounce"@.subrange(4, 10) =~= bare_key("bounce"@).subrange(0, 6));
        lemma_named_at("bounce"@, "mem_bounce"@, 4);
    } else if i == 6 {
        reveal_strlit("buffers");
        reveal_strlit("mem_buffers");
        assert(t[6].0 == "buffers"@ && t[6].1 == "mem_buffers"@);
        assert("mem_buffers"@.subrange(4, 11) =~= bare_key("buffers"@).subrange(0, 7));
        lemma_named_at("buffers"@, "mem_buffers"@, 4);
    } else if i == 7 {
        reveal_strlit("cached");
        reveal_strlit("mem_cached");
        assert(t[7].0 == "cached"@ && t[7].1 == "mem_cached"@);
        assert("mem_cached"@.subrange(4, 10) =~= bare_key("cached"@).subrange(0, 6));
        lemma_named_at("cached"@, "mem_cached"@, 4);
    } else if i == 8 {
        reveal_strlit("commitlimit");
        reveal_strlit("mem_commit_limit");
        assert(t[8].0 == "commitlimit"@ && t[8].1 == "mem_commit_limit"@);
        assert("mem_commit_limit"@.subrange(11, 16) =~= bare_key("commitlimit"@).subrange(6, 11));
        lemma_named_at("commitlimit"@, "mem_commit_limit"@, 11);
    } else if i == 9 {
        reveal_strlit("committed_as");
        reveal_strlit("mem_committed_as");
        assert(t[9].0 == "committed_as"@ && t[9].1 == "mem_committed_as"@);
        assert("mem_committed_as"@.subrange(14, 16) =~= bare_key("committed_as"@).subrange(10, 12));
        lemma_named_at("committed_as"@, "mem_committed_as"@, 14);
    } else if i == 10 {
        reveal_strlit("directmap1g");
        reveal_strlit("mem_direct_map_1g");
        assert(t[10].0 == "directmap1g"@ && t[10].1 == "mem_direct_map_1g"@);
        assert("mem_direct_map_1g"@.subrange(15, 17) =~= bare_key("directmap1g"@).subrange(9, 11));
        lemma_named_at("directmap1g"@, "mem_direct_map_1g"@, 15);
    } else if i == 11 {
        reveal_strlit("directmap2m");
        reveal_strlit("mem_direct_map_2m");
        assert(t[11].0 == "directmap2m"@ && t[11].1 == "mem_direct_map_2m"@);
        assert("mem_direct_map_2m"@.subrange(15, 17) =~= bare_key("directmap2m"@).subrange(9, 11));
        lemma_named_at("directmap2m"@, "mem_direct_map_2m"@, 15);
    } else if i == 12 {
        reveal_strlit("directmap4k");
        reveal_strlit("mem_direct_map_4k");
        assert(t[12].0 == "directmap4k"@ && t[12].1 == "mem_direct_map_4k"@);
        assert("mem_direct_map_4k"@.subrange(15, 17) =~= bare_key("directmap4k"@).subrange(9, 11));
        lemma_named_at("directmap4k"@, "mem_direct_map_4k"@, 15);
    } else if i == 13 {
        reveal_strlit("dirty");
        reveal_strlit("mem_dirty");
        assert(t[13].0 == "dirty"@ && t[13].1 == "mem_dirty"@);
        assert("mem_dirty"@.subrange(4, 9) =~= bare_key("dirty"@).subrange(0, 5));
        lemma_named_at("dirty"@, "mem_dirty"@, 4);
    } else if i == 14 {
        reveal_strlit("filehugepages");
        reveal_strlit("mem_file_huge_pages");
        assert(t[14].0 == "filehugepages"@ && t[14].1 == "mem_file_huge_pages"@);
        assert("mem_file_huge_pages"@.subrange(14, 19) =~= bare_key("filehugepages"@).subrange(8, 13));
        lemma_named_at("filehugepages"@, "mem_file_huge_pages"@, 14);
    } else if i == 15 {
        reveal_strlit("filepmdmapped");
        reveal_strlit("mem_file_pmd_mapped");
        assert(t[15].0 == "filepmdmapped"@ && t[15].1 == "mem_file_pmd_mapped"@);
        assert("mem_file_pmd_mapped"@.subrange(13, 19) =~= bare_key("filepmdmapped"@).subrange(7, 13));
        lemma_named_at("filepmdmapped"@, "mem_file_pmd_mapped"@, 13);
    } else if i == 16 {
        reveal_strlit("hugepagesize");
        reveal_strlit("mem_huge_page_size");
        assert(t[16].0 == "hugepagesize"@ && t[16].1 == "mem_huge_page_size"@);
        assert("mem_huge_page_size"@.subrange(14, 18) =~= bare_key("hugepagesize"@).subrange(8, 12));
        lemma_named_at("hugepagesize"@, "mem_huge_page_size"@, 14);
    } else if i == 17 {
        reveal_strlit("hugetlb");
        reveal_strlit("mem_huge_tlb");
        assert(t[17].0 == "hugetlb"@ && t[17].1 == "mem_huge_tlb"@);
        assert("mem_huge_tlb"@.subrange(9, 12) =~= bare_key("hugetlb"@).subrange(4, 7));
        lemma_named_at("hugetlb"@, "mem_huge_tlb"@, 9);
    } else if i == 18 {
        reveal_strlit("inactive");
        reveal_strlit("mem_inactive");
        assert(t[18].0 == "inactive"@ && t[18].1 == "mem_inactive"@);
        assert("mem_inactive"@.subrange(4, 12) =~= bare_key("inactive"@).subrange(0, 8));
        lemma_named_at("inactive"@, "mem_inactive"@, 4);
    } else if i == 19 {
        reveal_strlit("inactive(anon)");
        reveal_strlit("mem_inactive_anon");
        assert(t[19].0 == "inactive(anon)"@ && t[19].1 == "mem_inactive_anon"@);
        assert("inactive(anon)"@.last() == ')');
        assert("mem_inactive_anon"@.subrange(13, 17) =~= bare_key("inactive(anon)"@).subrange(9, 13));
        lemma_named_at("inactive(anon)"@, "mem_inactive_anon"@, 13);
    } else if i == 20 {
        reveal_strlit("inactive(file)");
        reveal_strlit("mem_inactive_file");
        assert(t[20].0 == "inactive(file)"@ && t[20].1 == "mem_inactive_file"@);
        assert("inactive(file)"@.last() == ')');
        assert("mem_inactive_file"@.subrange(13, 17) =~= bare_key("inactive(file)"@).subrange(9, 13));
        lemma_named_at("inactive(file)"@, "mem_inactive_file"@, 13);
    } else if i == 21 {
        reveal_strlit("kreclaimable");
        reveal_strlit("mem_k_reclaimable");
        assert(t[21].0 == "kreclaimable"@ && t[21].1 == "mem_k_reclaimable"@);
        assert("mem_k_reclaimable"@.subrange(6, 17) =~= bare_key("kreclaimable"@).subrange(1, 12));
        lemma_named_at("kreclaimable"@, "mem_k_reclaimable"@, 6);
    } else if i == 22 {
        reveal_strlit("kernelstack");
        reveal_strlit("mem_kernel_stack");
        assert(t[22].0 == "kernelstack"@ && t[22].1 == "mem_kernel_stack"@);
        assert("mem_kernel_stack"@.subrange(11, 16) =~= bare_key("kernelstack"@).subrange(6, 11));
        lemma_named_at("kernelstack"@, "mem_kernel_stack"@, 11);
    } else if i == 23 {
        reveal_strlit("mapped");
        reveal_strlit("mem_mapped");
        assert(t[23].0 == "mapped"@ && t[23].1 == "mem_mapped"@);
        assert("mem_mapped"@.subrange(4, 10) =~= bare_key("mapped"@).subrange(0, 6));
        lemma_named_at("mapped"@, "mem_mapped"@, 4);
    } else if i == 24 {
        reveal_strlit("memavailable");
        reveal_strlit("mem_available");
        assert(t[24].0 == "memavailable"@ && t[24].1 == "mem_available"@);
        assert("mem_available"@.subrange(4, 13) =~= bare_key("memavailable"@).subrange(3, 12));
        lemma_named_at("memavailable"@, "mem_available"@, 4);
    } else if i == 25 {
        reveal_strlit("memfree");
        reveal_strlit("mem_free");
        assert(t[25].0 == "memfree"@ && t[25].1 == "mem_free"@);
        assert("mem_free"@.subrange(4, 8) =~= bare_key("memfree"@).subrange(3, 7));
        lemma_named_at("memfree"@, "mem_free"@, 4);
    } else if i == 26 {
        reveal_strlit("memtotal");
        reveal_strlit("mem_total");
        assert(t[26].0 == "memtotal"@ && t[26].1 == "mem_total"@);
        assert("mem_total"@.subrange(4, 9) =~= bare_key("memtotal"@).subrange(3, 8));
        lemma_named_at("memtotal"@, "mem_total"@, 4);
    } else if i == 27 {
        reveal_strlit("mlocked");
        reveal_strlit("mem_m_locked");
        assert(t[27].0 == "mlocked"@ && t[27].1 == "mem_m_locked"@);
        assert("mem_m_locked"@.subrange(6, 12) =~= bare_key("mlocked"@).subrange(1, 7));
        lemma_named_at("mlocked"@, "mem_m_locked"@, 6);
    } else if i == 28 {
        reveal_strlit("nfs_unstable");
        reveal_strlit("mem_nfs_unstable");
        assert(t[28].0 == "nfs_unstable"@ && t[28].1 == "mem_nfs_unstable"@);
        assert("mem_nfs_unstable"@.subrange(8, 16) =~= bare_key("nfs_unstable"@).subrange(4, 12));
        lemma_named_at("nfs_unstable"@, "mem_nfs_unstable"@, 8);
    } else if i == 29 {
        reveal_strlit("pagetables");
        reveal_strlit("mem_page_tables");
        assert(t[29].0 == "pagetables"@ && t[29].1 == "mem_page_tables"@);
        assert("mem_page_tables"@.subrange(9, 15) =~= bare_key("pagetables"@).subrange(4, 10));
        lemma_named_at("pagetables"@, "mem_page_tables"@, 9);
    } else if i == 30 {
        reveal_strlit("percpu");
        reveal_strlit("mem_per_cpu");
        assert(t[30].0 == "percpu"@ && t[30].1 == "mem_per_cpu"@);
        assert("mem_per_cpu"@.subrange(8, 11) =~= bare_key("percpu"@).subrange(3, 6));
        lemma_named_at("percpu"@, "mem_per_cpu"@, 8);
    } else if i == 31 {
        reveal_strlit("sreclaimable");
        reveal_strlit("mem_s_reclaimable");
        assert(t[31].0 == "sreclaimable"@ && t[31].1 == "mem_s_reclaimable"@);
        assert("mem_s_reclaimable"@.subrange(6, 17) =~= bare_key("sreclaimable"@).subrange(1, 12));
        lemma_named_at("sreclaimable"@, "mem_s_reclaimable"@, 6);
    } else if i == 32 {
        reveal_strlit("sunreclaim");
        reveal_strlit("mem_s_unreclaim");
        assert(t[32].0 == "sunreclaim"@ && t[32].1 == "mem_s_unreclaim"@);
        assert("mem_s_unreclaim"@.subrange(6, 15) =~= bare_key("sunreclaim"@).subrange(1, 10));
        lemma_named_at("sunreclaim"@, "mem_s_unreclaim"@, 6);
    } else if i == 33 {
        reveal_strlit("shmem");
        reveal_strlit("mem_sh_mem");
        assert(t[33].0 == "shmem"@ && t[33].1 == "mem_sh_mem"@);
        assert("mem_sh_mem"@.subrange(7, 10) =~= bare_key("shmem"@).subrange(2, 5));
        lemma_named_at("shmem"@, "mem_sh_mem"@, 7);
    } else if i == 34 {
        reveal_strlit("shmemhugepages");
        reveal_strlit("mem_sh_mem_huge_pages");
        assert(t[34].0 == "shmemhugepages"@ && t[34].1 == "mem_sh_mem_huge_pages"@);
        assert("mem_sh_mem_huge_pages"@.subrange(16, 21) =~= bare_key("shmemhugepages"@).subrange(9, 14));
        lemma_named_at("shmemhugepages"@, "mem_sh_mem_huge_pages"@, 16);
    } else if i == 35 {
        reveal_strlit("shmempmdmapped");
        reveal_strlit("mem_sh_mem_pmd_mapped");
        assert(t[35].0 == "shmempmdmapped"@ && t[35].1 == "mem_sh_mem_pmd_mapped"@);
        assert("mem_sh_mem_pmd_mapped"@.subrange(15, 21) =~= bare_key("shmempmdmapped"@).subrange(8, 14));
        lemma_named_at("shmempmdmapped"@, "mem_sh_mem_pmd_mapped"@, 15);
    } else if i == 36 {
        reveal_strlit("slab");
        reveal_strlit("mem_slab");
        assert(t[36].0 == "slab"@ && t[36].1 == "mem_slab"@);
        assert("mem_slab"@.subrange(4, 8) =~= bare_key("slab"@).subrange(0, 4));
        lemma_named_at("slab"@, "mem_slab"@, 4);
    } else if i == 37 {
        reveal_strlit("swapcached");
        reveal_strlit("swap_cached");
        assert(t[37].0 == "swapcached"@ && t[37].1 == "swap_cached"@);
        assert("swap_cached"@.subrange(5, 11) =~= bare_key("swapcached"@).subrange(4, 10));
        lemma_named_at("swapcached"@, "swap_cached"@, 5);
    } else if i == 38 {
        reveal_strlit("swapfree");
        reveal_strlit("swap_free");
        assert(t[38].0 == "swapfree"@ && t[38].1 == "swap_free"@);
        assert("swap_free"@.subrange(5, 9) =~= bare_key("swapfree"@).subrange(4, 8));
        lemma_named_at("swapfree"@, "swap_free"@, 5);
    } else if i == 39 {
        reveal_strlit("swaptotal");
        reveal_strlit("swap_total");
        assert(t[39].0 == "swaptotal"@ && t[39].1 == "swap_total"@);
        assert("swap_total"@.subrange(5, 10) =~= bare_key("swaptotal"@).subrange(4, 9));
        lemma_named_at("swaptotal"@, "swap_total"@, 5);
    } else if i == 40 {
        reveal_strlit("unevictable");
        reveal_strlit("mem_unevictable");
        assert(t[40].0 == "unevictable"@ && t[40].1 == "mem_unevictable"@);
        assert("mem_unevictable"@.subrange(4, 15) =~= bare_key("unevictable"@).subrange(0, 11));
        lemma_named_at("unevictable"@, "mem_unevictable"@, 4);
    } else if i == 41 {
        reveal_strlit("vmallocchunk");
        reveal_strlit("mem_vmalloc_chunk");
        assert(t[41].0 == "vmallocchunk"@ && t[41].1 == "mem_vmalloc_chunk"@);
        assert("mem_vmalloc_chunk"@.subrange(12, 17) =~= bare_key("vmallocchunk"@).subrange(7, 12));
        lemma_named_at("vmallocchunk"@, "mem_vmalloc_chunk"@, 12);
    } else if i == 42 {
        reveal_strlit("vmalloctotal");
        reveal_strlit("mem_vmalloc_total");
        assert(t[42].0 == "vmalloctotal"@ && t[42].1 == "mem_vmalloc_total"@);
        assert("mem_vmalloc_total"@.subrange(12, 17) =~= bare_key("vmalloctotal"@).subrange(7, 12));
        lemma_named_at("vmalloctotal"@, "mem_vmalloc_total"@, 12);
    } else if i == 43 {
        reveal_strlit("vmallocused");
        reveal_strlit("mem_vmalloc_used");
        assert(t[43].0 == "vmallocused"@ && t[43].1 == "mem_vmalloc_used"@);
        assert("mem_vmalloc_used"@.subrange(12, 16) =~= bare_key("vmallocused"@).subrange(7, 11));
        lemma_named_at("vmallocused"@, "mem_vmalloc_used"@, 12);
    } else if i == 44 {
        reveal_strlit("writeback");
        reveal_strlit("mem_writeback");
        assert(t[44].0 == "writeback"@ && t[44].1 == "mem_writeback"@);
        assert("mem_writeback"@.subrange(4, 13) =~= bare_key("writeback"@).subrange(0, 9));
        lemma_named_at("writeback"@, "mem_writeback"@, 4);
    } else if i == 45 {
        reveal_strlit("writebacktmp");
        reveal_strlit("mem_writeback_tmp");
        assert(t[45].0 == "writebacktmp"@ && t[45].1 == "mem_writeback_tmp"@);
        assert("mem_writeback_tmp"@.subrange(14, 17) =~= bare_key("writebacktmp"@).subrange(9, 12));
        lemma_named_at("writebacktmp"@, "mem_writeback_tmp"@, 14);
    }
}

/// Every row of the table names its measure after its statistic (see
/// `named_after`).
pub proof fn lemma_table_named()
    ensures
        forall|i: int| 0 <= i < meminfo_table().len()
            ==> named_after(#[trigger] meminfo_table()[i].0, meminfo_table()[i].1),
{
    assert forall|i: int| 0 <= i < meminfo_table().len()
        implies named_after(#[trigger] meminfo_table()[i].0, meminfo_table()[i].1) by {
        lemma_row_named(i);
    }
}


proof fn lemma_row_for_in_table(t: Seq<(Seq<char>, Seq<char>, Seq<char>)>, k: Seq<char>)
    ensures
        row_for(t, k) matches Some((n, h)) ==> exists|j: int| 0 <= j < t.len() && (#[trigger] t[j]).0 == k && t[j].1 == n,
    decreases t.len(),
{
    if t.len() > 0 && t[0].0 != k {
        lemma_row_for_in_table(t.drop_first(), k);
        match row_for(t, k) {
            Some((n, h)) => {
                let j = choose|j: int| 0 <= j < t.drop_first().len() && (#[trigger] t.drop_first()[j]).0 == k
                    && t.drop_first()[j].1 == n;
                assert(t[j + 1] == t.drop_first()[j]);
            },
            None => {},
        }
    } else if t.len() > 0 {
        assert(t[0].0 == k);
    }
}

/// Each gauge of the memory statistics carries the value of one statistic,
/// under a name made of that statistic's lower-cased key (see
/// `named_after`): `SwapFree` is reported as `swap_free`, never as
/// another statistic's name.
pub proof fn lemma_gauges_named_after_keys(entries: Seq<(String, u64)>, i: int)
    requires
        0 <= i < meminfo_gauges(entries).len(),
    ensures
        exists|j: int| 0 <= j < entries.len() && named_after(lowercase_of((#[trigger] entries[j]).0@), meminfo_gauges(entries)[i].0)
            && meminfo_gauges(entries)[i].2 == entries[j].1,
    decreases entries.len(),
{
    let pre = entries.drop_last();
    let e = entries.last();
    let g = meminfo_gauges(entries);
    let gp = meminfo_gauges(pre);
    if i < gp.len() {
        lemma_gauges_named_after_keys(pre, i);
        let j = choose|j: int| 0 <= j < pre.len() && named_after(lowercase_of((#[trigger] pre[j]).0@), gp[i].0)
            && gp[i].2 == pre[j].1;
        assert(entries[j] == pre[j]);
        match row_for(meminfo_table(), lowercase_of(e.0@)) {
            Some((n, h)) => assert(g[i] == gp[i]),
            None => assert(g == gp),
        }
    } else {
        let t = meminfo_table();
        lemma_row_for_in_table(t, lowercase_of(e.0@));
        match row_for(t, lowercase_of(e.0@)) {
            Some((n, h)) => {
                let j = choose|j: int| 0 <= j < t.len() && (#[trigger] t[j]).0 == lowercase_of(e.0@) && t[j].1 == n;
                lemma_row_named(j);
                assert(g[i] == (n, h, e.1));
                assert(entries[entries.len() - 1] == e);
            },
            None => assert(g == gp),
        }
    }
}

} // verus!
