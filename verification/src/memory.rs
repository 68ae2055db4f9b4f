//! Memory counters: the fields of the kernel's memory counter file, and the
//! snapshot that holds one reading of each.

use crate::text::{chars_of, same_text};
use vstd::prelude::*;

pub mod mem_info;

verus! {

/// How many counters a snapshot knows.
pub const MEM_KEY_COUNT: usize = 53;

/// The counters that a snapshot knows, in the order in which the kernel
/// writes them. A key of the file that is none of these is passed over.
#[derive(Clone, Copy, Debug, PartialEq, Eq, Hash, Structural)]
pub enum MemKey {
    MemTotal,
    MemFree,
    MemAvailable,
    Buffers,
    Cached,
    SwapCached,
    Active,
    Inactive,
    ActiveAnon,
    InactiveAnon,
    ActiveFile,
    InactiveFile,
    Unevictable,
    Mlocked,
    SwapTotal,
    SwapFree,
    Dirty,
    Writeback,
    AnonPages,
    Mapped,
    Shmem,
    KReclaimable,
    Slab,
    SReclaimable,
    SUnreclaim,
    KernelStack,
    PageTables,
    NfsUnstable,
    Bounce,
    WritebackTmp,
    CommitLimit,
    CommittedAs,
    VmallocTotal,
    VmallocUsed,
    VmallocChunk,
    Percpu,
    CmaTotal,
    CmaFree,
    HardwareCorrupted,
    AnonHugePages,
    ShmemHugePages,
    ShmemPmdMapped,
    FileHugePages,
    FilePmdMapped,
    HugePagesTotal,
    HugePagesFree,
    HugePagesRsvd,
    HugePagesSurp,
    HugePageSize,
    HugeTlb,
    DirectMap4k,
    DirectMap2M,
    DirectMap1G,
}

impl MemKey {
    /// The key as the counter file writes it.
    pub open spec fn spec_name(self) -> Seq<char> {
        match self {
            MemKey::MemTotal => "MemTotal"@,
            MemKey::MemFree => "MemFree"@,
            MemKey::MemAvailable => "MemAvailable"@,
            MemKey::Buffers => "Buffers"@,
            MemKey::Cached => "Cached"@,
            MemKey::SwapCached => "SwapCached"@,
            MemKey::Active => "Active"@,
            MemKey::Inactive => "Inactive"@,
            MemKey::ActiveAnon => "Active(anon)"@,
            MemKey::InactiveAnon => "Inactive(anon)"@,
            MemKey::ActiveFile => "Active(file)"@,
            MemKey::InactiveFile => "Inactive(file)"@,
            MemKey::Unevictable => "Unevictable"@,
            MemKey::Mlocked => "Mlocked"@,
            MemKey::SwapTotal => "SwapTotal"@,
            MemKey::SwapFree => "SwapFree"@,
            MemKey::Dirty => "Dirty"@,
            MemKey::Writeback => "Writeback"@,
            MemKey::AnonPages => "AnonPages"@,
            MemKey::Mapped => "Mapped"@,
            MemKey::Shmem => "Shmem"@,
            MemKey::KReclaimable => "KReclaimable"@,
            MemKey::Slab => "Slab"@,
            MemKey::SReclaimable => "SReclaimable"@,
            MemKey::SUnreclaim => "SUnreclaim"@,
            MemKey::KernelStack => "KernelStack"@,
            MemKey::PageTables => "PageTables"@,
            MemKey::NfsUnstable => "NFS_Unstable"@,
            MemKey::Bounce => "Bounce"@,
            MemKey::WritebackTmp => "WritebackTmp"@,
            MemKey::CommitLimit => "CommitLimit"@,
            MemKey::CommittedAs => "Committed_AS"@,
            MemKey::VmallocTotal => "VmallocTotal"@,
            MemKey::VmallocUsed => "VmallocUsed"@,
            MemKey::VmallocChunk => "VmallocChunk"@,
            MemKey::Percpu => "Percpu"@,
            MemKey::CmaTotal => "CmaTotal"@,
            MemKey::CmaFree => "CmaFree"@,
            MemKey::HardwareCorrupted => "HardwareCorrupted"@,
            MemKey::AnonHugePages => "AnonHugePages"@,
            MemKey::ShmemHugePages => "ShmemHugePages"@,
            MemKey::ShmemPmdMapped => "ShmemPmdMapped"@,
            MemKey::FileHugePages => "FileHugePages"@,
            MemKey::FilePmdMapped => "FilePmdMapped"@,
            MemKey::HugePagesTotal => "HugePages_Total"@,
            MemKey::HugePagesFree => "HugePages_Free"@,
            MemKey::HugePagesRsvd => "HugePages_Rsvd"@,
            MemKey::HugePagesSurp => "HugePages_Surp"@,
            MemKey::HugePageSize => "Hugepagesize"@,
            MemKey::HugeTlb => "Hugetlb"@,
            MemKey::DirectMap4k => "DirectMap4k"@,
            MemKey::DirectMap2M => "DirectMap2M"@,
            MemKey::DirectMap1G => "DirectMap1G"@,
        }
    }

    /// The key as the counter file writes it.
    pub fn name(self) -> (r: &'static str)
        ensures
            r@ == self.spec_name(),
    {
        match self {
            MemKey::MemTotal => "MemTotal",
            MemKey::MemFree => "MemFree",
            MemKey::MemAvailable => "MemAvailable",
            MemKey::Buffers => "Buffers",
            MemKey::Cached => "Cached",
            MemKey::SwapCached => "SwapCached",
            MemKey::Active => "Active",
            MemKey::Inactive => "Inactive",
            MemKey::ActiveAnon => "Active(anon)",
            MemKey::InactiveAnon => "Inactive(anon)",
            MemKey::ActiveFile => "Active(file)",
            MemKey::InactiveFile => "Inactive(file)",
            MemKey::Unevictable => "Unevictable",
            MemKey::Mlocked => "Mlocked",
            MemKey::SwapTotal => "SwapTotal",
            MemKey::SwapFree => "SwapFree",
            MemKey::Dirty => "Dirty",
            MemKey::Writeback => "Writeback",
            MemKey::AnonPages => "AnonPages",
            MemKey::Mapped => "Mapped",
            MemKey::Shmem => "Shmem",
            MemKey::KReclaimable => "KReclaimable",
            MemKey::Slab => "Slab",
            MemKey::SReclaimable => "SReclaimable",
            MemKey::SUnreclaim => "SUnreclaim",
            MemKey::KernelStack => "KernelStack",
            MemKey::PageTables => "PageTables",
            MemKey::NfsUnstable => "NFS_Unstable",
            MemKey::Bounce => "Bounce",
            MemKey::WritebackTmp => "WritebackTmp",
            MemKey::CommitLimit => "CommitLimit",
            MemKey::CommittedAs => "Committed_AS",
            MemKey::VmallocTotal => "VmallocTotal",
            MemKey::VmallocUsed => "VmallocUsed",
            MemKey::VmallocChunk => "VmallocChunk",
            MemKey::Percpu => "Percpu",
            MemKey::CmaTotal => "CmaTotal",
            MemKey::CmaFree => "CmaFree",
            MemKey::HardwareCorrupted => "HardwareCorrupted",
            MemKey::AnonHugePages => "AnonHugePages",
            MemKey::ShmemHugePages => "ShmemHugePages",
            MemKey::ShmemPmdMapped => "ShmemPmdMapped",
            MemKey::FileHugePages => "FileHugePages",
            MemKey::FilePmdMapped => "FilePmdMapped",
            MemKey::HugePagesTotal => "HugePages_Total",
            MemKey::HugePagesFree => "HugePages_Free",
            MemKey::HugePagesRsvd => "HugePages_Rsvd",
            MemKey::HugePagesSurp => "HugePages_Surp",
            MemKey::HugePageSize => "Hugepagesize",
            MemKey::HugeTlb => "Hugetlb",
            MemKey::DirectMap4k => "DirectMap4k",
            MemKey::DirectMap2M => "DirectMap2M",
            MemKey::DirectMap1G => "DirectMap1G",
        }
    }

    /// The place of the key in the kernel's order, counted from 0.
    pub open spec fn spec_index(self) -> int {
        match self {
            MemKey::MemTotal => 0,
            MemKey::MemFree => 1,
            MemKey::MemAvailable => 2,
            MemKey::Buffers => 3,
            MemKey::Cached => 4,
            MemKey::SwapCached => 5,
            MemKey::Active => 6,
            MemKey::Inactive => 7,
            MemKey::ActiveAnon => 8,
            MemKey::InactiveAnon => 9,
            MemKey::ActiveFile => 10,
            MemKey::InactiveFile => 11,
            MemKey::Unevictable => 12,
            MemKey::Mlocked => 13,
            MemKey::SwapTotal => 14,
            MemKey::SwapFree => 15,
            MemKey::Dirty => 16,
            MemKey::Writeback => 17,
            MemKey::AnonPages => 18,
            MemKey::Mapped => 19,
            MemKey::Shmem => 20,
            MemKey::KReclaimable => 21,
            MemKey::Slab => 22,
            MemKey::SReclaimable => 23,
            MemKey::SUnreclaim => 24,
            MemKey::KernelStack => 25,
            MemKey::PageTables => 26,
            MemKey::NfsUnstable => 27,
            MemKey::Bounce => 28,
            MemKey::WritebackTmp => 29,
            MemKey::CommitLimit => 30,
            MemKey::CommittedAs => 31,
            MemKey::VmallocTotal => 32,
            MemKey::VmallocUsed => 33,
            MemKey::VmallocChunk => 34,
            MemKey::Percpu => 35,
            MemKey::CmaTotal => 36,
            MemKey::CmaFree => 37,
            MemKey::HardwareCorrupted => 38,
            MemKey::AnonHugePages => 39,
            MemKey::ShmemHugePages => 40,
            MemKey::ShmemPmdMapped => 41,
            MemKey::FileHugePages => 42,
            MemKey::FilePmdMapped => 43,
            MemKey::HugePagesTotal => 44,
            MemKey::HugePagesFree => 45,
            MemKey::HugePagesRsvd => 46,
            MemKey::HugePagesSurp => 47,
            MemKey::HugePageSize => 48,
            MemKey::HugeTlb => 49,
            MemKey::DirectMap4k => 50,
            MemKey::DirectMap2M => 51,
            MemKey::DirectMap1G => 52,
        }
    }

    /// The key that stands at place `i` of the kernel's order; none where
    /// the order has no such place.
    pub fn at(i: usize) -> (r: Option<MemKey>)
        ensures
            match r {
                Some(key) => key.spec_index() == i,
                None => i >= MEM_KEY_COUNT,
            },
    {
        match i {
            0 => Some(MemKey::MemTotal),
            1 => Some(MemKey::MemFree),
            2 => Some(MemKey::MemAvailable),
            3 => Some(MemKey::Buffers),
            4 => Some(MemKey::Cached),
            5 => Some(MemKey::SwapCached),
            6 => Some(MemKey::Active),
            7 => Some(MemKey::Inactive),
            8 => Some(MemKey::ActiveAnon),
            9 => Some(MemKey::InactiveAnon),
            10 => Some(MemKey::ActiveFile),
            11 => Some(MemKey::InactiveFile),
            12 => Some(MemKey::Unevictable),
            13 => Some(MemKey::Mlocked),
            14 => Some(MemKey::SwapTotal),
            15 => Some(MemKey::SwapFree),
            16 => Some(MemKey::Dirty),
            17 => Some(MemKey::Writeback),
            18 => Some(MemKey::AnonPages),
            19 => Some(MemKey::Mapped),
            20 => Some(MemKey::Shmem),
            21 => Some(MemKey::KReclaimable),
            22 => Some(MemKey::Slab),
            23 => Some(MemKey::SReclaimable),
            24 => Some(MemKey::SUnreclaim),
            25 => Some(MemKey::KernelStack),
            26 => Some(MemKey::PageTables),
            27 => Some(MemKey::NfsUnstable),
            28 => Some(MemKey::Bounce),
            29 => Some(MemKey::WritebackTmp),
            30 => Some(MemKey::CommitLimit),
            31 => Some(MemKey::CommittedAs),
            32 => Some(MemKey::VmallocTotal),
            33 => Some(MemKey::VmallocUsed),
            34 => Some(MemKey::VmallocChunk),
            35 => Some(MemKey::Percpu),
            36 => Some(MemKey::CmaTotal),
            37 => Some(MemKey::CmaFree),
            38 => Some(MemKey::HardwareCorrupted),
            39 => Some(MemKey::AnonHugePages),
            40 => Some(MemKey::ShmemHugePages),
            41 => Some(MemKey::ShmemPmdMapped),
            42 => Some(MemKey::FileHugePages),
            43 => Some(MemKey::FilePmdMapped),
            44 => Some(MemKey::HugePagesTotal),
            45 => Some(MemKey::HugePagesFree),
            46 => Some(MemKey::HugePagesRsvd),
            47 => Some(MemKey::HugePagesSurp),
            48 => Some(MemKey::HugePageSize),
            49 => Some(MemKey::HugeTlb),
            50 => Some(MemKey::DirectMap4k),
            51 => Some(MemKey::DirectMap2M),
            52 => Some(MemKey::DirectMap1G),
            _ => None,
        }
    }

    /// The key that the counter file writes as `name`, if a snapshot knows it.
    pub open spec fn spec_from_name(name: Seq<char>) -> Option<MemKey> {
        if exists|k: MemKey| k.spec_name() == name {
            Some(choose|k: MemKey| k.spec_name() == name)
        } else {
            None
        }
    }

    /// The key that the counter file writes as `name`, if a snapshot knows it.
    pub fn from_chars(name: &[char]) -> (r: Option<MemKey>)
        ensures
            r == MemKey::spec_from_name(name@),
            r matches Some(k) ==> k.spec_name() == name@,
            r is None ==> forall|k: MemKey| k.spec_name() != name@,
    {
        let mut i: usize = 0;
        while i < MEM_KEY_COUNT
            invariant
                i <= MEM_KEY_COUNT,
                forall|k: MemKey| k.spec_index() < i ==> #[trigger] k.spec_name() != name@,
            decreases MEM_KEY_COUNT - i,
        {
            if let Some(key) = MemKey::at(i) {
                if same_text(name, key.name()) {
                    proof {
                        lemma_names_distinct(choose|k: MemKey| k.spec_name() == name@, key);
                    }
                    return Some(key);
                }
                proof {
                    assert forall|k: MemKey| k.spec_index() < i + 1 implies #[trigger] k.spec_name()
                        != name@ by {
                        lemma_index_distinct(k, key);
                    }
                }
            }
            i += 1;
        }
        proof {
            assert forall|k: MemKey| #[trigger] k.spec_name() != name@ by {
                lemma_index_distinct(k, k);
            }
        }
        None
    }

    /// The key that the counter file writes as `name`, if a snapshot knows it.
    pub fn from_name(name: &str) -> (r: Option<MemKey>)
        ensures
            r == MemKey::spec_from_name(name@),
            r matches Some(k) ==> k.spec_name() == name@,
            r is None ==> forall|k: MemKey| k.spec_name() != name@,
    {
        let chars = chars_of(name);
        MemKey::from_chars(chars.as_slice())
    }

    /// Whether the kernel writes the counter only where a feature is built
    /// in, so that a snapshot may lack it.
    pub open spec fn spec_is_optional(self) -> bool {
        match self {
            MemKey::CmaTotal
            | MemKey::CmaFree
            | MemKey::HardwareCorrupted
            | MemKey::AnonHugePages
            | MemKey::ShmemHugePages
            | MemKey::ShmemPmdMapped
            | MemKey::FileHugePages
            | MemKey::FilePmdMapped
            | MemKey::DirectMap4k
            | MemKey::DirectMap2M
            | MemKey::DirectMap1G => true,
            _ => false,
        }
    }

    /// Whether the kernel writes the counter only where a feature is built
    /// in, so that a snapshot may lack it.
    #[verifier::when_used_as_spec(spec_is_optional)]
    pub fn is_optional(self) -> (r: bool)
        ensures
            r == self.spec_is_optional(),
    {
        match self {
            MemKey::CmaTotal
            | MemKey::CmaFree
            | MemKey::HardwareCorrupted
            | MemKey::AnonHugePages
            | MemKey::ShmemHugePages
            | MemKey::ShmemPmdMapped
            | MemKey::FileHugePages
            | MemKey::FilePmdMapped
            | MemKey::DirectMap4k
            | MemKey::DirectMap2M
            | MemKey::DirectMap1G => true,
            _ => false,
        }
    }
}

/// One reading of the memory counters, in the file's unit (kibibytes, or a
/// count of pages for the huge-page totals). A counter that every kernel
/// writes reads 0 until a line sets it; one that only some kernels write is
/// `None` until a line sets it.
#[derive(Clone, Copy, Debug, PartialEq, Eq, Structural)]
pub struct MemInfo {
    pub mem_total: u64,
    pub mem_free: u64,
    pub mem_available: u64,
    pub buffers: u64,
    pub cached: u64,
    pub swap_cached: u64,
    pub active: u64,
    pub inactive: u64,
    pub active_anon: u64,
    pub inactive_anon: u64,
    pub active_file: u64,
    pub inactive_file: u64,
    pub unevictable: u64,
    pub mlocked: u64,
    pub swap_total: u64,
    pub swap_free: u64,
    pub dirty: u64,
    pub writeback: u64,
    pub anon_pages: u64,
    pub mapped: u64,
    pub shmem: u64,
    pub kreclaimable: u64,
    pub slab: u64,
    pub sreclaimable: u64,
    pub sunreclaim: u64,
    pub kernel_stack: u64,
    pub page_tables: u64,
    pub nfs_unstable: u64,
    pub bounce: u64,
    pub writeback_tmp: u64,
    pub commit_limit: u64,
    pub committed_as: u64,
    pub vmalloc_total: u64,
    pub vmalloc_used: u64,
    pub vmalloc_chunk: u64,
    pub percpu: u64,
    pub cma_total: Option<u64>,
    pub cma_free: Option<u64>,
    pub hardware_corrupted: Option<u64>,
    pub anon_huge_pages: Option<u64>,
    pub shmem_huge_pages: Option<u64>,
    pub shmem_pmd_mapped: Option<u64>,
    pub file_huge_pages: Option<u64>,
    pub file_pmd_mapped: Option<u64>,
    pub huge_pages_total: u64,
    pub huge_pages_free: u64,
    pub huge_pages_rsvd: u64,
    pub huge_pages_surp: u64,
    pub huge_page_size: u64,
    pub huge_tlb: u64,
    pub direct_map4k: Option<u64>,
    pub direct_map2_m: Option<u64>,
    pub direct_map1_g: Option<u64>,
}

impl MemInfo {
    /// The snapshot that no line has touched yet.
    pub open spec fn spec_new() -> MemInfo {
        MemInfo {
            mem_total: 0,
            mem_free: 0,
            mem_available: 0,
            buffers: 0,
            cached: 0,
            swap_cached: 0,
            active: 0,
            inactive: 0,
            active_anon: 0,
            inactive_anon: 0,
            active_file: 0,
            inactive_file: 0,
            unevictable: 0,
            mlocked: 0,
            swap_total: 0,
            swap_free: 0,
            dirty: 0,
            writeback: 0,
            anon_pages: 0,
            mapped: 0,
            shmem: 0,
            kreclaimable: 0,
            slab: 0,
            sreclaimable: 0,
            sunreclaim: 0,
            kernel_stack: 0,
            page_tables: 0,
            nfs_unstable: 0,
            bounce: 0,
            writeback_tmp: 0,
            commit_limit: 0,
            committed_as: 0,
            vmalloc_total: 0,
            vmalloc_used: 0,
            vmalloc_chunk: 0,
            percpu: 0,
            cma_total: None,
            cma_free: None,
            hardware_corrupted: None,
            anon_huge_pages: None,
            shmem_huge_pages: None,
            shmem_pmd_mapped: None,
            file_huge_pages: None,
            file_pmd_mapped: None,
            huge_pages_total: 0,
            huge_pages_free: 0,
            huge_pages_rsvd: 0,
            huge_pages_surp: 0,
            huge_page_size: 0,
            huge_tlb: 0,
            direct_map4k: None,
            direct_map2_m: None,
            direct_map1_g: None,
        }
    }

    /// The snapshot that no line has touched yet.
    pub fn new() -> (r: MemInfo)
        ensures
            r == MemInfo::spec_new(),
    {
        MemInfo {
            mem_total: 0,
            mem_free: 0,
            mem_available: 0,
            buffers: 0,
            cached: 0,
            swap_cached: 0,
            active: 0,
            inactive: 0,
            active_anon: 0,
            inactive_anon: 0,
            active_file: 0,
            inactive_file: 0,
            unevictable: 0,
            mlocked: 0,
            swap_total: 0,
            swap_free: 0,
            dirty: 0,
            writeback: 0,
            anon_pages: 0,
            mapped: 0,
            shmem: 0,
            kreclaimable: 0,
            slab: 0,
            sreclaimable: 0,
            sunreclaim: 0,
            kernel_stack: 0,
            page_tables: 0,
            nfs_unstable: 0,
            bounce: 0,
            writeback_tmp: 0,
            commit_limit: 0,
            committed_as: 0,
            vmalloc_total: 0,
            vmalloc_used: 0,
            vmalloc_chunk: 0,
            percpu: 0,
            cma_total: None,
            cma_free: None,
            hardware_corrupted: None,
            anon_huge_pages: None,
            shmem_huge_pages: None,
            shmem_pmd_mapped: None,
            file_huge_pages: None,
            file_pmd_mapped: None,
            huge_pages_total: 0,
            huge_pages_free: 0,
            huge_pages_rsvd: 0,
            huge_pages_surp: 0,
            huge_page_size: 0,
            huge_tlb: 0,
            direct_map4k: None,
            direct_map2_m: None,
            direct_map1_g: None,
        }
    }

    /// What the snapshot holds for `key`: `None` where the counter is one
    /// that may be lacking and no line has set it.
    pub open spec fn spec_get(&self, key: MemKey) -> Option<u64> {
        match key {
            MemKey::MemTotal => Some(self.mem_total),
            MemKey::MemFree => Some(self.mem_free),
            MemKey::MemAvailable => Some(self.mem_available),
            MemKey::Buffers => Some(self.buffers),
            MemKey::Cached => Some(self.cached),
            MemKey::SwapCached => Some(self.swap_cached),
            MemKey::Active => Some(self.active),
            MemKey::Inactive => Some(self.inactive),
            MemKey::ActiveAnon => Some(self.active_anon),
            MemKey::InactiveAnon => Some(self.inactive_anon),
            MemKey::ActiveFile => Some(self.active_file),
            MemKey::InactiveFile => Some(self.inactive_file),
            MemKey::Unevictable => Some(self.unevictable),
            MemKey::Mlocked => Some(self.mlocked),
            MemKey::SwapTotal => Some(self.swap_total),
            MemKey::SwapFree => Some(self.swap_free),
            MemKey::Dirty => Some(self.dirty),
            MemKey::Writeback => Some(self.writeback),
            MemKey::AnonPages => Some(self.anon_pages),
            MemKey::Mapped => Some(self.mapped),
            MemKey::Shmem => Some(self.shmem),
            MemKey::KReclaimable => Some(self.kreclaimable),
            MemKey::Slab => Some(self.slab),
            MemKey::SReclaimable => Some(self.sreclaimable),
            MemKey::SUnreclaim => Some(self.sunreclaim),
            MemKey::KernelStack => Some(self.kernel_stack),
            MemKey::PageTables => Some(self.page_tables),
            MemKey::NfsUnstable => Some(self.nfs_unstable),
            MemKey::Bounce => Some(self.bounce),
            MemKey::WritebackTmp => Some(self.writeback_tmp),
            MemKey::CommitLimit => Some(self.commit_limit),
            MemKey::CommittedAs => Some(self.committed_as),
            MemKey::VmallocTotal => Some(self.vmalloc_total),
            MemKey::VmallocUsed => Some(self.vmalloc_used),
            MemKey::VmallocChunk => Some(self.vmalloc_chunk),
            MemKey::Percpu => Some(self.percpu),
            MemKey::CmaTotal => self.cma_total,
            MemKey::CmaFree => self.cma_free,
            MemKey::HardwareCorrupted => self.hardware_corrupted,
            MemKey::AnonHugePages => self.anon_huge_pages,
            MemKey::ShmemHugePages => self.shmem_huge_pages,
            MemKey::ShmemPmdMapped => self.shmem_pmd_mapped,
            MemKey::FileHugePages => self.file_huge_pages,
            MemKey::FilePmdMapped => self.file_pmd_mapped,
            MemKey::HugePagesTotal => Some(self.huge_pages_total),
            MemKey::HugePagesFree => Some(self.huge_pages_free),
            MemKey::HugePagesRsvd => Some(self.huge_pages_rsvd),
            MemKey::HugePagesSurp => Some(self.huge_pages_surp),
            MemKey::HugePageSize => Some(self.huge_page_size),
            MemKey::HugeTlb => Some(self.huge_tlb),
            MemKey::DirectMap4k => self.direct_map4k,
            MemKey::DirectMap2M => self.direct_map2_m,
            MemKey::DirectMap1G => self.direct_map1_g,
        }
    }

    /// What the snapshot holds for `key`: `None` where the counter is one
    /// that may be lacking and no line has set it.
    #[verifier::when_used_as_spec(spec_get)]
    pub fn get(&self, key: MemKey) -> (r: Option<u64>)
        ensures
            r == self.spec_get(key),
    {
        match key {
            MemKey::MemTotal => Some(self.mem_total),
            MemKey::MemFree => Some(self.mem_free),
            MemKey::MemAvailable => Some(self.mem_available),
            MemKey::Buffers => Some(self.buffers),
            MemKey::Cached => Some(self.cached),
            MemKey::SwapCached => Some(self.swap_cached),
            MemKey::Active => Some(self.active),
            MemKey::Inactive => Some(self.inactive),
            MemKey::ActiveAnon => Some(self.active_anon),
            MemKey::InactiveAnon => Some(self.inactive_anon),
            MemKey::ActiveFile => Some(self.active_file),
            MemKey::InactiveFile => Some(self.inactive_file),
            MemKey::Unevictable => Some(self.unevictable),
            MemKey::Mlocked => Some(self.mlocked),
            MemKey::SwapTotal => Some(self.swap_total),
            MemKey::SwapFree => Some(self.swap_free),
            MemKey::Dirty => Some(self.dirty),
            MemKey::Writeback => Some(self.writeback),
            MemKey::AnonPages => Some(self.anon_pages),
            MemKey::Mapped => Some(self.mapped),
            MemKey::Shmem => Some(self.shmem),
            MemKey::KReclaimable => Some(self.kreclaimable),
            MemKey::Slab => Some(self.slab),
            MemKey::SReclaimable => Some(self.sreclaimable),
            MemKey::SUnreclaim => Some(self.sunreclaim),
            MemKey::KernelStack => Some(self.kernel_stack),
            MemKey::PageTables => Some(self.page_tables),
            MemKey::NfsUnstable => Some(self.nfs_unstable),
            MemKey::Bounce => Some(self.bounce),
            MemKey::WritebackTmp => Some(self.writeback_tmp),
            MemKey::CommitLimit => Some(self.commit_limit),
            MemKey::CommittedAs => Some(self.committed_as),
            MemKey::VmallocTotal => Some(self.vmalloc_total),
            MemKey::VmallocUsed => Some(self.vmalloc_used),
            MemKey::VmallocChunk => Some(self.vmalloc_chunk),
            MemKey::Percpu => Some(self.percpu),
            MemKey::CmaTotal => self.cma_total,
            MemKey::CmaFree => self.cma_free,
            MemKey::HardwareCorrupted => self.hardware_corrupted,
            MemKey::AnonHugePages => self.anon_huge_pages,
            MemKey::ShmemHugePages => self.shmem_huge_pages,
            MemKey::ShmemPmdMapped => self.shmem_pmd_mapped,
            MemKey::FileHugePages => self.file_huge_pages,
            MemKey::FilePmdMapped => self.file_pmd_mapped,
            MemKey::HugePagesTotal => Some(self.huge_pages_total),
            MemKey::HugePagesFree => Some(self.huge_pages_free),
            MemKey::HugePagesRsvd => Some(self.huge_pages_rsvd),
            MemKey::HugePagesSurp => Some(self.huge_pages_surp),
            MemKey::HugePageSize => Some(self.huge_page_size),
            MemKey::HugeTlb => Some(self.huge_tlb),
            MemKey::DirectMap4k => self.direct_map4k,
            MemKey::DirectMap2M => self.direct_map2_m,
            MemKey::DirectMap1G => self.direct_map1_g,
        }
    }

    /// The snapshot with `value` for `key` and every other counter as it was.
    pub open spec fn with(self, key: MemKey, value: u64) -> MemInfo {
        MemInfo {
            mem_total: if key == MemKey::MemTotal {
                value
            } else {
                self.mem_total
            },
            mem_free: if key == MemKey::MemFree {
                value
            } else {
                self.mem_free
            },
            mem_available: if key == MemKey::MemAvailable {
                value
            } else {
                self.mem_available
            },
            buffers: if key == MemKey::Buffers {
                value
            } else {
                self.buffers
            },
            cached: if key == MemKey::Cached {
                value
            } else {
                self.cached
            },
            swap_cached: if key == MemKey::SwapCached {
                value
            } else {
                self.swap_cached
            },
            active: if key == MemKey::Active {
                value
            } else {
                self.active
            },
            inactive: if key == MemKey::Inactive {
                value
            } else {
                self.inactive
            },
            active_anon: if key == MemKey::ActiveAnon {
                value
            } else {
                self.active_anon
            },
            inactive_anon: if key == MemKey::InactiveAnon {
                value
            } else {
                self.inactive_anon
            },
            active_file: if key == MemKey::ActiveFile {
                value
            } else {
                self.active_file
            },
            inactive_file: if key == MemKey::InactiveFile {
                value
            } else {
                self.inactive_file
            },
            unevictable: if key == MemKey::Unevictable {
                value
            } else {
                self.unevictable
            },
            mlocked: if key == MemKey::Mlocked {
                value
            } else {
                self.mlocked
            },
            swap_total: if key == MemKey::SwapTotal {
                value
            } else {
                self.swap_total
            },
            swap_free: if key == MemKey::SwapFree {
                value
            } else {
                self.swap_free
            },
            dirty: if key == MemKey::Dirty {
                value
            } else {
                self.dirty
            },
            writeback: if key == MemKey::Writeback {
                value
            } else {
                self.writeback
            },
            anon_pages: if key == MemKey::AnonPages {
                value
            } else {
                self.anon_pages
            },
            mapped: if key == MemKey::Mapped {
                value
            } else {
                self.mapped
            },
            shmem: if key == MemKey::Shmem {
                value
            } else {
                self.shmem
            },
            kreclaimable: if key == MemKey::KReclaimable {
                value
            } else {
                self.kreclaimable
            },
            slab: if key == MemKey::Slab {
                value
            } else {
                self.slab
            },
            sreclaimable: if key == MemKey::SReclaimable {
                value
            } else {
                self.sreclaimable
            },
            sunreclaim: if key == MemKey::SUnreclaim {
                value
            } else {
                self.sunreclaim
            },
            kernel_stack: if key == MemKey::KernelStack {
                value
            } else {
                self.kernel_stack
            },
            page_tables: if key == MemKey::PageTables {
                value
            } else {
                self.page_tables
            },
            nfs_unstable: if key == MemKey::NfsUnstable {
                value
            } else {
                self.nfs_unstable
            },
            bounce: if key == MemKey::Bounce {
                value
            } else {
                self.bounce
            },
            writeback_tmp: if key == MemKey::WritebackTmp {
                value
            } else {
                self.writeback_tmp
            },
            commit_limit: if key == MemKey::CommitLimit {
                value
            } else {
                self.commit_limit
            },
            committed_as: if key == MemKey::CommittedAs {
                value
            } else {
                self.committed_as
            },
            vmalloc_total: if key == MemKey::VmallocTotal {
                value
            } else {
                self.vmalloc_total
            },
            vmalloc_used: if key == MemKey::VmallocUsed {
                value
            } else {
                self.vmalloc_used
            },
            vmalloc_chunk: if key == MemKey::VmallocChunk {
                value
            } else {
                self.vmalloc_chunk
            },
            percpu: if key == MemKey::Percpu {
                value
            } else {
                self.percpu
            },
            cma_total: if key == MemKey::CmaTotal {
                Some(value)
            } else {
                self.cma_total
            },
            cma_free: if key == MemKey::CmaFree {
                Some(value)
            } else {
                self.cma_free
            },
            hardware_corrupted: if key == MemKey::HardwareCorrupted {
                Some(value)
            } else {
                self.hardware_corrupted
            },
            anon_huge_pages: if key == MemKey::AnonHugePages {
                Some(value)
            } else {
                self.anon_huge_pages
            },
            shmem_huge_pages: if key == MemKey::ShmemHugePages {
                Some(value)
            } else {
                self.shmem_huge_pages
            },
            shmem_pmd_mapped: if key == MemKey::ShmemPmdMapped {
                Some(value)
            } else {
                self.shmem_pmd_mapped
            },
            file_huge_pages: if key == MemKey::FileHugePages {
                Some(value)
            } else {
                self.file_huge_pages
            },
            file_pmd_mapped: if key == MemKey::FilePmdMapped {
                Some(value)
            } else {
                self.file_pmd_mapped
            },
            huge_pages_total: if key == MemKey::HugePagesTotal {
                value
            } else {
                self.huge_pages_total
            },
            huge_pages_free: if key == MemKey::HugePagesFree {
                value
            } else {
                self.huge_pages_free
            },
            huge_pages_rsvd: if key == MemKey::HugePagesRsvd {
                value
            } else {
                self.huge_pages_rsvd
            },
            huge_pages_surp: if key == MemKey::HugePagesSurp {
                value
            } else {
                self.huge_pages_surp
            },
            huge_page_size: if key == MemKey::HugePageSize {
                value
            } else {
                self.huge_page_size
            },
            huge_tlb: if key == MemKey::HugeTlb {
                value
            } else {
                self.huge_tlb
            },
            direct_map4k: if key == MemKey::DirectMap4k {
                Some(value)
            } else {
                self.direct_map4k
            },
            direct_map2_m: if key == MemKey::DirectMap2M {
                Some(value)
            } else {
                self.direct_map2_m
            },
            direct_map1_g: if key == MemKey::DirectMap1G {
                Some(value)
            } else {
                self.direct_map1_g
            },
        }
    }

    /// Sets the counter `key` to `value`.
    pub fn set(&mut self, key: MemKey, value: u64)
        ensures
            *final(self) == old(self).with(key, value),
    {
        match key {
            MemKey::MemTotal => {
                self.mem_total = value;
            },
            MemKey::MemFree => {
                self.mem_free = value;
            },
            MemKey::MemAvailable => {
                self.mem_available = value;
            },
            MemKey::Buffers => {
                self.buffers = value;
            },
            MemKey::Cached => {
                self.cached = value;
            },
            MemKey::SwapCached => {
                self.swap_cached = value;
            },
            MemKey::Active => {
                self.active = value;
            },
            MemKey::Inactive => {
                self.inactive = value;
            },
            MemKey::ActiveAnon => {
                self.active_anon = value;
            },
            MemKey::InactiveAnon => {
                self.inactive_anon = value;
            },
            MemKey::ActiveFile => {
                self.active_file = value;
            },
            MemKey::InactiveFile => {
                self.inactive_file = value;
            },
            MemKey::Unevictable => {
                self.unevictable = value;
            },
            MemKey::Mlocked => {
                self.mlocked = value;
            },
            MemKey::SwapTotal => {
                self.swap_total = value;
            },
            MemKey::SwapFree => {
                self.swap_free = value;
            },
            MemKey::Dirty => {
                self.dirty = value;
            },
            MemKey::Writeback => {
                self.writeback = value;
            },
            MemKey::AnonPages => {
                self.anon_pages = value;
            },
            MemKey::Mapped => {
                self.mapped = value;
            },
            MemKey::Shmem => {
                self.shmem = value;
            },
            MemKey::KReclaimable => {
                self.kreclaimable = value;
            },
            MemKey::Slab => {
                self.slab = value;
            },
            MemKey::SReclaimable => {
                self.sreclaimable = value;
            },
            MemKey::SUnreclaim => {
                self.sunreclaim = value;
            },
            MemKey::KernelStack => {
                self.kernel_stack = value;
            },
            MemKey::PageTables => {
                self.page_tables = value;
            },
            MemKey::NfsUnstable => {
                self.nfs_unstable = value;
            },
            MemKey::Bounce => {
                self.bounce = value;
            },
            MemKey::WritebackTmp => {
                self.writeback_tmp = value;
            },
            MemKey::CommitLimit => {
                self.commit_limit = value;
            },
            MemKey::CommittedAs => {
                self.committed_as = value;
            },
            MemKey::VmallocTotal => {
                self.vmalloc_total = value;
            },
            MemKey::VmallocUsed => {
                self.vmalloc_used = value;
            },
            MemKey::VmallocChunk => {
                self.vmalloc_chunk = value;
            },
            MemKey::Percpu => {
                self.percpu = value;
            },
            MemKey::CmaTotal => {
                self.cma_total = Some(value);
            },
            MemKey::CmaFree => {
                self.cma_free = Some(value);
            },
            MemKey::HardwareCorrupted => {
                self.hardware_corrupted = Some(value);
            },
            MemKey::AnonHugePages => {
                self.anon_huge_pages = Some(value);
            },
            MemKey::ShmemHugePages => {
                self.shmem_huge_pages = Some(value);
            },
            MemKey::ShmemPmdMapped => {
                self.shmem_pmd_mapped = Some(value);
            },
            MemKey::FileHugePages => {
                self.file_huge_pages = Some(value);
            },
            MemKey::FilePmdMapped => {
                self.file_pmd_mapped = Some(value);
            },
            MemKey::HugePagesTotal => {
                self.huge_pages_total = value;
            },
            MemKey::HugePagesFree => {
                self.huge_pages_free = value;
            },
            MemKey::HugePagesRsvd => {
                self.huge_pages_rsvd = value;
            },
            MemKey::HugePagesSurp => {
                self.huge_pages_surp = value;
            },
            MemKey::HugePageSize => {
                self.huge_page_size = value;
            },
            MemKey::HugeTlb => {
                self.huge_tlb = value;
            },
            MemKey::DirectMap4k => {
                self.direct_map4k = Some(value);
            },
            MemKey::DirectMap2M => {
                self.direct_map2_m = Some(value);
            },
            MemKey::DirectMap1G => {
                self.direct_map1_g = Some(value);
            },
        }
    }
}

impl Default for MemInfo {
    fn default() -> (r: MemInfo)
        ensures
            r == MemInfo::spec_new(),
    {
        MemInfo::new()
    }
}

/// Setting a counter changes what the snapshot holds for it, and nothing else.
pub proof fn lemma_with_get(info: MemInfo, key: MemKey, value: u64, other: MemKey)
    ensures
        info.with(key, value).spec_get(other) == if other == key {
            Some(value)
        } else {
            info.spec_get(other)
        },
{
}

/// Every key has a place in the kernel's order, and no two keys share one.
pub proof fn lemma_index_distinct(a: MemKey, b: MemKey)
    ensures
        0 <= a.spec_index() < MEM_KEY_COUNT,
        a.spec_index() == b.spec_index() ==> a == b,
{
}

/// No two keys are written alike.
pub proof fn lemma_names_distinct(a: MemKey, b: MemKey)
    ensures
        a.spec_name() == b.spec_name() ==> a == b,
{
    reveal_strlit("MemTotal");
    reveal_strlit("MemFree");
    reveal_strlit("MemAvailable");
    reveal_strlit("Buffers");
    reveal_strlit("Cached");
    reveal_strlit("SwapCached");
    reveal_strlit("Active");
    reveal_strlit("Inactive");
    reveal_strlit("Active(anon)");
    reveal_strlit("Inactive(anon)");
    reveal_strlit("Active(file)");
    reveal_strlit("Inactive(file)");
    reveal_strlit("Unevictable");
    reveal_strlit("Mlocked");
    reveal_strlit("SwapTotal");
    reveal_strlit("SwapFree");
    reveal_strlit("Dirty");
    reveal_strlit("Writeback");
    reveal_strlit("AnonPages");
    reveal_strlit("Mapped");
    reveal_strlit("Shmem");
    reveal_strlit("KReclaimable");
    reveal_strlit("Slab");
    reveal_strlit("SReclaimable");
    reveal_strlit("SUnreclaim");
    reveal_strlit("KernelStack");
    reveal_strlit("PageTables");
    reveal_strlit("NFS_Unstable");
    reveal_strlit("Bounce");
    reveal_strlit("WritebackTmp");
    reveal_strlit("CommitLimit");
    reveal_strlit("Committed_AS");
    reveal_strlit("VmallocTotal");
    reveal_strlit("VmallocUsed");
    reveal_strlit("VmallocChunk");
    reveal_strlit("Percpu");
    reveal_strlit("CmaTotal");
    reveal_strlit("CmaFree");
    reveal_strlit("HardwareCorrupted");
    reveal_strlit("AnonHugePages");
    reveal_strlit("ShmemHugePages");
    reveal_strlit("ShmemPmdMapped");
    reveal_strlit("FileHugePages");
    reveal_strlit("FilePmdMapped");
    reveal_strlit("HugePages_Total");
    reveal_strlit("HugePages_Free");
    reveal_strlit("HugePages_Rsvd");
    reveal_strlit("HugePages_Surp");
    reveal_strlit("Hugepagesize");
    reveal_strlit("Hugetlb");
    reveal_strlit("DirectMap4k");
    reveal_strlit("DirectMap2M");
    reveal_strlit("DirectMap1G");
    let s = a.spec_name();
    let t = b.spec_name();
    if s == t {
        // Two names of one length differ within their first twelve characters.
        assert(s.len() == t.len());
        assert(s[0] == t[0] && s[1] == t[1] && s[2] == t[2] && s[3] == t[3]);
        assert(s[4] == t[4] && s[5] == t[5] && s[6] == t[6] && s[7] == t[7]);
        assert(s[8] == t[8] && s[9] == t[9] && s[10] == t[10] && s[11] == t[11]);
    }
}

} // verus!
