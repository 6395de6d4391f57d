use waymon::collectors::meminfo::MemoryStats;

#[test]
fn meminfo_test_parse() -> Result<(), String> {
    let m = MemoryStats::parse(TEST_DATA);

    assert_eq!(m.mem_total, 24452240);
    assert_eq!(m.mem_free, 1107100);
    assert_eq!(m.mem_available, 13149848);
    assert_eq!(m.buffers, 1396164);
    assert_eq!(m.cached, 14007088);
    assert_eq!(m.swap_cached, 0);
    assert_eq!(m.active, 12562612);
    assert_eq!(m.inactive, 8298432);
    assert_eq!(m.unevictable, 807208);
    assert_eq!(m.mlocked, 160);
    assert_eq!(m.high_total, 0);
    assert_eq!(m.high_free, 0);
    assert_eq!(m.low_total, 0);
    assert_eq!(m.low_free, 0);
    assert_eq!(m.swap_total, 20971000);
    assert_eq!(m.swap_free, 20970232);
    assert_eq!(m.dirty, 60);
    assert_eq!(m.writeback, 0);
    assert_eq!(m.anon_pages, 6193256);
    assert_eq!(m.mapped, 798028);
    assert_eq!(m.shmem, 2260328);
    assert_eq!(m.kreclaimable, 817816);
    assert_eq!(m.slab, 1077340);
    assert_eq!(m.sreclaimable, 817816);
    assert_eq!(m.sunreclaimable, 259524);
    assert_eq!(m.kernel_stack, 26640);
    assert_eq!(m.page_tables, 65708);
    assert_eq!(m.commit_limit, 33197120);
    assert_eq!(m.committed_as, 16888952);
    assert_eq!(m.vmalloc_total, 34359738367);
    assert_eq!(m.vmalloc_used, 179892);

    Ok(())
}

const TEST_DATA: &str = r#"
MemTotal:       24452240 kB
MemFree:         1107100 kB
MemAvailable:   13149848 kB
Buffers:         1396164 kB
Cached:         14007088 kB
SwapCached:            0 kB
Active:         12562612 kB
Inactive:        8298432 kB
Active(anon):    7716384 kB
Inactive(anon):     1736 kB
Active(file):    4846228 kB
Inactive(file):  8296696 kB
Unevictable:      807208 kB
Mlocked:             160 kB
SwapTotal:      20971000 kB
SwapFree:       20970232 kB
Zswap:                 0 kB
Zswapped:              0 kB
Dirty:                60 kB
Writeback:             0 kB
AnonPages:       6193256 kB
Mapped:           798028 kB
Shmem:           2260328 kB
KReclaimable:     817816 kB
Slab:            1077340 kB
SReclaimable:     817816 kB
SUnreclaim:       259524 kB
KernelStack:       26640 kB
PageTables:        65708 kB
SecPageTables:         0 kB
NFS_Unstable:          0 kB
Bounce:                0 kB
WritebackTmp:          0 kB
CommitLimit:    33197120 kB
Committed_AS:   16888952 kB
VmallocTotal:   34359738367 kB
VmallocUsed:      179892 kB
VmallocChunk:          0 kB
Percpu:            14688 kB
HardwareCorrupted:     0 kB
AnonHugePages:    499712 kB
ShmemHugePages:  1910784 kB
ShmemPmdMapped:        0 kB
FileHugePages:         0 kB
FilePmdMapped:         0 kB
Unaccepted:            0 kB
HugePages_Total:       0
HugePages_Free:        0
HugePages_Rsvd:        0
HugePages_Surp:        0
Hugepagesize:       2048 kB
Hugetlb:               0 kB
DirectMap4k:      444092 kB
DirectMap2M:    13027328 kB
DirectMap1G:    11534336 kB
"#;
