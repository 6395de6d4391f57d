use waymon::collectors::diskstats::ProcDiskStats;

#[test]
fn diskstats_test_parse() -> Result<(), String> {
    let d = ProcDiskStats::parse(TEST_DATA);

    assert_eq!(d.disks.len(), 20);

    let ssd = d.disks.get("nvme0n1").ok_or("missing nvme0n1".to_string())?;
    assert_eq!(ssd.num_reads, 342448);
    assert_eq!(ssd.num_reads_merged, 55631);
    assert_eq!(ssd.num_sectors_read, 31849342);
    assert_eq!(ssd.ms_reading, 46771);
    assert_eq!(ssd.num_writes, 1185451);
    assert_eq!(ssd.num_writes_merged, 633019);
    assert_eq!(ssd.num_sectors_written, 86064386);
    assert_eq!(ssd.ms_writing, 3770341);
    assert_eq!(ssd.iops_in_progress, 3);
    assert_eq!(ssd.ms_doing_io, 1776084);
    assert_eq!(ssd.weighted_ms_doing_io, 3981375);
    assert_eq!(ssd.num_discards, 5);
    assert_eq!(ssd.num_discards_merged, 2);
    assert_eq!(ssd.num_sectors_discarded, 3338440);
    assert_eq!(ssd.ms_discarding, 1);
    assert_eq!(ssd.num_flushes, 98812);
    assert_eq!(ssd.ms_flushing, 164259);

    Ok(())
}

const TEST_DATA: &str = r#"
   7       0 loop0 905 0 11080 1654 213 0 1744 583 0 640 2483 0 0 0 0 45 244
   7       1 loop1 0 0 0 0 0 0 0 0 0 0 0 0 0 0 0 0 0
   7       2 loop2 0 0 0 0 0 0 0 0 0 0 0 0 0 0 0 0 0
   7       3 loop3 0 0 0 0 0 0 0 0 0 0 0 0 0 0 0 0 0
   7       4 loop4 0 0 0 0 0 0 0 0 0 0 0 0 0 0 0 0 0
   7       5 loop5 0 0 0 0 0 0 0 0 0 0 0 0 0 0 0 0 0
   7       6 loop6 0 0 0 0 0 0 0 0 0 0 0 0 0 0 0 0 0
   7       7 loop7 0 0 0 0 0 0 0 0 0 0 0 0 0 0 0 0 0
 259       0 nvme0n1 342448 55631 31849342 46771 1185451 633019 86064386 3770341 3 1776084 3981375 5 2 3338440 1 98812 164259
 259       1 nvme0n1p1 138 1090 6914 32 1 0 1 8 0 80 42 3 0 138648 1 0 0
 259       2 nvme0n1p2 221 16369 21218 54 1 0 1 8 0 100 64 2 0 3199792 0 0 0
 259       3 nvme0n1p3 341713 38172 31801185 46634 1185447 633019 86064376 3770322 0 1776016 3816957 0 0 0 0 0 0
 259       4 nvme0n1p4 279 0 15105 34 2 0 8 1 0 76 35 0 0 0 0 0 0
   8       0 sda 13921 11329 1363808 242148 60 15 432 6106 0 78608 248657 0 0 0 0 42 402
 252       0 dm-0 379820 0 31799070 83416 1788027 0 86064376 8040516 0 1785748 8123932 0 0 0 0 0 0
 252       1 dm-1 379776 0 31797234 83752 1771147 0 86064376 7787540 0 1786268 7871292 0 0 0 0 0 0
 252       2 dm-2 192 0 8352 36 2 0 8 4 0 36 40 0 0 0 0 0 0
 251       0 zram0 53 0 2352 0 6 0 48 0 0 16 0 0 0 0 0 0 0
 252       3 dm-3 873 0 10760 1840 213 0 1744 492 0 628 2332 0 0 0 0 0 0
 252       4 dm-4 25151 0 1361920 469280 75 0 432 17436 0 69356 486716 0 0 0 0 0 0
"#;
