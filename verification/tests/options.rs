use rocks::options::{
    AccessHint, BottommostLevelCompaction, CompactRangeOptions, CompactionOptions,
    CompressionType, DbPath, FlushOptions, IngestExternalFileOptions, ReadTier, WALRecoveryMode,
    WriteOptions,
};

#[test]
fn db_path_new_keeps_its_arguments() {
    let p = DbPath::new("/data/engine", 1 << 30);
    assert_eq!(p.path, "/data/engine");
    assert_eq!(p.target_size, 1 << 30);
}

#[test]
fn db_path_default_is_empty() {
    let p = DbPath::default();
    assert_eq!(p.path, "");
    assert_eq!(p.target_size, 0);
}

#[test]
fn write_options_default() {
    let w = WriteOptions::default();
    assert!(!w.sync);
    assert!(!w.disableWAL);
    assert!(!w.ignore_missing_column_families);
    assert!(!w.no_slowdown);
}

#[test]
fn flush_options_default() {
    let f = FlushOptions::default();
    assert!(f.wait);
}

#[test]
fn compaction_options_default() {
    let c = CompactionOptions::default();
    assert_eq!(c.compression, CompressionType::SnappyCompression);
    assert_eq!(c.output_file_size_limit, u64::MAX);
}

#[test]
fn compact_range_options_default() {
    let c = CompactRangeOptions::default();
    assert!(c.exclusive_manual_compaction);
    assert!(!c.change_level);
    assert_eq!(c.target_level, -1);
    assert_eq!(c.target_path_id, 0);
    assert_eq!(
        c.bottommost_level_compaction,
        BottommostLevelCompaction::IfHaveCompactionFilter
    );
}

#[test]
fn ingest_external_file_options_default() {
    let o = IngestExternalFileOptions::default();
    assert!(!o.move_files);
    assert!(o.snapshot_consistency);
    assert!(o.allow_global_seqno);
    assert!(o.allow_blocking_flush);
}

#[test]
fn enums_compare_by_variant() {
    assert_eq!(CompressionType::NoCompression, CompressionType::NoCompression);
    assert_ne!(CompressionType::ZSTD, CompressionType::ZSTDNotFinalCompression);
    assert_ne!(
        WALRecoveryMode::TolerateCorruptedTailRecords,
        WALRecoveryMode::AbsoluteConsistency
    );
    assert_eq!(ReadTier::ReadAllTier, ReadTier::ReadAllTier);
    assert_ne!(ReadTier::BlockCacheTier, ReadTier::PersistedTier);
    assert_ne!(AccessHint::NoHint, AccessHint::WillNeed);
    assert_eq!(AccessHint::Sequential, AccessHint::Sequential);
}
