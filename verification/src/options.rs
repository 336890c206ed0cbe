//! Option types for the storage engine: compression choices, recovery modes,
//! per-path targets, and the knobs of write, flush, compaction and ingestion
//! calls. Each `default` constructor carries a contract that pins every field.

use vstd::prelude::*;
use vstd::string::StringExecFns;

verus! {

/// Which compression method is used to compress a block.
#[derive(Clone, Copy, Debug, PartialEq, Eq, Structural)]
pub enum CompressionType {
    NoCompression,
    SnappyCompression,
    ZlibCompression,
    BZip2Compression,
    LZ4Compression,
    LZ4HCCompression,
    XpressCompression,
    ZSTD,
    /// Only for ZSTD libraries older than 0.8.0, or when a downgrade to an
    /// engine without ZSTD support must stay possible.
    ZSTDNotFinalCompression,
    /// Used to disable some compression options.
    DisableCompressionOption,
}

/// How the write-ahead log is replayed after a crash.
#[derive(Clone, Copy, Debug, PartialEq, Eq, Structural)]
pub enum WALRecoveryMode {
    /// Tolerate incomplete trailing records on all logs (legacy behavior).
    TolerateCorruptedTailRecords,
    /// Expect a clean shutdown; no corruption tolerated.
    AbsoluteConsistency,
    /// Stop replay at the first inconsistency (point-in-time consistency).
    PointInTimeRecovery,
    /// Ignore any corruption and salvage as much data as possible.
    SkipAnyCorruptedRecords,
}

/// A database path together with the target size of the files kept under it.
pub struct DbPath {
    pub path: String,
    /// Target size of total files under the path, in bytes.
    pub target_size: u64,
}

impl DbPath {
    pub fn new(p: &str, t: u64) -> (d: DbPath)
        ensures
            d.path@ == p@,
            d.target_size == t,
    {
        DbPath { path: String::from_str(p), target_size: t }
    }
}

impl Default for DbPath {
    fn default() -> (d: Self)
        ensures
            d.path@.len() == 0,
            d.target_size == 0,
    {
        proof {
            reveal_strlit("");
        }
        DbPath::new("", 0)
    }
}

/// File access pattern advised once a compaction is started; it applies to
/// all input files of the compaction.
#[derive(Clone, Copy, Debug, PartialEq, Eq, Structural)]
pub enum AccessHint {
    NoHint,
    Normal,
    Sequential,
    WillNeed,
}

/// Which caches a read request may be served from.
#[derive(Clone, Copy, Debug, PartialEq, Eq, Structural)]
pub enum ReadTier {
    /// Data in memtable, block cache, OS cache or storage.
    ReadAllTier,
    /// Data in memtable or block cache only.
    BlockCacheTier,
    /// Persisted data only; skips the memtable when the WAL is disabled.
    PersistedTier,
}

/// Options that control write operations.
#[allow(non_snake_case)]
pub struct WriteOptions {
    /// If true, the write is flushed from the operating system buffer cache
    /// before the write is considered complete.
    pub sync: bool,
    /// If true, the write skips the write-ahead log and may be lost after a
    /// crash.
    pub disableWAL: bool,
    /// If true, a write to a dropped column family is ignored instead of
    /// failing the whole batch.
    pub ignore_missing_column_families: bool,
    /// If true and the write request would have to wait or sleep, it fails
    /// immediately with an incomplete status instead.
    pub no_slowdown: bool,
}

impl Default for WriteOptions {
    fn default() -> (w: Self)
        ensures
            !w.sync,
            !w.disableWAL,
            !w.ignore_missing_column_families,
            !w.no_slowdown,
    {
        WriteOptions {
            sync: false,
            disableWAL: false,
            ignore_missing_column_families: false,
            no_slowdown: false,
        }
    }
}

/// Options that control flush operations.
pub struct FlushOptions {
    /// If true, the call waits until the flush is done.
    pub wait: bool,
}

impl Default for FlushOptions {
    fn default() -> (f: Self)
        ensures
            f.wait,
    {
        FlushOptions { wait: true }
    }
}

/// Options used when compacting a chosen set of files.
pub struct CompactionOptions {
    /// Compression for the compaction output.
    pub compression: CompressionType,
    /// Compaction creates files of at most this size; the maximum value means
    /// a single output file.
    pub output_file_size_limit: u64,
}

impl Default for CompactionOptions {
    fn default() -> (c: Self)
        ensures
            c.compression == CompressionType::SnappyCompression,
            c.output_file_size_limit == u64::MAX,
    {
        CompactionOptions {
            compression: CompressionType::SnappyCompression,
            output_file_size_limit: u64::MAX,
        }
    }
}

/// Whether the bottommost level takes part in a range compaction.
#[derive(Clone, Copy, Debug, PartialEq, Eq, Structural)]
pub enum BottommostLevelCompaction {
    /// Skip the bottommost level.
    Skip,
    /// Compact the bottommost level only if there is a compaction filter.
    IfHaveCompactionFilter,
    /// Always compact the bottommost level.
    Force,
}

/// Options used by a manual range compaction.
pub struct CompactRangeOptions {
    /// If true, no other compaction runs at the same time as this one.
    pub exclusive_manual_compaction: bool,
    /// If true, compacted files move to the minimum level that can hold the
    /// data, or to `target_level` when that is non-negative.
    pub change_level: bool,
    /// Target level for compacted files when `change_level` is set.
    pub target_level: i32,
    /// Compaction outputs are placed under the path with this index.
    pub target_path_id: u32,
    /// Whether the bottommost level is compacted as well.
    pub bottommost_level_compaction: BottommostLevelCompaction,
}

impl Default for CompactRangeOptions {
    fn default() -> (c: Self)
        ensures
            c.exclusive_manual_compaction,
            !c.change_level,
            c.target_level == -1,
            c.target_path_id == 0,
            c.bottommost_level_compaction == BottommostLevelCompaction::IfHaveCompactionFilter,
    {
        CompactRangeOptions {
            exclusive_manual_compaction: true,
            change_level: false,
            target_level: -1,
            target_path_id: 0,
            bottommost_level_compaction: BottommostLevelCompaction::IfHaveCompactionFilter,
        }
    }
}

/// Options used when ingesting an externally written file.
pub struct IngestExternalFileOptions {
    /// If true, move the files instead of copying them.
    pub move_files: bool,
    /// If false, ingested keys may appear in snapshots taken before the
    /// ingestion.
    pub snapshot_consistency: bool,
    /// If false, ingestion fails when the file's key range overlaps existing
    /// keys or tombstones.
    pub allow_global_seqno: bool,
    /// If false, ingestion fails when a memtable flush would be required.
    pub allow_blocking_flush: bool,
}

impl Default for IngestExternalFileOptions {
    fn default() -> (o: Self)
        ensures
            !o.move_files,
            o.snapshot_consistency,
            o.allow_global_seqno,
            o.allow_blocking_flush,
    {
        IngestExternalFileOptions {
            move_files: false,
            snapshot_consistency: true,
            allow_global_seqno: true,
            allow_blocking_flush: true,
        }
    }
}

} // verus!
