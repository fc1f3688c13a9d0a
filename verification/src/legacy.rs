//! The earlier, uncompressed profile layout, still read by the tool that
//! finds the steepest stage of a race.
//!
//! Layout, all words little-endian: a word `n` (the number of stages), then
//! `n` records. A record holds four length-prefixed texts (name, start town,
//! finish town, date); three words (maximum distance, maximum elevation,
//! minimum elevation); sixty sparkline words; a vertex count `v` and `v`
//! vertex words; an index count `i` and `i` index words; a point count `p`
//! and `p` points of two words each. Real-valued fields are carried as the
//! bit patterns of their single-precision values.
use vstd::prelude::*;
use crate::wire::{word_at, has_bytes, read_u32_le};
use crate::profile::{text_at, SPARKLINE_LEN};

verus! {

/// What the steepest-stage tool keeps of a stage.
#[derive(Debug)]
pub struct LegacyStage {
    pub name: Vec<u8>,
    pub max_dist: u32,
    pub max_ele: u32,
}

/// The mathematical content of a kept stage.
pub struct LegacyStageView {
    pub name: Seq<u8>,
    pub max_dist: u32,
    pub max_ele: u32,
}

impl View for LegacyStage {
    type V = LegacyStageView;

    open spec fn view(&self) -> LegacyStageView {
        LegacyStageView { name: self.name@, max_dist: self.max_dist, max_ele: self.max_ele }
    }
}

/// A counted block at `pos` (a count word, then `unit` bytes per item):
/// the position just after it.
pub open spec fn block_end(data: Seq<u8>, pos: int, unit: int) -> Option<int> {
    if has_bytes(data, pos, 4) && has_bytes(data, pos + 4, unit * word_at(data, pos)) {
        Some(pos + 4 + unit * word_at(data, pos))
    } else {
        None
    }
}

/// The record that follows the four texts at `pos` (its name being `name`)
/// and the position just after it.
pub open spec fn legacy_tail_at(data: Seq<u8>, pos: int, name: Seq<u8>) -> Option<(LegacyStageView, int)> {
    if has_bytes(data, pos, 4 * (3 + SPARKLINE_LEN as int)) {
        let v = pos + 4 * (3 + SPARKLINE_LEN as int);
        match block_end(data, v, 4) {
            None => None,
            Some(i) => match block_end(data, i, 4) {
                None => None,
                Some(p) => match block_end(data, p, 8) {
                    None => None,
                    Some(end) => Some(
                        (
                            LegacyStageView {
                                name,
                                max_dist: word_at(data, pos),
                                max_ele: word_at(data, pos + 4),
                            },
                            end,
                        ),
                    ),
                },
            },
        }
    } else {
        None
    }
}

/// The record at `pos` and the position just after it.
pub open spec fn legacy_record_at(data: Seq<u8>, pos: int) -> Option<(LegacyStageView, int)> {
    match text_at(data, pos) {
        None => None,
        Some((name, p1)) => match text_at(data, p1) {
            None => None,
            Some((_, p2)) => match text_at(data, p2) {
                None => None,
                Some((_, p3)) => match text_at(data, p3) {
                    None => None,
                    Some((_, p4)) => legacy_tail_at(data, p4, name),
                },
            },
        },
    }
}

/// The `k` consecutive records that start at `pos`, and the position after them.
pub open spec fn legacy_records_at(data: Seq<u8>, pos: int, k: nat) -> Option<(Seq<LegacyStageView>, int)>
    decreases k,
{
    if k == 0 {
        Some((Seq::empty(), pos))
    } else {
        match legacy_records_at(data, pos, (k - 1) as nat) {
            None => None,
            Some((rs, p)) => match legacy_record_at(data, p) {
                None => None,
                Some((r, q)) => Some((rs.push(r), q)),
            },
        }
    }
}

/// The stages that `data` describes in the earlier layout, or `None` where it
/// ends before the records that it announces.
pub open spec fn legacy_stages(data: Seq<u8>) -> Option<Seq<LegacyStageView>> {
    if has_bytes(data, 0, 4) {
        match legacy_records_at(data, 4, word_at(data, 0) as nat) {
            Some((rs, _)) => Some(rs),
            None => None,
        }
    } else {
        None
    }
}

/// The views of a sequence of kept stages.
pub open spec fn legacy_views(s: Seq<LegacyStage>) -> Seq<LegacyStageView> {
    s.map_values(|r: LegacyStage| r@)
}

fn skip_text(data: &[u8], pos: usize) -> (res: Option<usize>)
    ensures
        match text_at(data@, pos as int) {
            None => res is None,
            Some((_, p)) => res == Some(p as usize),
        },
{
    let len = data.len();
    if pos > len || len - pos < 4 {
        return None;
    }
    let n = read_u32_le(data, pos) as usize;
    if len - (pos + 4) < n {
        return None;
    }
    Some(pos + 4 + n)
}

fn skip_block(data: &[u8], pos: usize, unit: usize) -> (res: Option<usize>)
    requires
        unit == 4 || unit == 8,
    ensures
        match block_end(data@, pos as int, unit as int) {
            None => res is None,
            Some(p) => res == Some(p as usize),
        },
{
    let len = data.len();
    if pos > len || len - pos < 4 {
        return None;
    }
    let n = read_u32_le(data, pos) as usize;
    if (len - (pos + 4)) / unit < n {
        return None;
    }
    Some(pos + 4 + unit * n)
}

fn parse_legacy_record(data: &[u8], pos: usize) -> (res: Option<(LegacyStage, usize)>)
    ensures
        match legacy_record_at(data@, pos as int) {
            None => res is None,
            Some((r, p)) => res matches Some((v, q)) && v@ == r && q == p,
        },
{
    let len = data.len();
    if pos > len || len - pos < 4 {
        return None;
    }
    let n = read_u32_le(data, pos) as usize;
    if len - (pos + 4) < n {
        return None;
    }
    let name = crate::wire::read_bytes(data, pos + 4, n);
    let p1 = pos + 4 + n;
    let p2 = match skip_text(data, p1) {
        Some(p) => p,
        None => return None,
    };
    let p3 = match skip_text(data, p2) {
        Some(p) => p,
        None => return None,
    };
    let p4 = match skip_text(data, p3) {
        Some(p) => p,
        None => return None,
    };
    if len - p4 < 4 * (3 + SPARKLINE_LEN) {
        return None;
    }
    let max_dist = read_u32_le(data, p4);
    let max_ele = read_u32_le(data, p4 + 4);
    let v = p4 + 4 * (3 + SPARKLINE_LEN);
    let i = match skip_block(data, v, 4) {
        Some(p) => p,
        None => return None,
    };
    let p = match skip_block(data, i, 4) {
        Some(p) => p,
        None => return None,
    };
    let end = match skip_block(data, p, 8) {
        Some(p) => p,
        None => return None,
    };
    Some((LegacyStage { name, max_dist, max_ele }, end))
}

proof fn lemma_legacy_none_after(data: Seq<u8>, pos: int, k: nat, m: nat)
    requires
        k <= m,
        legacy_records_at(data, pos, k) is None,
    ensures
        legacy_records_at(data, pos, m) is None,
    decreases m - k,
{
    if k < m {
        lemma_legacy_none_after(data, pos, k, (m - 1) as nat);
    }
}

/// Decodes a profile in the earlier layout, keeping what the steepest-stage
/// tool needs. Returns `None` exactly where the data ends before the records
/// that it announces.
pub fn parse_legacy_profile(data: &[u8]) -> (res: Option<Vec<LegacyStage>>)
    ensures
        match legacy_stages(data@) {
            None => res is None,
            Some(s) => res matches Some(v) && legacy_views(v@) == s,
        },
{
    let len = data.len();
    if len < 4 {
        return None;
    }
    let count = read_u32_le(data, 0);
    let mut stages: Vec<LegacyStage> = Vec::new();
    let mut pos: usize = 4;
    let mut k: u32 = 0;
    while k < count
        invariant
            k <= count,
            count == word_at(data@, 0),
            len == data@.len(),
            has_bytes(data@, 0, 4),
            legacy_records_at(data@, 4, k as nat) == Some((legacy_views(stages@), pos as int)),
        decreases count - k,
    {
        match parse_legacy_record(data, pos) {
            None => {
                proof {
                    lemma_legacy_none_after(data@, 4, (k + 1) as nat, count as nat);
                }
                return None;
            },
            Some((rec, next)) => {
                let ghost old_views = legacy_views(stages@);
                stages.push(rec);
                assert(legacy_views(stages@) =~= old_views.push(rec@));
                pos = next;
                k += 1;
            },
        }
    }
    Some(stages)
}

} // verus!
