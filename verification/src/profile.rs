//! The stage profile file: a gzip stream whose content lists, for every stage
//! of a race, its texts, its summary values, its sparkline and its mesh.
//!
//! Layout of the decompressed content, all words little-endian:
//! a word `n` (the number of stages), then `n` stage records. A record holds
//! four texts (name, start town, finish town, date), each a length word
//! followed by that many bytes; five words (maximum distance, maximum
//! elevation, minimum elevation, and the stage position on the country map,
//! x then y); sixty sparkline words; a vertex count `v` and an index count
//! `i`; `v` vertex words; `i` index words. Bytes after the last record are
//! ignored. Real-valued fields are carried as the bit patterns of their
//! single-precision values.
use std::io::Read;
use vstd::prelude::*;
use crate::wire::{word_at, words_at, has_bytes, read_u32_le, read_words, read_bytes};

verus! {

/// Number of samples of the sparkline of a stage.
pub const SPARKLINE_LEN: usize = 60;

/// Number of words that describe one vertex of the stage mesh.
pub const VERTEX_WORDS: usize = 13;

/// Number of vertex words per profile point: the mesh has two vertices per point.
pub const POINT_WORDS: usize = 26;

/// One stage as stored in the profile file.
pub struct StageRecord {
    pub name: Vec<u8>,
    pub start: Vec<u8>,
    pub finish: Vec<u8>,
    pub date: Vec<u8>,
    pub max_dist: u32,
    pub max_ele: u32,
    pub min_ele: u32,
    pub global_lx: u32,
    pub global_ly: u32,
    pub sparkline: Vec<u32>,
    pub vertices: Vec<u32>,
    pub indices: Vec<u32>,
}

/// The mathematical content of a stage record.
pub struct StageView {
    pub name: Seq<u8>,
    pub start: Seq<u8>,
    pub finish: Seq<u8>,
    pub date: Seq<u8>,
    pub max_dist: u32,
    pub max_ele: u32,
    pub min_ele: u32,
    pub global_lx: u32,
    pub global_ly: u32,
    pub sparkline: Seq<u32>,
    pub vertices: Seq<u32>,
    pub indices: Seq<u32>,
}

impl View for StageRecord {
    type V = StageView;

    open spec fn view(&self) -> StageView {
        StageView {
            name: self.name@,
            start: self.start@,
            finish: self.finish@,
            date: self.date@,
            max_dist: self.max_dist,
            max_ele: self.max_ele,
            min_ele: self.min_ele,
            global_lx: self.global_lx,
            global_ly: self.global_ly,
            sparkline: self.sparkline@,
            vertices: self.vertices@,
            indices: self.indices@,
        }
    }
}

/// The views of a sequence of stage records.
pub open spec fn stage_views(s: Seq<StageRecord>) -> Seq<StageView> {
    s.map_values(|r: StageRecord| r@)
}

/// A length-prefixed text at `pos`: its bytes and the position just after it.
pub open spec fn text_at(data: Seq<u8>, pos: int) -> Option<(Seq<u8>, int)> {
    if has_bytes(data, pos, 4) && has_bytes(data, pos + 4, word_at(data, pos) as int) {
        let n = word_at(data, pos) as int;
        Some((data.subrange(pos + 4, pos + 4 + n), pos + 4 + n))
    } else {
        None
    }
}

/// Size in bytes of the fixed part of a record that follows its texts:
/// five summary words, the sparkline and the two counts.
pub open spec fn fixed_part_size() -> int {
    4 * (5 + SPARKLINE_LEN as int + 2)
}

/// The record whose fixed part starts at `pos`, given its four texts,
/// and the position just after it.
pub open spec fn record_tail_at(
    data: Seq<u8>,
    pos: int,
    name: Seq<u8>,
    start: Seq<u8>,
    finish: Seq<u8>,
    date: Seq<u8>,
) -> Option<(StageView, int)> {
    if has_bytes(data, pos, fixed_part_size()) {
        let counts = pos + 4 * (5 + SPARKLINE_LEN as int);
        let nv = word_at(data, counts) as int;
        let ni = word_at(data, counts + 4) as int;
        let body = counts + 8;
        if has_bytes(data, body, 4 * nv + 4 * ni) {
            Some((
                StageView {
                    name,
                    start,
                    finish,
                    date,
                    max_dist: word_at(data, pos),
                    max_ele: word_at(data, pos + 4),
                    min_ele: word_at(data, pos + 8),
                    global_lx: word_at(data, pos + 12),
                    global_ly: word_at(data, pos + 16),
                    sparkline: words_at(data, pos + 20, SPARKLINE_LEN as nat),
                    vertices: words_at(data, body, nv as nat),
                    indices: words_at(data, body + 4 * nv, ni as nat),
                },
                body + 4 * nv + 4 * ni,
            ))
        } else {
            None
        }
    } else {
        None
    }
}

/// The stage record at `pos` and the position just after it.
pub open spec fn record_at(data: Seq<u8>, pos: int) -> Option<(StageView, int)> {
    match text_at(data, pos) {
        None => None,
        Some((name, p1)) => match text_at(data, p1) {
            None => None,
            Some((start, p2)) => match text_at(data, p2) {
                None => None,
                Some((finish, p3)) => match text_at(data, p3) {
                    None => None,
                    Some((date, p4)) => record_tail_at(data, p4, name, start, finish, date),
                },
            },
        },
    }
}

/// The `k` consecutive records that start at `pos`, and the position after them.
pub open spec fn records_at(data: Seq<u8>, pos: int, k: nat) -> Option<(Seq<StageView>, int)>
    decreases k,
{
    if k == 0 {
        Some((Seq::empty(), pos))
    } else {
        match records_at(data, pos, (k - 1) as nat) {
            None => None,
            Some((rs, p)) => match record_at(data, p) {
                None => None,
                Some((r, q)) => Some((rs.push(r), q)),
            },
        }
    }
}

/// The stages that the decompressed profile content `data` describes, or
/// `None` where the content ends before the records that it announces.
pub open spec fn profile_stages(data: Seq<u8>) -> Option<Seq<StageView>> {
    if has_bytes(data, 0, 4) {
        match records_at(data, 4, word_at(data, 0) as nat) {
            Some((rs, _)) => Some(rs),
            None => None,
        }
    } else {
        None
    }
}

/// Reads the length-prefixed text at `pos`.
fn parse_text(data: &[u8], pos: usize) -> (res: Option<(Vec<u8>, usize)>)
    ensures
        match text_at(data@, pos as int) {
            None => res is None,
            Some((t, p)) => res matches Some((v, q)) && v@ == t && q == p,
        },
{
    let len = data.len();
    if pos > len || len - pos < 4 {
        return None;
    }
    let n = read_u32_le(data, pos) as usize;
    if len - (pos + 4) < n {
        return None;
    }
    let bytes = read_bytes(data, pos + 4, n);
    Some((bytes, pos + 4 + n))
}

/// Reads the stage record that starts at `pos`.
fn parse_record(data: &[u8], pos: usize) -> (res: Option<(StageRecord, usize)>)
    ensures
        match record_at(data@, pos as int) {
            None => res is None,
            Some((r, p)) => res matches Some((v, q)) && v@ == r && q == p,
        },
{
    let (name, p1) = match parse_text(data, pos) {
        Some(t) => t,
        None => return None,
    };
    let (start, p2) = match parse_text(data, p1) {
        Some(t) => t,
        None => return None,
    };
    let (finish, p3) = match parse_text(data, p2) {
        Some(t) => t,
        None => return None,
    };
    let (date, p4) = match parse_text(data, p3) {
        Some(t) => t,
        None => return None,
    };
    let len = data.len();
    if len - p4 < 4 * (5 + SPARKLINE_LEN + 2) {
        return None;
    }
    let max_dist = read_u32_le(data, p4);
    let max_ele = read_u32_le(data, p4 + 4);
    let min_ele = read_u32_le(data, p4 + 8);
    let global_lx = read_u32_le(data, p4 + 12);
    let global_ly = read_u32_le(data, p4 + 16);
    let sparkline = read_words(data, p4 + 20, SPARKLINE_LEN);
    let counts = p4 + 4 * (5 + SPARKLINE_LEN);
    let nv = read_u32_le(data, counts) as usize;
    let ni = read_u32_le(data, counts + 4) as usize;
    let body = counts + 8;
    let room = len - body;
    if room / 4 < nv || (room - 4 * nv) / 4 < ni {
        return None;
    }
    let vertices = read_words(data, body, nv);
    let indices = read_words(data, body + 4 * nv, ni);
    let rec = StageRecord {
        name,
        start,
        finish,
        date,
        max_dist,
        max_ele,
        min_ele,
        global_lx,
        global_ly,
        sparkline,
        vertices,
        indices,
    };
    Some((rec, body + 4 * nv + 4 * ni))
}

/// Decodes the decompressed content of a profile file into its stage records.
/// Returns `None` exactly where the content ends before the records that it announces.
pub fn parse_profile(data: &[u8]) -> (res: Option<Vec<StageRecord>>)
    ensures
        match profile_stages(data@) {
            None => res is None,
            Some(s) => res matches Some(v) && stage_views(v@) == s,
        },
{
    let len = data.len();
    if len < 4 {
        return None;
    }
    let count = read_u32_le(data, 0);
    let mut stages: Vec<StageRecord> = Vec::new();
    let mut pos: usize = 4;
    let mut k: u32 = 0;
    while k < count
        invariant
            k <= count,
            count == word_at(data@, 0),
            len == data@.len(),
            has_bytes(data@, 0, 4),
            records_at(data@, 4, k as nat) == Some((stage_views(stages@), pos as int)),
        decreases count - k,
    {
        match parse_record(data, pos) {
            None => {
                proof {
                    lemma_records_none_after(data@, 4, (k + 1) as nat, count as nat);
                }
                return None;
            },
            Some((rec, next)) => {
                let ghost old_views = stage_views(stages@);
                stages.push(rec);
                assert(stage_views(stages@) =~= old_views.push(rec@));
                pos = next;
                k += 1;
            },
        }
    }
    Some(stages)
}

/// Once the records stop parsing, every longer run of records fails too.
proof fn lemma_records_none_after(data: Seq<u8>, pos: int, k: nat, m: nat)
    requires
        k <= m,
        records_at(data, pos, k) is None,
    ensures
        records_at(data, pos, m) is None,
    decreases m - k,
{
    if k < m {
        lemma_records_none_after(data, pos, k, (m - 1) as nat);
    }
}

/// The decompressed content of a gzip stream: the content of its first member,
/// or `None` where the stream is not a valid gzip stream.
pub uninterp spec fn gzip_content(data: Seq<u8>) -> Option<Seq<u8>>;

/// Decompresses a gzip stream with `flate2::read::GzDecoder` and
/// `std::io::Read::read_to_end`. Trusted: the result is `gzip_content` of
/// the input; a decoding error gives `None`.
#[verifier::external_body]
fn gunzip(data: &[u8]) -> (res: Option<Vec<u8>>)
    ensures
        match gzip_content(data@) {
            None => res is None,
            Some(c) => res matches Some(v) && v@ == c,
        },
{
    let mut decoder = flate2::read::GzDecoder::new(data);
    let mut out = Vec::new();
    match decoder.read_to_end(&mut out) {
        Ok(_) => Some(out),
        Err(_) => None,
    }
}

/// Why a profile file could not be loaded.
#[derive(Debug, Clone, Copy, PartialEq, Eq)]
pub enum ProfileError {
    /// The file is not a valid gzip stream.
    Decompress,
    /// The decompressed content ends before the records that it announces.
    Truncated,
}

/// Loads the stages of a race from the bytes of its profile file.
pub fn load_profile(file: &[u8]) -> (res: Result<Vec<StageRecord>, ProfileError>)
    ensures
        match gzip_content(file@) {
            None => res == Err::<Vec<StageRecord>, ProfileError>(ProfileError::Decompress),
            Some(content) => match profile_stages(content) {
                None => res == Err::<Vec<StageRecord>, ProfileError>(ProfileError::Truncated),
                Some(s) => res matches Ok(v) && stage_views(v@) == s,
            },
        },
{
    let content = match gunzip(file) {
        Some(c) => c,
        None => return Err(ProfileError::Decompress),
    };
    match parse_profile(content.as_slice()) {
        Some(stages) => Ok(stages),
        None => Err(ProfileError::Truncated),
    }
}

/// Number of profile points of a mesh of `n` vertex words: one for every
/// started group of `POINT_WORDS` words.
pub open spec fn point_count(n: int) -> int {
    (n + 25) / 26
}

/// The profile points of a stage mesh: for every point, the first two words
/// (distance, elevation) of its upper vertex.
pub fn profile_points(vertices: &Vec<u32>) -> (pts: Vec<(u32, u32)>)
    requires
        vertices@.len() as int % 26 != 1,
    ensures
        pts@.len() == point_count(vertices@.len() as int),
        forall|k: int|
            0 <= k < pts@.len() ==> #[trigger] pts@[k] == (
                vertices@[26 * k],
                vertices@[26 * k + 1],
            ),
{
    let n = vertices.len();
    let count = (n / POINT_WORDS) + if n % POINT_WORDS == 0 { 0 } else { 1 };
    let mut pts: Vec<(u32, u32)> = Vec::new();
    let mut k: usize = 0;
    while k < count
        invariant
            n == vertices@.len(),
            n as int % 26 != 1,
            count == point_count(n as int),
            k <= count,
            pts@.len() == k,
            forall|m: int|
                0 <= m < pts@.len() ==> #[trigger] pts@[m] == (
                    vertices@[26 * m],
                    vertices@[26 * m + 1],
                ),
        decreases count - k,
    {
        assert(POINT_WORDS * k + 1 < n);
        pts.push((vertices[POINT_WORDS * k], vertices[POINT_WORDS * k + 1]));
        k += 1;
    }
    pts
}

/// The map position (the third and fourth words) of the upper vertex of
/// every profile point of a stage mesh.
pub fn point_map_positions(vertices: &Vec<u32>) -> (pos: Vec<(u32, u32)>)
    requires
        vertices@.len() as int % 26 == 0 || vertices@.len() as int % 26 >= 4,
    ensures
        pos@.len() == point_count(vertices@.len() as int),
        forall|k: int|
            0 <= k < pos@.len() ==> #[trigger] pos@[k] == (
                vertices@[26 * k + 2],
                vertices@[26 * k + 3],
            ),
{
    let n = vertices.len();
    let count = (n / POINT_WORDS) + if n % POINT_WORDS == 0 { 0 } else { 1 };
    let mut pos: Vec<(u32, u32)> = Vec::new();
    let mut k: usize = 0;
    while k < count
        invariant
            n == vertices@.len(),
            n as int % 26 == 0 || n as int % 26 >= 4,
            count == point_count(n as int),
            k <= count,
            pos@.len() == k,
            forall|m: int|
                0 <= m < pos@.len() ==> #[trigger] pos@[m] == (
                    vertices@[26 * m + 2],
                    vertices@[26 * m + 3],
                ),
        decreases count - k,
    {
        assert(POINT_WORDS * k + 3 < n);
        pos.push((vertices[POINT_WORDS * k + 2], vertices[POINT_WORDS * k + 3]));
        k += 1;
    }
    pos
}

/// The map position (the third and fourth words) of every complete vertex of
/// a stage mesh.
pub fn vertex_map_positions(vertices: &Vec<u32>) -> (pos: Vec<(u32, u32)>)
    ensures
        pos@.len() == vertices@.len() as int / 13,
        forall|k: int|
            0 <= k < pos@.len() ==> #[trigger] pos@[k] == (
                vertices@[13 * k + 2],
                vertices@[13 * k + 3],
            ),
{
    let n = vertices.len();
    let count = n / VERTEX_WORDS;
    let mut pos: Vec<(u32, u32)> = Vec::new();
    let mut k: usize = 0;
    while k < count
        invariant
            n == vertices@.len(),
            count == n as int / 13,
            k <= count,
            pos@.len() == k,
            forall|m: int|
                0 <= m < pos@.len() ==> #[trigger] pos@[m] == (
                    vertices@[13 * m + 2],
                    vertices@[13 * m + 3],
                ),
        decreases count - k,
    {
        pos.push((vertices[VERTEX_WORDS * k + 2], vertices[VERTEX_WORDS * k + 3]));
        k += 1;
    }
    pos
}

} // verus!
