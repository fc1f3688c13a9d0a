//! The country map file: the filled country shape and the stage lines drawn
//! over it, as raw vertex and index buffers.
//!
//! Layout, all words little-endian: four words (fill vertex count `fv`, fill
//! index count `fi`, line vertex count `lv`, line index count `li`), then
//! `8 * fv` bytes of fill vertices, `4 * fi` bytes of fill indices,
//! `32 * lv` bytes of line vertices and `4 * li` bytes of line indices.
//! Bytes after the line indices are ignored. Each byte size is computed as a
//! 32-bit unsigned number and must not overflow it.
use vstd::prelude::*;
use crate::wire::{word_at, has_bytes, read_u32_le, read_bytes};

verus! {

/// Bytes per vertex of the filled country shape.
pub const FILL_VERTEX_BYTES: u32 = 8;

/// Bytes per vertex of the stage lines.
pub const LINE_VERTEX_BYTES: u32 = 32;

/// Bytes per index.
pub const INDEX_BYTES: u32 = 4;

/// The four buffers of the country map and the two index counts.
pub struct GlobalMesh {
    pub fill_vertices: Vec<u8>,
    pub fill_indices: Vec<u8>,
    pub line_vertices: Vec<u8>,
    pub line_indices: Vec<u8>,
    pub fill_index_count: u32,
    pub line_index_count: u32,
}

/// The mathematical content of a country map.
pub struct GlobalMeshView {
    pub fill_vertices: Seq<u8>,
    pub fill_indices: Seq<u8>,
    pub line_vertices: Seq<u8>,
    pub line_indices: Seq<u8>,
    pub fill_index_count: u32,
    pub line_index_count: u32,
}

impl View for GlobalMesh {
    type V = GlobalMeshView;

    open spec fn view(&self) -> GlobalMeshView {
        GlobalMeshView {
            fill_vertices: self.fill_vertices@,
            fill_indices: self.fill_indices@,
            line_vertices: self.line_vertices@,
            line_indices: self.line_indices@,
            fill_index_count: self.fill_index_count,
            line_index_count: self.line_index_count,
        }
    }
}

/// The country map that `data` describes, or `None` where a byte size
/// overflows 32 bits or the data ends before the buffers that it announces.
pub open spec fn global_mesh(data: Seq<u8>) -> Option<GlobalMeshView> {
    if has_bytes(data, 0, 16) {
        let fv = FILL_VERTEX_BYTES * word_at(data, 0);
        let fi = INDEX_BYTES * word_at(data, 4);
        let lv = LINE_VERTEX_BYTES * word_at(data, 8);
        let li = INDEX_BYTES * word_at(data, 12);
        if fv <= u32::MAX && fi <= u32::MAX && lv <= u32::MAX && li <= u32::MAX
            && has_bytes(data, 16, fv + fi + lv + li) {
            Some(
                GlobalMeshView {
                    fill_vertices: data.subrange(16, 16 + fv),
                    fill_indices: data.subrange(16 + fv, 16 + fv + fi),
                    line_vertices: data.subrange(16 + fv + fi, 16 + fv + fi + lv),
                    line_indices: data.subrange(16 + fv + fi + lv, 16 + fv + fi + lv + li),
                    fill_index_count: word_at(data, 4),
                    line_index_count: word_at(data, 12),
                },
            )
        } else {
            None
        }
    } else {
        None
    }
}

/// The byte size of `count` items of `unit` bytes, where it fits in 32 bits.
fn region_size(count: u32, unit: u32) -> (size: Option<u32>)
    requires
        unit > 0,
    ensures
        match size {
            Some(s) => s == unit * count && unit * count <= u32::MAX,
            None => unit * count > u32::MAX,
        },
{
    if count > u32::MAX / unit {
        proof {
            assert(unit * count > u32::MAX) by (nonlinear_arith)
                requires
                    count > u32::MAX / unit,
                    unit > 0,
            ;
        }
        None
    } else {
        proof {
            assert(unit * count <= u32::MAX) by (nonlinear_arith)
                requires
                    count <= u32::MAX / unit,
                    unit > 0,
            ;
        }
        Some(unit * count)
    }
}

/// Decodes the bytes of a country map file.
pub fn parse_global(data: &[u8]) -> (res: Option<GlobalMesh>)
    ensures
        match global_mesh(data@) {
            None => res is None,
            Some(m) => res matches Some(g) && g@ == m,
        },
{
    let len = data.len();
    if len < 16 {
        return None;
    }
    let fill_vertex_count = read_u32_le(data, 0);
    let fill_index_count = read_u32_le(data, 4);
    let line_vertex_count = read_u32_le(data, 8);
    let line_index_count = read_u32_le(data, 12);
    let fv = match region_size(fill_vertex_count, FILL_VERTEX_BYTES) {
        Some(s) => s as usize,
        None => return None,
    };
    let fi = match region_size(fill_index_count, INDEX_BYTES) {
        Some(s) => s as usize,
        None => return None,
    };
    let lv = match region_size(line_vertex_count, LINE_VERTEX_BYTES) {
        Some(s) => s as usize,
        None => return None,
    };
    let li = match region_size(line_index_count, INDEX_BYTES) {
        Some(s) => s as usize,
        None => return None,
    };
    let room = len - 16;
    if room < fv || room - fv < fi || room - fv - fi < lv || room - fv - fi - lv < li {
        return None;
    }
    let fill_vertices = read_bytes(data, 16, fv);
    let fill_indices = read_bytes(data, 16 + fv, fi);
    let line_vertices = read_bytes(data, 16 + fv + fi, lv);
    let line_indices = read_bytes(data, 16 + fv + fi + lv, li);
    Some(
        GlobalMesh {
            fill_vertices,
            fill_indices,
            line_vertices,
            line_indices,
            fill_index_count,
            line_index_count,
        },
    )
}

} // verus!
