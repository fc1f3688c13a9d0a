//! The integer side of the glyph atlas: the cell that each glyph occupies in
//! the square atlas texture (glyphs are packed left to right in rows, a new
//! row starting when a glyph would cross the right edge, and packing stops at
//! the first glyph whose row would cross the bottom edge), and the copy of a
//! rasterised glyph into the RGBA texture.
use vstd::prelude::*;

verus! {

/// Blank pixels kept on each side of a glyph inside its cell.
pub const GLYPH_PADDING: u32 = 3;

/// Height of an atlas row: 1.4 times the 48-pixel rasterisation size,
/// truncated to 67 pixels, plus the padding above and below.
pub const ROW_HEIGHT: u32 = 73;

/// Blank pixels between two rows of the atlas.
pub const ROW_GAP: u32 = 4;

/// Side of the square atlas texture, in pixels.
pub const ATLAS_SIZE: u32 = 1024;

/// Width of the cell of a glyph whose bitmap is `bitmap_width` pixels wide:
/// the bitmap and the padding on both sides.
pub fn glyph_cell_width(bitmap_width: usize) -> (w: u32)
    requires
        bitmap_width + 2 * GLYPH_PADDING <= u32::MAX,
    ensures
        w == bitmap_width + 2 * GLYPH_PADDING,
{
    bitmap_width as u32 + 2 * GLYPH_PADDING
}

/// Where the cursor `(cx, cy)` moves before a glyph of width `w` is placed:
/// to the start of the next row when the glyph would cross the right edge.
pub open spec fn wrap(cx: int, cy: int, w: int, tex: int, rh: int) -> (int, int) {
    if cx + w > tex {
        (0, cy + rh + ROW_GAP)
    } else {
        (cx, cy)
    }
}

/// The cells of glyphs `i..` when the cursor stands at `(cx, cy)`.
pub open spec fn layout_from(widths: Seq<u32>, i: int, cx: int, cy: int, tex: int, rh: int) -> Seq<
    (int, int),
>
    decreases widths.len() - i,
{
    if i < 0 || i >= widths.len() {
        Seq::empty()
    } else {
        let (x, y) = wrap(cx, cy, widths[i] as int, tex, rh);
        if y + rh > tex {
            Seq::empty()
        } else {
            seq![(x, y)] + layout_from(widths, i + 1, x + widths[i], y, tex, rh)
        }
    }
}

/// The cells, top-left corners in texture pixels, of the glyphs of widths
/// `widths` packed in order into a `tex` by `tex` texture with rows of height
/// `rh`; glyphs after the first that does not fit get no cell.
pub open spec fn atlas_layout(widths: Seq<u32>, tex: int, rh: int) -> Seq<(int, int)> {
    layout_from(widths, 0, 0, 0, tex, rh)
}

/// The glyphs `i..` get at most one cell each.
proof fn lemma_layout_len(widths: Seq<u32>, i: int, cx: int, cy: int, tex: int, rh: int)
    requires
        0 <= i,
    ensures
        layout_from(widths, i, cx, cy, tex, rh).len() <= if i < widths.len() {
            widths.len() - i
        } else {
            0
        },
    decreases widths.len() - i,
{
    if i < widths.len() {
        let (x, y) = wrap(cx, cy, widths[i] as int, tex, rh);
        lemma_layout_len(widths, i + 1, x + widths[i], y, tex, rh);
    }
}

/// The cells of the glyphs of widths `widths` in a `tex_size` by `tex_size`
/// atlas with rows of height `row_height`.
pub fn shelf_layout(widths: &Vec<u32>, tex_size: u32, row_height: u32) -> (cells: Vec<(u32, u32)>)
    ensures
        cells@.len() == atlas_layout(widths@, tex_size as int, row_height as int).len(),
        cells@.len() <= widths@.len(),
        forall|k: int|
            0 <= k < cells@.len() ==> (#[trigger] cells@[k]).0 == atlas_layout(
                widths@,
                tex_size as int,
                row_height as int,
            )[k].0 && cells@[k].1 == atlas_layout(widths@, tex_size as int, row_height as int)[k].1,
{
    let ghost tex = tex_size as int;
    let ghost rh = row_height as int;
    proof {
        lemma_layout_len(widths@, 0, 0, 0, tex, rh);
    }
    let n = widths.len();
    let mut cells: Vec<(u32, u32)> = Vec::new();
    let mut cx: u64 = 0;
    let mut cy: u64 = 0;
    let mut i: usize = 0;
    let ghost mut placed: Seq<(int, int)> = Seq::empty();
    while i < n
        invariant_except_break
            i <= n,
            n == widths@.len(),
            tex == tex_size,
            rh == row_height,
            cx <= u32::MAX,
            cy <= tex,
            cells@.len() == placed.len(),
            forall|k: int|
                0 <= k < cells@.len() ==> (#[trigger] cells@[k]).0 == placed[k].0 && cells@[k].1
                    == placed[k].1,
            placed + layout_from(widths@, i as int, cx as int, cy as int, tex, rh)
                == atlas_layout(widths@, tex, rh),
        ensures
            tex == tex_size,
            rh == row_height,
            cells@.len() == atlas_layout(widths@, tex, rh).len(),
            forall|k: int|
                0 <= k < cells@.len() ==> (#[trigger] cells@[k]).0 == atlas_layout(widths@, tex, rh)[k].0
                    && cells@[k].1 == atlas_layout(widths@, tex, rh)[k].1,
        decreases n - i,
    {
        let w = widths[i] as u64;
        if cx + w > tex_size as u64 {
            cx = 0;
            cy = cy + row_height as u64 + ROW_GAP as u64;
        }
        if cy + row_height as u64 > tex_size as u64 {
            proof {
                assert(placed + Seq::<(int, int)>::empty() =~= placed);
            }
            break;
        }
        cells.push((cx as u32, cy as u32));
        proof {
            placed = placed.push((cx as int, cy as int));
        }
        cx = cx + w;
        i += 1;
    }
    cells
}

/// Whether the cells `cells` of glyphs `first..` (widths `widths`) pairwise
/// do not overlap: two cells either lie in one row, the earlier one ending
/// before the later one starts, or the later one lies in a row below.
pub open spec fn cells_disjoint(widths: Seq<u32>, first: int, cells: Seq<(int, int)>, rh: int) -> bool {
    forall|a: int, b: int|
        #![trigger cells[a], cells[b]]
        0 <= a < b < cells.len() ==> (cells[a].1 == cells[b].1 && cells[a].0 + widths[first + a]
            <= cells[b].0) || cells[b].1 >= cells[a].1 + rh + ROW_GAP
}

/// Whether every cell of `cells` (glyphs `first..`, widths `widths`) lies
/// inside the `tex` by `tex` texture.
pub open spec fn cells_inside(widths: Seq<u32>, first: int, cells: Seq<(int, int)>, tex: int, rh: int) -> bool {
    forall|a: int|
        #![trigger cells[a]]
        0 <= a < cells.len() ==> 0 <= cells[a].0 && cells[a].0 + widths[first + a] <= tex && 0
            <= cells[a].1 && cells[a].1 + rh <= tex
}

proof fn lemma_layout_from(widths: Seq<u32>, i: int, cx: int, cy: int, tex: int, rh: int)
    requires
        0 <= i,
        0 <= cx,
        0 <= cy,
        0 <= rh,
        forall|k: int| 0 <= k < widths.len() ==> #[trigger] widths[k] <= tex,
    ensures
        ({
            let l = layout_from(widths, i, cx, cy, tex, rh);
            &&& l.len() <= widths.len() - i || l.len() == 0
            &&& cells_disjoint(widths, i, l, rh)
            &&& cells_inside(widths, i, l, tex, rh)
            &&& forall|a: int|
                #![trigger l[a]]
                0 <= a < l.len() ==> (l[a].1 == cy && l[a].0 >= cx) || l[a].1 >= cy + rh + ROW_GAP
        }),
    decreases widths.len() - i,
{
    if i < widths.len() {
        let (x, y) = wrap(cx, cy, widths[i] as int, tex, rh);
        if y + rh <= tex {
            lemma_layout_from(widths, i + 1, x + widths[i], y, tex, rh);
            let rest = layout_from(widths, i + 1, x + widths[i], y, tex, rh);
            let l = layout_from(widths, i, cx, cy, tex, rh);
            assert(l == seq![(x, y)] + rest);
            assert forall|a: int, b: int|
                #![trigger l[a], l[b]]
                0 <= a < b < l.len() implies (l[a].1 == l[b].1 && l[a].0 + widths[i + a] <= l[b].0)
                || l[b].1 >= l[a].1 + rh + ROW_GAP by {
                if a == 0 {
                    assert(l[b] == rest[b - 1]);
                } else {
                    assert(l[a] == rest[a - 1]);
                    assert(l[b] == rest[b - 1]);
                    assert(i + a == (i + 1) + (a - 1));
                }
            }
            assert forall|a: int|
                #![trigger l[a]]
                0 <= a < l.len() implies 0 <= l[a].0 && l[a].0 + widths[i + a] <= tex && 0 <= l[a].1
                && l[a].1 + rh <= tex by {
                if a > 0 {
                    assert(l[a] == rest[a - 1]);
                    assert(i + a == (i + 1) + (a - 1));
                }
            }
            assert forall|a: int|
                #![trigger l[a]]
                0 <= a < l.len() implies (l[a].1 == cy && l[a].0 >= cx) || l[a].1 >= cy + rh
                + ROW_GAP by {
                if a > 0 {
                    assert(l[a] == rest[a - 1]);
                }
            }
        }
    }
}

/// Law of the atlas layout: where no glyph is wider than the texture, every
/// cell lies inside the texture and no two cells overlap.
pub proof fn atlas_cells_fit_and_do_not_overlap(widths: Seq<u32>, tex: int, rh: int)
    requires
        0 <= rh,
        forall|k: int| 0 <= k < widths.len() ==> #[trigger] widths[k] <= tex,
    ensures
        cells_disjoint(widths, 0, atlas_layout(widths, tex, rh), rh),
        cells_inside(widths, 0, atlas_layout(widths, tex, rh), tex, rh),
{
    lemma_layout_from(widths, 0, 0, 0, tex, rh);
}

/// Byte offset in the RGBA texture of channel `c` of pixel `(px, py)`.
pub open spec fn texel(tex: int, px: int, py: int, c: int) -> int {
    4 * (py * tex + px) + c
}

/// Whether pixel `(px, py)` of the texture receives a pixel of a glyph bitmap
/// of `gw` by `gh` pixels placed at `(bx, by)`.
pub open spec fn covered(tex: int, bx: int, by: int, gw: int, gh: int, px: int, py: int) -> bool {
    bx <= px < bx + gw && by <= py < by + gh && px < tex && py < tex
}

/// The byte of channel `c` of pixel `(px, py)` after the glyph copy: a white
/// pixel whose opacity is the bitmap's coverage where the glyph covers it,
/// the byte `before` otherwise.
pub open spec fn blitted(
    bitmap: Seq<u8>,
    tex: int,
    bx: int,
    by: int,
    gw: int,
    gh: int,
    px: int,
    py: int,
    c: int,
    before: u8,
) -> u8 {
    if covered(tex, bx, by, gw, gh, px, py) {
        if c == 3 {
            bitmap[(py - by) * gw + (px - bx)]
        } else {
            255
        }
    } else {
        before
    }
}

proof fn lemma_texel_injective(tex: int, px: int, py: int, c: int, qx: int, qy: int, d: int)
    requires
        0 <= px < tex,
        0 <= py < tex,
        0 <= qx < tex,
        0 <= qy < tex,
        0 <= c < 4,
        0 <= d < 4,
        (px, py, c) != (qx, qy, d),
    ensures
        texel(tex, px, py, c) != texel(tex, qx, qy, d),
{
    if py == qy {
    } else if py < qy {
        assert(py * tex + px < qy * tex + qx) by (nonlinear_arith)
            requires
                py < qy,
                0 <= px < tex,
                0 <= qx,
        ;
    } else {
        assert(qy * tex + qx < py * tex + px) by (nonlinear_arith)
            requires
                qy < py,
                0 <= qx < tex,
                0 <= px,
        ;
    }
}

proof fn lemma_texel_bound(tex: int, px: int, py: int, c: int)
    requires
        0 <= px < tex,
        0 <= py < tex,
        0 <= c < 4,
    ensures
        0 <= texel(tex, px, py, c) < 4 * tex * tex,
{
    assert(0 <= py * tex + px < tex * tex) by (nonlinear_arith)
        requires
            0 <= px < tex,
            0 <= py < tex,
    ;
    assert(4 * (py * tex + px) + c < 4 * tex * tex) by (nonlinear_arith)
        requires
            py * tex + px < tex * tex,
            0 <= c < 4,
    ;
}

/// Copies a rasterised glyph (`gh` rows of `gw` coverage bytes) into the RGBA
/// texture with its top-left pixel at `(bx, by)`: every covered texture pixel
/// becomes white with the glyph's coverage as opacity; pixels beyond the
/// right or bottom edge are dropped.
pub fn blit_glyph(rgba: &mut Vec<u8>, tex_size: u32, bx: u32, by: u32, bitmap: &Vec<u8>, gw: usize, gh: usize)
    requires
        old(rgba)@.len() == 4 * tex_size * tex_size,
        bitmap@.len() >= gw * gh,
    ensures
        final(rgba)@.len() == old(rgba)@.len(),
        forall|px: int, py: int, c: int|
            0 <= px < tex_size && 0 <= py < tex_size && 0 <= c < 4 ==> #[trigger] final(rgba)@[texel(
                tex_size as int,
                px,
                py,
                c,
            )] == blitted(
                bitmap@,
                tex_size as int,
                bx as int,
                by as int,
                gw as int,
                gh as int,
                px,
                py,
                c,
                old(rgba)@[texel(tex_size as int, px, py, c)],
            ),
{
    let ghost tex = tex_size as int;
    let ghost orig = rgba@;
    let tex64 = tex_size as u64;
    let blen = bitmap.len();
    let rlen = rgba.len();
    let mut row: usize = 0;
    while row < gh
        invariant
            row <= gh,
            tex == tex_size,
            tex64 == tex_size,
            rgba@.len() == orig.len(),
            rlen == orig.len(),
            blen == bitmap@.len(),
            orig.len() == 4 * tex * tex,
            bitmap@.len() >= gw * gh,
            forall|px: int, py: int, c: int|
                0 <= px < tex && 0 <= py < tex && 0 <= c < 4 ==> #[trigger] rgba@[texel(tex, px, py, c)]
                    == blitted(
                    bitmap@,
                    tex,
                    bx as int,
                    by as int,
                    gw as int,
                    row as int,
                    px,
                    py,
                    c,
                    orig[texel(tex, px, py, c)],
                ),
        decreases gh - row,
    {
        let mut col: usize = 0;
        while col < gw
            invariant
                row < gh,
                col <= gw,
                tex == tex_size,
                tex64 == tex_size,
                rgba@.len() == orig.len(),
                rlen == orig.len(),
                blen == bitmap@.len(),
                orig.len() == 4 * tex * tex,
                bitmap@.len() >= gw * gh,
                forall|px: int, py: int, c: int|
                    0 <= px < tex && 0 <= py < tex && 0 <= c < 4 ==> #[trigger] rgba@[texel(
                        tex,
                        px,
                        py,
                        c,
                    )] == if py == by + row && bx <= px < bx + col && px < tex {
                        if c == 3 {
                            bitmap@[(py - by) * gw + (px - bx)]
                        } else {
                            255u8
                        }
                    } else {
                        blitted(
                            bitmap@,
                            tex,
                            bx as int,
                            by as int,
                            gw as int,
                            row as int,
                            px,
                            py,
                            c,
                            orig[texel(tex, px, py, c)],
                        )
                    },
            decreases gw - col,
        {
            proof {
                assert(row * gw + col < gw * gh) by (nonlinear_arith)
                    requires
                        row < gh,
                        col < gw,
                ;
            }
            let alpha = bitmap[row * gw + col];
            let in_range = (col as u64) < tex64 && (row as u64) < tex64;
            let px: u64 = if in_range { bx as u64 + col as u64 } else { tex64 };
            let py: u64 = if in_range { by as u64 + row as u64 } else { tex64 };
            if px < tex64 && py < tex64 {
                let ghost gpx = px as int;
                let ghost gpy = py as int;
                proof {
                    lemma_texel_bound(tex, gpx, gpy, 3);
                    assert(py * tex64 <= u32::MAX * u32::MAX) by (nonlinear_arith)
                        requires
                            py < tex64,
                            tex64 <= u32::MAX,
                    ;
                }
                let base = ((py * tex64 + px) * 4) as usize;
                let ghost before = rgba@;
                rgba.set(base, 255);
                rgba.set(base + 1, 255);
                rgba.set(base + 2, 255);
                rgba.set(base + 3, alpha);
                proof {
                    assert forall|qx: int, qy: int, d: int|
                        0 <= qx < tex && 0 <= qy < tex && 0 <= d < 4 implies #[trigger] rgba@[texel(
                        tex,
                        qx,
                        qy,
                        d,
                    )] == if qy == by + row && bx <= qx < bx + col + 1 && qx < tex {
                        if d == 3 {
                            bitmap@[(qy - by) * gw + (qx - bx)]
                        } else {
                            255u8
                        }
                    } else {
                        blitted(
                            bitmap@,
                            tex,
                            bx as int,
                            by as int,
                            gw as int,
                            row as int,
                            qx,
                            qy,
                            d,
                            orig[texel(tex, qx, qy, d)],
                        )
                    } by {
                        if qx == gpx && qy == gpy {
                            assert(texel(tex, qx, qy, d) == base + d);
                        } else {
                            lemma_texel_injective(tex, qx, qy, d, gpx, gpy, 0);
                            lemma_texel_injective(tex, qx, qy, d, gpx, gpy, 1);
                            lemma_texel_injective(tex, qx, qy, d, gpx, gpy, 2);
                            lemma_texel_injective(tex, qx, qy, d, gpx, gpy, 3);
                            lemma_texel_bound(tex, qx, qy, d);
                            assert(rgba@[texel(tex, qx, qy, d)] == before[texel(tex, qx, qy, d)]);
                        }
                    }
                }
            }
            col += 1;
        }
        row += 1;
    }
}

/// The glyph drawn for character `c` when the atlas holds the characters
/// `known` (in slot order): its own slot, else the slot of the space, else none.
pub fn glyph_slot(known: &Vec<char>, c: char) -> (slot: Option<usize>)
    ensures
        match slot {
            Some(k) => k < known@.len() && (known@[k as int] == c || (known@[k as int] == ' '
                && !known@.contains(c))) && forall|j: int| 0 <= j < k ==> #[trigger] known@[j] != known@[k as int],
            None => !known@.contains(c) && !known@.contains(' '),
        },
{
    let mut space: Option<usize> = None;
    let mut i: usize = 0;
    while i < known.len()
        invariant
            i <= known@.len(),
            forall|j: int| 0 <= j < i ==> #[trigger] known@[j] != c,
            match space {
                Some(k) => k < i && known@[k as int] == ' ' && forall|j: int| 0 <= j < k ==> #[trigger] known@[j] != ' ',
                None => forall|j: int| 0 <= j < i ==> #[trigger] known@[j] != ' ',
            },
        decreases known@.len() - i,
    {
        if known[i] == c {
            return Some(i);
        }
        if space.is_none() && known[i] == ' ' {
            space = Some(i);
        }
        i += 1;
    }
    space
}

} // verus!
