//! Index computations behind the meshes that the application draws: the
//! ribbon under a profile, thick line segments, the smoothing window of the
//! track normals and the labelled heights of the elevation axis.
use vstd::prelude::*;

verus! {

/// Offsets, relative to `2 * i`, of the six indices of the two triangles that
/// join point `i` (vertices `2i`, `2i + 1`) to point `i + 1` of a ribbon.
pub open spec fn ribbon_offset(r: int) -> int {
    if r == 0 {
        0
    } else if r == 1 {
        2
    } else if r == 2 {
        1
    } else if r == 3 {
        1
    } else if r == 4 {
        2
    } else {
        3
    }
}

/// Number of indices of a ribbon through `count` points.
pub open spec fn ribbon_len(count: int) -> int {
    if count == 0 {
        0
    } else {
        6 * (count - 1)
    }
}

/// Triangle indices of a ribbon through `count` points, where point `i` owns
/// an upper vertex `2i` and a lower vertex `2i + 1`: two triangles per pair of
/// neighbouring points.
pub fn ribbon_indices(count: usize) -> (idx: Vec<u32>)
    requires
        count <= 0x8000_0000,
    ensures
        idx@.len() == ribbon_len(count as int),
        forall|i: int, r: int|
            0 <= i && 0 <= r < 6 && 6 * i + r < idx@.len() ==> #[trigger] idx@[6 * i + r] == 2
                * i + ribbon_offset(r),
        forall|k: int| 0 <= k < idx@.len() ==> #[trigger] idx@[k] < 2 * count,
{
    let mut idx: Vec<u32> = Vec::new();
    if count == 0 {
        return idx;
    }
    let mut i: usize = 0;
    while i < count - 1
        invariant
            1 <= count <= 0x8000_0000,
            i <= count - 1,
            idx@.len() == 6 * i,
            forall|j: int, r: int|
                0 <= j && 0 <= r < 6 && 6 * j + r < idx@.len() ==> #[trigger] idx@[6 * j + r] == 2
                    * j + ribbon_offset(r),
            forall|k: int| 0 <= k < idx@.len() ==> #[trigger] idx@[k] < 2 * count,
        decreases count - 1 - i,
    {
        let b = (2 * i) as u32;
        let ghost before = idx@;
        idx.push(b);
        idx.push(b + 2);
        idx.push(b + 1);
        idx.push(b + 1);
        idx.push(b + 2);
        idx.push(b + 3);
        proof {
            assert forall|j: int, r: int|
                0 <= j && 0 <= r < 6 && 6 * j + r < idx@.len() implies #[trigger] idx@[6 * j + r]
                == 2 * j + ribbon_offset(r) by {
                if j < i {
                    assert(6 * j + r < 6 * i);
                    assert(idx@[6 * j + r] == before[6 * j + r]);
                } else {
                    assert(j == i);
                }
            }
        }
        i += 1;
    }
    idx
}

/// Appends the indices of the two triangles of a thick line segment whose four
/// vertices start at `base`: start left, start right, end left, end right.
pub fn push_segment_indices(indices: &mut Vec<u32>, base: u32)
    requires
        base + 3 <= u32::MAX,
    ensures
        final(indices)@ == old(indices)@ + seq![base, (base + 1) as u32, (base + 2) as u32, (base + 1) as u32, (base + 3) as u32, (base + 2) as u32],
{
    indices.push(base);
    indices.push(base + 1);
    indices.push(base + 2);
    indices.push(base + 1);
    indices.push(base + 3);
    indices.push(base + 2);
    assert(indices@ =~= old(indices)@ + seq![base, (base + 1) as u32, (base + 2) as u32, (base + 1) as u32, (base + 3) as u32, (base + 2) as u32]);
}

/// The configured smoothing read as a signed 32-bit window half-width: values
/// above `i32::MAX` wrap around to negative numbers.
pub open spec fn signed_smoothing(m: u32) -> int {
    if m <= i32::MAX {
        m as int
    } else {
        m - 0x1_0000_0000
    }
}

/// The half-width of the window over which track normals are averaged:
/// the configured smoothing, taken as a signed 32-bit number, in metallic
/// mode; one neighbour on each side otherwise.
pub fn smoothing_radius(use_metallic: bool, metallic_smoothing: u32) -> (r: i32)
    ensures
        r == if use_metallic { signed_smoothing(metallic_smoothing) } else { 1 },
{
    if use_metallic {
        let r = metallic_smoothing as i32;
        assert(metallic_smoothing <= 0x7fff_ffff ==> r == metallic_smoothing) by (bit_vector)
            requires
                r == metallic_smoothing as i32,
        ;
        assert(metallic_smoothing > 0x7fff_ffff ==> r == metallic_smoothing - 0x1_0000_0000)
            by (bit_vector)
            requires
                r == metallic_smoothing as i32,
        ;
        r
    } else {
        1
    }
}

/// `v` restricted to the range `[lo, hi]`.
pub open spec fn clamp(v: int, lo: int, hi: int) -> int {
    if v < lo {
        lo
    } else if v > hi {
        hi
    } else {
        v
    }
}

/// Number of points in a window of half-width `radius`: none where the
/// half-width is negative.
pub open spec fn window_len(radius: int) -> int {
    if radius < 0 {
        0
    } else {
        2 * radius + 1
    }
}

/// The indices of the normals that are averaged for point `i` of `n`: the
/// points from `i - radius` to `i + radius`, each clamped to the track; no
/// point at all where `radius` is negative.
pub fn smoothing_window(i: usize, n: usize, radius: i32) -> (w: Vec<usize>)
    requires
        i < n,
        n <= i32::MAX,
        radius != i32::MIN,
        i + radius <= i32::MAX,
    ensures
        w@.len() == window_len(radius as int),
        forall|k: int|
            0 <= k < w@.len() ==> #[trigger] w@[k] == clamp(i - radius + k, 0, n - 1),
{
    let mut w: Vec<usize> = Vec::new();
    let ii = i as i64;
    let rr = radius as i64;
    let last = (n - 1) as i64;
    let mut j: i64 = -rr;
    while j <= rr
        invariant
            i < n <= i32::MAX,
            ii == i,
            rr == radius,
            last == n - 1,
            i32::MIN < radius,
            -rr <= j,
            rr >= 0 ==> j <= rr + 1,
            rr < 0 ==> j == -rr,
            w@.len() == j + rr,
            forall|k: int|
                0 <= k < w@.len() ==> #[trigger] w@[k] == clamp(i - radius + k, 0, n - 1),
        decreases rr + 1 - j,
    {
        let v = ii + j;
        let c = if v < 0 {
            0
        } else if v > last {
            last
        } else {
            v
        };
        w.push(c as usize);
        j += 1;
    }
    w
}

/// Whether height `h` is labelled on an elevation axis whose candidate
/// heights run from `start` to `last` by `step`: it is one of them, it is not
/// zero and it is not below `min_h`.
pub open spec fn is_tick(h: int, start: int, last: int, step: int, min_h: int) -> bool {
    &&& start <= h <= last
    &&& (h - start) % step == 0
    &&& h != 0
    &&& h >= min_h
}

/// The first candidate height of the elevation axis: `start`, raised to zero.
pub open spec fn tick_origin(start: i32) -> int {
    if start < 0 {
        0
    } else {
        start as int
    }
}

/// The labelled heights of the elevation axis, in increasing order: the
/// multiples-of-`step` candidates from `max(start, 0)` to `last`, without zero
/// and without those below `min_h`.
pub fn axis_ticks(start: i32, last: i32, step: i32, min_h: i32) -> (ticks: Vec<i32>)
    requires
        step > 0,
    ensures
        forall|k: int| 0 <= k < ticks@.len() - 1 ==> #[trigger] ticks@[k] < ticks@[k + 1],
        forall|h: int|
            #![trigger is_tick(h, tick_origin(start), last as int, step as int, min_h as int)]
            ticks@.contains(h as i32) && i32::MIN <= h <= i32::MAX <==> is_tick(
                h,
                tick_origin(start),
                last as int,
                step as int,
                min_h as int,
            ),
{
    let first: i32 = if start < 0 { 0 } else { start };
    let mut ticks: Vec<i32> = Vec::new();
    if first > last {
        proof {
            assert forall|h: int| #![auto] !is_tick(h, first as int, last as int, step as int, min_h as int) by {}
        }
        return ticks;
    }
    let mut h: i32 = first;
    proof {
        vstd::arithmetic::div_mod::lemma_small_mod(0, step as nat);
    }
    loop
        invariant_except_break
            first <= h <= last,
            (h - first) % (step as int) == 0,
            forall|k: int| 0 <= k < ticks@.len() ==> #[trigger] ticks@[k] < h,
        invariant
            step > 0,
            0 <= first,
            first == if start < 0 { 0 } else { start },
            forall|k: int| 0 <= k < ticks@.len() - 1 ==> #[trigger] ticks@[k] < ticks@[k + 1],
            forall|x: int|
                #![trigger is_tick(x, first as int, last as int, step as int, min_h as int)]
                x < h ==> (ticks@.contains(x as i32) && i32::MIN <= x <= i32::MAX <==> is_tick(
                    x,
                    first as int,
                    last as int,
                    step as int,
                    min_h as int,
                )),
        ensures
            forall|x: int|
                #![trigger is_tick(x, first as int, last as int, step as int, min_h as int)]
                ticks@.contains(x as i32) && i32::MIN <= x <= i32::MAX <==> is_tick(
                    x,
                    first as int,
                    last as int,
                    step as int,
                    min_h as int,
                ),
        decreases last - h,
    {
        let ghost before = ticks@;
        if h != 0 && h >= min_h {
            ticks.push(h);
        }
        proof {
            assert forall|x: int|
                #![trigger is_tick(x, first as int, last as int, step as int, min_h as int)]
                x <= h implies (ticks@.contains(x as i32) && i32::MIN <= x <= i32::MAX <==> is_tick(
                x,
                first as int,
                last as int,
                step as int,
                min_h as int,
            )) by {
                if x < h {
                    if ticks@.contains(x as i32) && i32::MIN <= x <= i32::MAX {
                        let k = choose|k: int| 0 <= k < ticks@.len() && ticks@[k] == x as i32;
                        if k < before.len() {
                            assert(before[k] == x as i32);
                            assert(before.contains(x as i32));
                        }
                    }
                    if before.contains(x as i32) {
                        let k = choose|k: int| 0 <= k < before.len() && before[k] == x as i32;
                        assert(ticks@[k] == x as i32);
                    }
                } else {
                    if h != 0 && h >= min_h {
                        assert(ticks@[ticks@.len() - 1] == h);
                    } else {
                        if ticks@.contains(x as i32) {
                            let k = choose|k: int| 0 <= k < ticks@.len() && ticks@[k] == x as i32;
                            assert(before[k] < h);
                        }
                    }
                }
            }
        }
        if last - h < step {
            proof {
                assert forall|x: int|
                    #![trigger is_tick(x, first as int, last as int, step as int, min_h as int)]
                    x > h implies !is_tick(x, first as int, last as int, step as int, min_h as int)
                    && !(ticks@.contains(x as i32) && x <= i32::MAX) by {
                    if is_tick(x, first as int, last as int, step as int, min_h as int) {
                        assert((x - first) % (step as int) == 0);
                        assert((h - first) % (step as int) == 0);
                        lemma_step_gap(x - first, h - first, step as int);
                    }
                    if ticks@.contains(x as i32) && x <= i32::MAX {
                        let k = choose|k: int| 0 <= k < ticks@.len() && ticks@[k] == x as i32;
                        if k < before.len() {
                            assert(before[k] < h);
                        } else {
                            assert(ticks@[k] == h);
                        }
                    }
                }
            }
            break;
        }
        let ghost old_h = h;
        h = h + step;
        proof {
            assert forall|x: int|
                #![trigger is_tick(x, first as int, last as int, step as int, min_h as int)]
                old_h < x < h implies !is_tick(x, first as int, last as int, step as int, min_h as int)
                && !ticks@.contains(x as i32) by {
                if is_tick(x, first as int, last as int, step as int, min_h as int) {
                    lemma_step_gap(x - first, old_h - first, step as int);
                }
                if ticks@.contains(x as i32) {
                    let k = choose|k: int| 0 <= k < ticks@.len() && ticks@[k] == x as i32;
                }
            }
            lemma_mod_add_step(old_h - first, step as int);
        }
    }
    ticks
}

/// Two multiples of `step` that differ are at least `step` apart.
proof fn lemma_step_gap(a: int, b: int, step: int)
    requires
        step > 0,
        a % step == 0,
        b % step == 0,
        b < a,
    ensures
        a - b >= step,
{
    vstd::arithmetic::div_mod::lemma_fundamental_div_mod(a, step);
    vstd::arithmetic::div_mod::lemma_fundamental_div_mod(b, step);
    let qa = a / step;
    let qb = b / step;
    assert(a == step * qa);
    assert(b == step * qb);
    assert(qa > qb) by (nonlinear_arith)
        requires
            a == step * qa,
            b == step * qb,
            b < a,
            step > 0,
    ;
    assert(a - b >= step) by (nonlinear_arith)
        requires
            a == step * qa,
            b == step * qb,
            qa > qb,
            step > 0,
    ;
}

/// Adding `step` to a multiple of `step` gives a multiple of `step`.
proof fn lemma_mod_add_step(a: int, step: int)
    requires
        step > 0,
        a % step == 0,
    ensures
        (a + step) % step == 0,
{
    vstd::arithmetic::div_mod::lemma_mod_add_multiples_vanish(a, step);
}

} // verus!
