use vstd::prelude::*;

verus! {

/// The unsigned integer stored little-endian in the four bytes of `data` that start at `pos`.
pub open spec fn word_at(data: Seq<u8>, pos: int) -> u32 {
    (data[pos] as int + data[pos + 1] as int * 256 + data[pos + 2] as int * 65536
        + data[pos + 3] as int * 16777216) as u32
}

/// The `n` consecutive little-endian words of `data` that start at `pos`.
pub open spec fn words_at(data: Seq<u8>, pos: int, n: nat) -> Seq<u32> {
    Seq::new(n, |i: int| word_at(data, pos + 4 * i))
}

/// Whether `data` holds at least `n` bytes from position `pos` on.
pub open spec fn has_bytes(data: Seq<u8>, pos: int, n: int) -> bool {
    0 <= pos && 0 <= n && pos + n <= data.len()
}

/// Reads the little-endian word at `pos`.
pub fn read_u32_le(data: &[u8], pos: usize) -> (w: u32)
    requires
        has_bytes(data@, pos as int, 4),
    ensures
        w == word_at(data@, pos as int),
{
    let b0 = data[pos] as u32;
    let b1 = data[pos + 1] as u32;
    let b2 = data[pos + 2] as u32;
    let b3 = data[pos + 3] as u32;
    b0 + b1 * 256 + b2 * 65536 + b3 * 16777216
}

/// Reads `n` consecutive little-endian words starting at `pos`.
pub fn read_words(data: &[u8], pos: usize, n: usize) -> (ws: Vec<u32>)
    requires
        has_bytes(data@, pos as int, 4 * n),
    ensures
        ws@ == words_at(data@, pos as int, n as nat),
{
    let len = data.len();
    let mut ws: Vec<u32> = Vec::with_capacity(n);
    let mut i: usize = 0;
    while i < n
        invariant
            i <= n,
            len == data@.len(),
            has_bytes(data@, pos as int, 4 * n),
            ws@ == words_at(data@, pos as int, i as nat),
        decreases n - i,
    {
        let w = read_u32_le(data, pos + 4 * i);
        ws.push(w);
        i += 1;
        assert(ws@ =~= words_at(data@, pos as int, i as nat));
    }
    ws
}

/// Copies the `n` bytes of `data` that start at `pos`.
pub fn read_bytes(data: &[u8], pos: usize, n: usize) -> (bs: Vec<u8>)
    requires
        has_bytes(data@, pos as int, n as int),
    ensures
        bs@ == data@.subrange(pos as int, pos + n),
{
    let len = data.len();
    let mut bs: Vec<u8> = Vec::with_capacity(n);
    let mut i: usize = 0;
    while i < n
        invariant
            i <= n,
            len == data@.len(),
            has_bytes(data@, pos as int, n as int),
            bs@ == data@.subrange(pos as int, pos + i),
        decreases n - i,
    {
        bs.push(data[pos + i]);
        i += 1;
        assert(bs@ =~= data@.subrange(pos as int, pos + i));
    }
    bs
}

} // verus!
