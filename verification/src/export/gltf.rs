//! Binary glTF 2.0 (GLB) framing.
//!
//! ```text
//! [12 bytes] header: magic "glTF", version 2, total length
//! [JSON chunk]: chunk length + chunk type "JSON" + JSON text padded with spaces
//! [BIN  chunk]: chunk length + chunk type "BIN\0" + binary data padded with zeros
//! ```
//!
//! The binary buffer holds the triangle indices (`u32`), then the vertex
//! positions and the vertex normals (three `f32` each), all little-endian.
//! Coordinates come in as the bit patterns of their `f32` values; the JSON
//! text, which holds the coordinate bounds, comes in ready-made.

use vstd::prelude::*;

verus! {

/// `b"glTF"` read as a little-endian `u32`.
pub const GLB_MAGIC: u32 = 0x4654_6C67;
pub const GLB_VERSION: u32 = 2;
/// `b"JSON"` read as a little-endian `u32`.
pub const CHUNK_JSON: u32 = 0x4E4F_534A;
/// `b"BIN\0"` read as a little-endian `u32`.
pub const CHUNK_BIN: u32 = 0x004E_4942;

/// `n` rounded up to the nearest multiple of 4.
pub open spec fn spec_pad4(n: int) -> int {
    n + (4 - n % 4) % 4
}

/// Rounds `n` up to the nearest multiple of 4.
pub fn pad4(n: usize) -> (r: usize)
    requires
        n + 3 <= usize::MAX,
    ensures
        r == spec_pad4(n as int),
        r % 4 == 0,
        n <= r < n + 4,
{
    let m: usize = n + 3;
    let r = m & !3usize;
    assert(r == m - m % 4) by (bit_vector)
        requires
            r == m & !3usize,
    ;
    r
}

/// The four little-endian bytes of `v`.
#[verifier::opaque]
pub open spec fn le32(v: u32) -> Seq<u8> {
    seq![
        (v % 256) as u8,
        (v / 256 % 256) as u8,
        (v / 65536 % 256) as u8,
        (v / 16777216 % 256) as u8,
    ]
}

/// The little-endian bytes of each word of each triple, in order.
pub open spec fn triples_le(ws: Seq<[u32; 3]>) -> Seq<u8>
    decreases ws.len(),
{
    if ws.len() == 0 {
        Seq::empty()
    } else {
        let w = ws.last();
        triples_le(ws.drop_last()) + le32(w[0]) + le32(w[1]) + le32(w[2])
    }
}

/// `s` followed by `fill` up to the next multiple of 4.
pub open spec fn padded(s: Seq<u8>, fill: u8) -> Seq<u8> {
    s + Seq::new((spec_pad4(s.len() as int) - s.len()) as nat, |i: int| fill)
}

/// `n` reduced to 32 bits, as a `u32` length field holds it.
pub open spec fn low32(n: int) -> u32 {
    (n % 0x1_0000_0000) as u32
}

/// The binary buffer: indices, positions, normals, padded with zeros.
pub open spec fn glb_bin(
    triangles: Seq<[u32; 3]>,
    positions: Seq<[u32; 3]>,
    normals: Seq<[u32; 3]>,
) -> Seq<u8> {
    padded(triples_le(triangles) + triples_le(positions) + triples_le(normals), 0)
}

/// The whole GLB file.
pub open spec fn glb_file(
    json: Seq<u8>,
    triangles: Seq<[u32; 3]>,
    positions: Seq<[u32; 3]>,
    normals: Seq<[u32; 3]>,
) -> Seq<u8> {
    let j = padded(json, 0x20);
    let b = glb_bin(triangles, positions, normals);
    le32(GLB_MAGIC) + le32(GLB_VERSION) + le32(low32((12 + 8 + j.len() + 8 + b.len()) as int)) + le32(
        low32(j.len() as int),
    ) + le32(CHUNK_JSON) + j + le32(low32(b.len() as int)) + le32(CHUNK_BIN) + b
}

/// Sizes of the parts of a GLB buffer, as the JSON text describes them.
#[derive(Debug, Clone, Copy, PartialEq, Eq, Structural)]
pub struct GlbLayout {
    /// Number of indices: three per triangle.
    pub index_count: usize,
    /// Bytes of the index buffer view.
    pub idx_bytes: u32,
    /// Bytes of the position buffer view.
    pub pos_bytes: u32,
    /// Bytes of the normal buffer view.
    pub norm_bytes: u32,
    /// Bytes of the binary chunk, padded to a multiple of 4.
    pub bin_padded_len: usize,
}

/// Appends the little-endian bytes of `v`.
fn push_le32(out: &mut Vec<u8>, v: u32)
    ensures
        final(out)@ == old(out)@ + le32(v),
{
    out.push((v % 256) as u8);
    out.push((v / 256 % 256) as u8);
    out.push((v / 65536 % 256) as u8);
    out.push((v / 16777216 % 256) as u8);
    reveal(le32);
    assert(out@ =~= old(out)@ + le32(v));
}

/// Appends the little-endian bytes of each word of each triple.
fn push_triples(out: &mut Vec<u8>, ws: &Vec<[u32; 3]>)
    ensures
        final(out)@ == old(out)@ + triples_le(ws@),
{
    let mut i: usize = 0;
    while i < ws.len()
        invariant
            i <= ws.len(),
            out@ == old(out)@ + triples_le(ws@.take(i as int)),
        decreases ws.len() - i,
    {
        let w = ws[i];
        push_le32(out, w[0]);
        push_le32(out, w[1]);
        push_le32(out, w[2]);
        assert(ws@.take(i + 1).drop_last() =~= ws@.take(i as int));
        assert(out@ =~= old(out)@ + triples_le(ws@.take(i + 1)));
        i = i + 1;
    }
    assert(ws@.take(ws.len() as int) =~= ws@);
}

/// Appends `fill` until the length of the part that starts at `from` is a
/// multiple of 4.
fn pad_with(out: &mut Vec<u8>, from: usize, fill: u8)
    requires
        from <= old(out)@.len(),
        old(out)@.len() + 3 <= usize::MAX,
    ensures
        final(out)@ == old(out)@.take(from as int) + padded(old(out)@.skip(from as int), fill),
{
    let part_len = out.len() - from;
    let target = pad4(part_len);
    let ghost part = old(out)@.skip(from as int);
    let mut k = part_len;
    while k < target
        invariant
            part_len <= k <= target,
            target == spec_pad4(part_len as int),
            part_len == part.len(),
            out@ == old(out)@.take(from as int) + part + Seq::new(
                (k - part_len) as nat,
                |i: int| fill,
            ),
        decreases target - k,
    {
        out.push(fill);
        assert(out@ =~= old(out)@.take(from as int) + part + Seq::new(
            (k + 1 - part_len) as nat,
            |i: int| fill,
        ));
        k = k + 1;
    }
    assert(old(out)@ =~= old(out)@.take(from as int) + part);
}

/// Sizes of the buffer views of a mesh with `vertex_count` vertices and
/// `triangle_count` triangles; the byte counts that the JSON states are
/// reduced to 32 bits as the format holds them.
pub fn glb_layout(vertex_count: usize, triangle_count: usize) -> (r: GlbLayout)
    requires
        triangle_count * 12 + vertex_count * 24 + 3 <= usize::MAX,
    ensures
        r.index_count == triangle_count * 3,
        r.idx_bytes == low32(triangle_count * 12),
        r.pos_bytes == low32(vertex_count * 12),
        r.norm_bytes == low32(vertex_count * 12),
        r.bin_padded_len == spec_pad4(triangle_count * 12 + vertex_count * 24),
{
    let idx = triangle_count * 12;
    let pos = vertex_count * 12;
    let total = idx + pos + pos;
    proof {
        lemma_low32(idx);
    }
    proof {
        lemma_low32(pos);
    }
    GlbLayout {
        index_count: triangle_count * 3,
        idx_bytes: idx as u32,
        pos_bytes: pos as u32,
        norm_bytes: pos as u32,
        bin_padded_len: pad4(total),
    }
}

/// Assembles a GLB file from its JSON text and its mesh buffers.
pub fn glb_bytes(
    json: &[u8],
    triangles: &Vec<[u32; 3]>,
    positions: &Vec<[u32; 3]>,
    normals: &Vec<[u32; 3]>,
) -> (r: Vec<u8>)
    requires
        json@.len() + triangles@.len() * 12 + positions@.len() * 12 + normals@.len() * 12 + 64
            <= usize::MAX,
    ensures
        r@ == glb_file(json@, triangles@, positions@, normals@),
{
    proof {
        lemma_triples_len(triangles@);
        lemma_triples_len(positions@);
        lemma_triples_len(normals@);
    }
    // Binary buffer.
    let mut bin: Vec<u8> = Vec::new();
    push_triples(&mut bin, triangles);
    push_triples(&mut bin, positions);
    push_triples(&mut bin, normals);
    let ghost raw = bin@;
    assert(raw =~= triples_le(triangles@) + triples_le(positions@) + triples_le(normals@));
    pad_with(&mut bin, 0, 0u8);
    assert(bin@ =~= glb_bin(triangles@, positions@, normals@)) by {
        assert(raw.take(0) =~= Seq::<u8>::empty());
        assert(raw.skip(0) =~= raw);
    }
    // JSON text padded with spaces.
    let mut j: Vec<u8> = Vec::new();
    let mut i: usize = 0;
    while i < json.len()
        invariant
            i <= json.len(),
            j@ == json@.take(i as int),
        decreases json.len() - i,
    {
        j.push(json[i]);
        assert(j@ =~= json@.take(i + 1));
        i = i + 1;
    }
    assert(json@.take(json.len() as int) =~= json@);
    pad_with(&mut j, 0, 0x20u8);
    assert(j@ =~= padded(json@, 0x20)) by {
        assert(json@.take(0) =~= Seq::<u8>::empty());
        assert(json@.skip(0) =~= json@);
    }
    let total: usize = 12 + 8 + j.len() + 8 + bin.len();
    let jl: usize = j.len();
    let bl: usize = bin.len();
    proof {
        lemma_low32(total);
    }
    proof {
        lemma_low32(jl);
    }
    proof {
        lemma_low32(bl);
    }
    let mut glb: Vec<u8> = Vec::new();
    push_le32(&mut glb, GLB_MAGIC);
    push_le32(&mut glb, GLB_VERSION);
    push_le32(&mut glb, total as u32);
    push_le32(&mut glb, jl as u32);
    push_le32(&mut glb, CHUNK_JSON);
    glb.append(&mut j);
    push_le32(&mut glb, bl as u32);
    push_le32(&mut glb, CHUNK_BIN);
    glb.append(&mut bin);
    glb
}

/// The layout a GLB reader relies on: the header opens with the magic and
/// version 2 and states the file's length (as 32 bits); the JSON chunk starts
/// at byte 12 with its type at byte 16; the BIN chunk header follows the JSON
/// data; both chunk lengths and the file length are multiples of 4, and each
/// chunk length field states the length of its data.
#[verifier::spinoff_prover]
#[verifier::rlimit(40)]
pub proof fn lemma_glb_layout(
    json: Seq<u8>,
    triangles: Seq<[u32; 3]>,
    positions: Seq<[u32; 3]>,
    normals: Seq<[u32; 3]>,
)
    ensures
        ({
            let f = glb_file(json, triangles, positions, normals);
            let jl = spec_pad4(json.len() as int);
            let bl = spec_pad4(
                (triples_le(triangles).len() + triples_le(positions).len() + triples_le(
                    normals,
                ).len()) as int,
            );
            &&& f.subrange(0, 4) == le32(GLB_MAGIC)
            &&& f.subrange(4, 8) == le32(GLB_VERSION)
            &&& f.subrange(8, 12) == le32(low32(f.len() as int))
            &&& f.subrange(12, 16) == le32(low32(jl))
            &&& f.subrange(16, 20) == le32(CHUNK_JSON)
            &&& f.subrange(20, 20 + jl) == padded(json, 0x20)
            &&& f.subrange(20 + jl, 24 + jl) == le32(low32(bl))
            &&& f.subrange(24 + jl, 28 + jl) == le32(CHUNK_BIN)
            &&& f.subrange(28 + jl, f.len() as int) == glb_bin(triangles, positions, normals)
            &&& f.len() == 28 + jl + bl
            &&& jl % 4 == 0 && bl % 4 == 0 && f.len() % 4 == 0
            &&& json.len() <= jl < json.len() + 4
        }),
{
    lemma_le32_len(GLB_MAGIC);
    lemma_le32_len(GLB_VERSION);
    lemma_le32_len(CHUNK_JSON);
    lemma_le32_len(CHUNK_BIN);
    let j = padded(json, 0x20);
    let b = glb_bin(triangles, positions, normals);
    let raw = triples_le(triangles) + triples_le(positions) + triples_le(normals);
    let jl = spec_pad4(json.len() as int);
    let bl = spec_pad4(raw.len() as int);
    assert(j.len() == jl);
    assert(b.len() == bl);
    let total = (12 + 8 + j.len() + 8 + b.len()) as int;
    let h = le32(GLB_MAGIC) + le32(GLB_VERSION) + le32(low32(total)) + le32(low32(j.len() as int))
        + le32(CHUNK_JSON);
    let m = le32(low32(b.len() as int)) + le32(CHUNK_BIN);
    lemma_le32_len(low32(total));
    lemma_le32_len(low32(j.len() as int));
    lemma_le32_len(low32(b.len() as int));
    let f = glb_file(json, triangles, positions, normals);
    assert(f =~= h + j + m + b);
    assert(h.len() == 20);
    assert(m.len() == 8);
    assert(f.len() == total);
    assert(f.subrange(0, 4) =~= le32(GLB_MAGIC));
    assert(f.subrange(4, 8) =~= le32(GLB_VERSION));
    assert(f.subrange(8, 12) =~= le32(low32(f.len() as int)));
    assert(f.subrange(12, 16) =~= le32(low32(jl)));
    assert(f.subrange(16, 20) =~= le32(CHUNK_JSON));
    assert(f.subrange(20, 20 + jl) =~= j);
    assert(f.subrange(20 + jl, 24 + jl) =~= le32(low32(bl)));
    assert(f.subrange(24 + jl, 28 + jl) =~= le32(CHUNK_BIN));
    assert(f.subrange(28 + jl, f.len() as int) =~= b);
}

/// The header and chunk type words spell `glTF`, `JSON` and `BIN\0` in
/// file order, and the version word is 2.
pub proof fn lemma_glb_tags()
    ensures
        le32(GLB_MAGIC) == seq![0x67u8, 0x6Cu8, 0x54u8, 0x46u8],
        le32(GLB_VERSION) == seq![2u8, 0u8, 0u8, 0u8],
        le32(CHUNK_JSON) == seq![0x4Au8, 0x53u8, 0x4Fu8, 0x4Eu8],
        le32(CHUNK_BIN) == seq![0x42u8, 0x49u8, 0x4Eu8, 0u8],
{
    reveal(le32);
    assert(le32(GLB_MAGIC) =~= seq![0x67u8, 0x6Cu8, 0x54u8, 0x46u8]);
    assert(le32(GLB_VERSION) =~= seq![2u8, 0u8, 0u8, 0u8]);
    assert(le32(CHUNK_JSON) =~= seq![0x4Au8, 0x53u8, 0x4Fu8, 0x4Eu8]);
    assert(le32(CHUNK_BIN) =~= seq![0x42u8, 0x49u8, 0x4Eu8, 0u8]);
}

/// The number that four bytes spell, read little-endian.
pub open spec fn le32_value(b: Seq<u8>) -> int {
    b[0] + 256 * b[1] + 65536 * b[2] + 16777216 * b[3]
}

/// Four little-endian bytes read back give the word they were written from.
pub proof fn lemma_le32_round_trip(v: u32)
    ensures
        le32_value(le32(v)) == v,
{
    reveal(le32);
    assert(((v % 256) as u8) as int + 256 * ((v / 256 % 256) as u8) as int + 65536 * ((v / 65536
        % 256) as u8) as int + 16777216 * ((v / 16777216 % 256) as u8) as int == v) by (bit_vector);
}

/// Read back as little-endian words, the length fields of a GLB file give
/// the file's length and the lengths of its two chunks (modulo 2^32).
pub proof fn lemma_glb_lengths_read_back(
    json: Seq<u8>,
    triangles: Seq<[u32; 3]>,
    positions: Seq<[u32; 3]>,
    normals: Seq<[u32; 3]>,
)
    ensures
        ({
            let f = glb_file(json, triangles, positions, normals);
            let jl = spec_pad4(json.len() as int);
            &&& le32_value(f.subrange(8, 12)) == f.len() % 0x1_0000_0000
            &&& le32_value(f.subrange(12, 16)) == jl % 0x1_0000_0000
            &&& le32_value(f.subrange(20 + jl, 24 + jl)) == (f.len() - 28 - jl) % 0x1_0000_0000
        }),
{
    let f = glb_file(json, triangles, positions, normals);
    let jl = spec_pad4(json.len() as int);
    let bl = f.len() - 28 - jl;
    lemma_glb_layout(json, triangles, positions, normals);
    lemma_le32_round_trip(low32(f.len() as int));
    lemma_le32_round_trip(low32(jl));
    lemma_le32_round_trip(low32(bl));
}

proof fn lemma_le32_len(v: u32)
    ensures
        le32(v).len() == 4,
{
    reveal(le32);
}

proof fn lemma_low32(x: usize)
    ensures
        x as u32 == low32(x as int),
{
    assert((x as u64) % 0x1_0000_0000 == ((x as u32) as u64)) by (bit_vector);
}

proof fn lemma_triples_len(ws: Seq<[u32; 3]>)
    ensures
        triples_le(ws).len() == ws.len() * 12,
    decreases ws.len(),
{
    if ws.len() > 0 {
        lemma_triples_len(ws.drop_last());
        let w = ws.last();
        lemma_le32_len(w[0]);
        lemma_le32_len(w[1]);
        lemma_le32_len(w[2]);
    }
}

} // verus!
