use vstd::prelude::*;

verus! {

/// Alpha lane of a packed color (highest byte).
pub open spec fn alpha_of(d: u32) -> u8 {
    (d / 0x1000000) as u8
}

/// Red lane of a packed color.
pub open spec fn red_of(d: u32) -> u8 {
    ((d / 0x10000) % 0x100) as u8
}

/// Green lane of a packed color.
pub open spec fn green_of(d: u32) -> u8 {
    ((d / 0x100) % 0x100) as u8
}

/// Blue lane of a packed color (lowest byte).
pub open spec fn blue_of(d: u32) -> u8 {
    (d % 0x100) as u8
}

/// The packed value with the given lanes, alpha in the highest byte.
pub open spec fn packed(a: u8, r: u8, g: u8, b: u8) -> u32 {
    (a as int * 0x1000000 + r as int * 0x10000 + g as int * 0x100 + b as int) as u32
}

/// A color packed into 32 bits as (alpha, red, green, blue), alpha highest.
#[derive(Clone, Copy, Debug, PartialEq, Eq, Structural)]
pub struct Color {
    pub data: u32,
}

impl Color {
    /// An opaque color.
    pub fn rgb(r: u8, g: u8, b: u8) -> (c: Color)
        ensures
            c.data == packed(0xFF, r, g, b),
    {
        Color::rgba(r, g, b, 0xFF)
    }

    /// A color with the given alpha.
    pub fn rgba(r: u8, g: u8, b: u8, a: u8) -> (c: Color)
        ensures
            c.data == packed(a, r, g, b),
    {
        let d: u32 = (a as u32) << 24 | (r as u32) << 16 | (g as u32) << 8 | b as u32;
        assert(d == packed(a, r, g, b)) by (bit_vector)
            requires
                d == (a as u32) << 24 | (r as u32) << 16 | (g as u32) << 8 | b as u32,
        ;
        Color { data: d }
    }

    /// The alpha lane.
    pub fn a(&self) -> (r: u8)
        ensures
            r == alpha_of(self.data),
    {
        let d = self.data;
        assert((d >> 24) as u8 == alpha_of(d)) by (bit_vector);
        (d >> 24) as u8
    }

    /// The red lane.
    pub fn r(&self) -> (r: u8)
        ensures
            r == red_of(self.data),
    {
        let d = self.data;
        assert((d >> 16) as u8 == red_of(d)) by (bit_vector);
        (d >> 16) as u8
    }

    /// The green lane.
    pub fn g(&self) -> (r: u8)
        ensures
            r == green_of(self.data),
    {
        let d = self.data;
        assert((d >> 8) as u8 == green_of(d)) by (bit_vector);
        (d >> 8) as u8
    }

    /// The blue lane.
    pub fn b(&self) -> (r: u8)
        ensures
            r == blue_of(self.data),
    {
        let d = self.data;
        assert(d as u8 == blue_of(d)) by (bit_vector);
        d as u8
    }
}

/// Splitting a packed color into its lanes and packing them again gives the
/// same value back.
pub proof fn lemma_lanes_round_trip(d: u32)
    ensures
        packed(alpha_of(d), red_of(d), green_of(d), blue_of(d)) == d,
{
    assert(packed(alpha_of(d), red_of(d), green_of(d), blue_of(d)) == d) by (bit_vector);
}

/// Packing four lanes and reading them back gives the same lanes.
pub proof fn lemma_pack_then_read(a: u8, r: u8, g: u8, b: u8)
    ensures
        alpha_of(packed(a, r, g, b)) == a,
        red_of(packed(a, r, g, b)) == r,
        green_of(packed(a, r, g, b)) == g,
        blue_of(packed(a, r, g, b)) == b,
{
    assert(alpha_of(packed(a, r, g, b)) == a) by (bit_vector);
    assert(red_of(packed(a, r, g, b)) == r) by (bit_vector);
    assert(green_of(packed(a, r, g, b)) == g) by (bit_vector);
    assert(blue_of(packed(a, r, g, b)) == b) by (bit_vector);
}

/// The color stored in four surface bytes, least significant first.
pub open spec fn color_at(bytes: Seq<u8>, i: int) -> u32 {
    (bytes[4 * i] as int + bytes[4 * i + 1] as int * 0x100 + bytes[4 * i + 2] as int * 0x10000
        + bytes[4 * i + 3] as int * 0x1000000) as u32
}

/// Reads a surface's bytes as colors, four bytes each, least significant
/// first; trailing bytes that do not make a whole color are left out.
pub fn colors_from_bytes(bytes: &[u8]) -> (r: Vec<Color>)
    ensures
        r@.len() == bytes@.len() / 4,
        forall|i: int| 0 <= i < r@.len() ==> #[trigger] r@[i].data == color_at(bytes@, i),
{
    let len: usize = bytes.len();
    let n: usize = len / 4;
    let mut out: Vec<Color> = Vec::new();
    let mut i: usize = 0;
    while i < n
        invariant
            len == bytes@.len(),
            n == bytes@.len() / 4,
            i <= n,
            out@.len() == i,
            forall|k: int| 0 <= k < i ==> #[trigger] out@[k].data == color_at(bytes@, k),
        decreases n - i,
    {
        assert(4 * i + 3 < len) by (nonlinear_arith)
            requires
                i < n,
                n == len / 4,
        ;
        let b0 = bytes[4 * i];
        let b1 = bytes[4 * i + 1];
        let b2 = bytes[4 * i + 2];
        let b3 = bytes[4 * i + 3];
        let d: u32 = b0 as u32 | (b1 as u32) << 8 | (b2 as u32) << 16 | (b3 as u32) << 24;
        assert(d == (b0 as int + b1 as int * 0x100 + b2 as int * 0x10000 + b3 as int * 0x1000000) as u32)
            by (bit_vector)
            requires
                d == b0 as u32 | (b1 as u32) << 8 | (b2 as u32) << 16 | (b3 as u32) << 24,
        ;
        out.push(Color { data: d });
        i = i + 1;
    }
    out
}

/// Writes colors as surface bytes, four each, least significant first.
pub fn colors_to_bytes(colors: &[Color]) -> (r: Vec<u8>)
    ensures
        r@.len() == 4 * colors@.len(),
        forall|i: int|
            0 <= i < colors@.len() ==> #[trigger] color_at(r@, i) == colors@[i].data,
{
    let mut out: Vec<u8> = Vec::new();
    let mut i: usize = 0;
    while i < colors.len()
        invariant
            i <= colors@.len(),
            out@.len() == 4 * i,
            forall|k: int| 0 <= k < i ==> #[trigger] color_at(out@, k) == colors@[k].data,
        decreases colors@.len() - i,
    {
        let c = colors[i];
        let ghost prev = out@;
        out.push(c.b());
        out.push(c.g());
        out.push(c.r());
        out.push(c.a());
        let d = c.data;
        assert(color_at(out@, i as int) == d) by {
            assert(out@[4 * i] == blue_of(d));
            assert(out@[4 * i + 1] == green_of(d));
            assert(out@[4 * i + 2] == red_of(d));
            assert(out@[4 * i + 3] == alpha_of(d));
            assert((blue_of(d) as int + green_of(d) as int * 0x100 + red_of(d) as int * 0x10000
                + alpha_of(d) as int * 0x1000000) as u32 == d) by (bit_vector);
        }
        assert forall|k: int| 0 <= k < i implies #[trigger] color_at(out@, k) == colors@[k].data by {
            assert(color_at(prev, k) == colors@[k].data);
            assert(out@[4 * k] == prev[4 * k]);
            assert(out@[4 * k + 1] == prev[4 * k + 1]);
            assert(out@[4 * k + 2] == prev[4 * k + 2]);
            assert(out@[4 * k + 3] == prev[4 * k + 3]);
        }
        i = i + 1;
    }
    out
}

} // verus!
