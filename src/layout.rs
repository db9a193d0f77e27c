use vstd::prelude::*;

verus! {

/// Geometry of a display module: `COLS` characters on each of `LINES` lines, and the
/// set-DDRAM-address instruction byte of the first character of each line.
pub struct Layout<const COLS: u8, const LINES: usize> {
    pub addrs: [u8; LINES],
}

/// The common 16x2 module.
pub fn lcd16x2() -> (r: Layout<16, 2>)
    ensures
        r.addrs@ == seq![0x80u8, 0xC0u8],
{
    let r = Layout { addrs: [0x80, 0xC0] };
    assert(r.addrs@ =~= seq![0x80u8, 0xC0u8]);
    r
}

/// The common 20x4 module: lines three and four continue lines one and two in memory.
pub fn lcd20x4() -> (r: Layout<20, 4>)
    ensures
        r.addrs@ == seq![0x80u8, 0xC0u8, 0x94u8, 0xD4u8],
{
    let r = Layout { addrs: [0x80, 0xC0, 0x80 + 20, 0xC0 + 20] };
    assert(r.addrs@ =~= seq![0x80u8, 0xC0u8, 0x94u8, 0xD4u8]);
    r
}

} // verus!
