//! Mapping of decoded palettes onto the display's DAC registers.
use vstd::prelude::*;

use crate::image::PaletteEntry;
use crate::video::VgaDacColour;

verus! {

/// The DAC colour for an 8-bit-per-channel palette entry: each channel
/// scaled down to the DAC's 6 bits.
pub open spec fn dac_of(e: PaletteEntry) -> VgaDacColour {
    VgaDacColour { red: e.red / 4, green: e.green / 4, blue: e.blue / 4 }
}

/// The DAC registers for `entries`, in order, index 0 first.
pub fn dac_palette(entries: &[PaletteEntry]) -> (r: Vec<VgaDacColour>)
    ensures
        r@ == entries@.map_values(|e: PaletteEntry| dac_of(e)),
{
    let mut out: Vec<VgaDacColour> = Vec::new();
    let mut i: usize = 0;
    while i < entries.len()
        invariant
            i <= entries@.len(),
            out@ == entries@.take(i as int).map_values(|e: PaletteEntry| dac_of(e)),
        decreases entries@.len() - i,
    {
        let e = entries[i];
        out.push(VgaDacColour { red: e.red / 4, green: e.green / 4, blue: e.blue / 4 });
        i = i + 1;
        assert(entries@.take(i as int) =~= entries@.take(i - 1).push(e));
        assert(out@ =~= entries@.take(i as int).map_values(|e: PaletteEntry| dac_of(e)));
    }
    assert(entries@.take(i as int) =~= entries@);
    out
}

} // verus!
