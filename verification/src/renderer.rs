//! The line compositor: per-scanline background and sprite buffers, the
//! merge rule that picks each pixel's palette entry, and the RGBA frame
//! buffer. The host blits the finished frame to its surface; this module
//! never touches the surface itself.

use vstd::prelude::*;

verus! {

pub const RAW_WIDTH: usize = 256;

pub const RAW_HEIGHT: usize = 240;

pub const CHANNELS: usize = 4;

pub const DATA_LEN: usize = 245760;

/// The fixed 64-entry master palette, three bytes of RGB per entry.
pub const COLORS: [u8; 192] = [
    84,
    84,
    84,
    0,
    30,
    116,
    8,
    16,
    144,
    48,
    0,
    136,
    68,
    0,
    100,
    92,
    0,
    48,
    84,
    4,
    0,
    60,
    24,
    0,
    32,
    42,
    0,
    8,
    58,
    0,
    0,
    64,
    0,
    0,
    60,
    0,
    0,
    50,
    60,
    0,
    0,
    0,
    0,
    0,
    0,
    0,
    0,
    0,
    152,
    150,
    152,
    8,
    76,
    196,
    48,
    50,
    236,
    92,
    30,
    228,
    136,
    20,
    176,
    160,
    20,
    100,
    152,
    34,
    32,
    120,
    60,
    0,
    84,
    90,
    0,
    40,
    114,
    0,
    8,
    124,
    0,
    0,
    118,
    40,
    0,
    102,
    120,
    0,
    0,
    0,
    0,
    0,
    0,
    0,
    0,
    0,
    236,
    238,
    236,
    76,
    154,
    236,
    120,
    124,
    236,
    176,
    98,
    236,
    228,
    84,
    236,
    236,
    88,
    180,
    236,
    106,
    100,
    212,
    136,
    32,
    160,
    170,
    0,
    116,
    196,
    0,
    76,
    208,
    32,
    56,
    204,
    108,
    56,
    180,
    204,
    60,
    60,
    60,
    0,
    0,
    0,
    0,
    0,
    0,
    236,
    238,
    236,
    168,
    204,
    236,
    188,
    188,
    236,
    212,
    178,
    236,
    236,
    174,
    236,
    236,
    174,
    212,
    236,
    180,
    176,
    228,
    196,
    144,
    204,
    210,
    120,
    180,
    222,
    120,
    168,
    226,
    144,
    152,
    226,
    180,
    160,
    214,
    228,
    160,
    162,
    160,
    0,
    0,
    0,
    0,
    0,
    0,
];

/// The palette entry one output pixel takes: a transparent background
/// falls through to the sprite and then to the backdrop; an opaque
/// background loses only to an opaque sprite with its front flag set.
pub open spec fn merged_color(bg: u8, sprite: u8, front: bool, backdrop: u8) -> u8 {
    if bg == 0xFF {
        if sprite == 0xFF {
            backdrop
        } else {
            sprite
        }
    } else {
        if sprite < 0xFF && front {
            sprite
        } else {
            bg
        }
    }
}

/// A fresh sprite line buffer with every column transparent.
fn transparent_sprites() -> (r: Vec<(u8, bool)>)
    ensures
        r@.len() == RAW_WIDTH,
        forall|i: int| 0 <= i < RAW_WIDTH ==> r@[i] == (0xFFu8, false),
{
    let mut out: Vec<(u8, bool)> = Vec::new();
    while out.len() < RAW_WIDTH
        invariant
            out@.len() <= RAW_WIDTH,
            forall|i: int| 0 <= i < out@.len() ==> out@[i] == (0xFFu8, false),
        decreases RAW_WIDTH - out@.len(),
    {
        out.push((0xFFu8, false));
    }
    out
}

pub struct Renderer {
    pub data: Vec<u8>,
    pub bg_buffer: Vec<u8>,
    pub sprite_buffer: Vec<(u8, bool)>,
}

impl Renderer {
    pub open spec fn wf(&self) -> bool {
        &&& self.data@.len() == DATA_LEN
        &&& self.bg_buffer@.len() == RAW_WIDTH
        &&& self.sprite_buffer@.len() == RAW_WIDTH
    }

    /// A dark frame with both line buffers transparent.
    pub fn new() -> (r: Renderer)
        ensures
            r.wf(),
            forall|i: int| 0 <= i < DATA_LEN ==> r.data@[i] == 0u8,
            forall|i: int| 0 <= i < RAW_WIDTH ==> r.bg_buffer@[i] == 0xFFu8,
            forall|i: int| 0 <= i < RAW_WIDTH ==> r.sprite_buffer@[i] == (0xFFu8, false),
    {
        Renderer {
            data: vec![0u8; DATA_LEN],
            bg_buffer: vec![0xFFu8; RAW_WIDTH],
            sprite_buffer: transparent_sprites(),
        }
    }

    /// Reset both line buffers to transparent before a scanline starts.
    pub fn clear_buffer(&mut self)
        requires
            old(self).wf(),
        ensures
            final(self).wf(),
            final(self).data == old(self).data,
            forall|i: int| 0 <= i < RAW_WIDTH ==> final(self).bg_buffer@[i] == 0xFFu8,
            forall|i: int| 0 <= i < RAW_WIDTH ==> final(self).sprite_buffer@[i] == (0xFFu8, false),
    {
        self.bg_buffer = vec![0xFFu8; RAW_WIDTH];
        self.sprite_buffer = transparent_sprites();
    }

    /// Record the background palette entry sampled at a column.
    pub fn set_background(&mut self, index: u8, value: u8)
        requires
            old(self).wf(),
        ensures
            final(self).wf(),
            final(self).bg_buffer@ == old(self).bg_buffer@.update(index as int, value),
            final(self).data == old(self).data,
            final(self).sprite_buffer == old(self).sprite_buffer,
    {
        self.bg_buffer[index as usize] = value;
    }

    /// Record a sprite pixel at a column with its front-of-background flag.
    pub fn set_sprite(&mut self, index: u8, value: u8, front: bool)
        requires
            old(self).wf(),
        ensures
            final(self).wf(),
            final(self).sprite_buffer@ == old(self).sprite_buffer@.update(
                index as int,
                (value, front),
            ),
            final(self).data == old(self).data,
            final(self).bg_buffer == old(self).bg_buffer,
    {
        self.sprite_buffer[index as usize] = (value, front);
    }

    /// Whether no background pixel was sampled at a column.
    pub fn is_bg_transparent(&mut self, index: u8) -> (r: bool)
        requires
            old(self).wf(),
        ensures
            *final(self) == *old(self),
            r == (old(self).bg_buffer@[index as int] == 0xFF),
    {
        self.bg_buffer[index as usize] == 0xFF
    }

    /// Compose one finished scanline into the frame buffer: each column's
    /// palette entry follows the merge rule, and its RGB comes from the
    /// master palette (entries are taken modulo the 64-entry table), with
    /// alpha 255.
    #[verifier::rlimit(100)]
    #[verifier::spinoff_prover]
    pub fn merge_line(&mut self, line: u8, bg_color: u8)
        requires
            old(self).wf(),
            line < 240,
        ensures
            final(self).wf(),
            final(self).bg_buffer == old(self).bg_buffer,
            final(self).sprite_buffer == old(self).sprite_buffer,
            forall|i: int|
                0 <= i < RAW_WIDTH ==> {
                    let c = (merged_color(
                        #[trigger] old(self).bg_buffer@[i],
                        old(self).sprite_buffer@[i].0,
                        old(self).sprite_buffer@[i].1,
                        bg_color,
                    ) & 0x3F) as int;
                    let base = 4 * 256 * line + 4 * i;
                    &&& final(self).data@[base] == COLORS@[3 * c]
                    &&& final(self).data@[base + 1] == COLORS@[3 * c + 1]
                    &&& final(self).data@[base + 2] == COLORS@[3 * c + 2]
                    &&& final(self).data@[base + 3] == 255u8
                },
            forall|j: int|
                0 <= j < DATA_LEN && !(4 * 256 * line <= j < 4 * 256 * line + 4 * RAW_WIDTH)
                    ==> final(self).data@[j] == old(self).data@[j],
    {
        let mut i: usize = 0;
        while i < RAW_WIDTH
            invariant
                self.wf(),
                i <= RAW_WIDTH,
                line < 240,
                self.bg_buffer == old(self).bg_buffer,
                self.sprite_buffer == old(self).sprite_buffer,
                forall|k: int|
                    0 <= k < i ==> {
                        let c = (merged_color(
                            #[trigger] old(self).bg_buffer@[k],
                            old(self).sprite_buffer@[k].0,
                            old(self).sprite_buffer@[k].1,
                            bg_color,
                        ) & 0x3F) as int;
                        let base = 4 * 256 * line + 4 * k;
                        &&& self.data@[base] == COLORS@[3 * c]
                        &&& self.data@[base + 1] == COLORS@[3 * c + 1]
                        &&& self.data@[base + 2] == COLORS@[3 * c + 2]
                        &&& self.data@[base + 3] == 255u8
                    },
                forall|j: int|
                    0 <= j < DATA_LEN && !(4 * 256 * line <= j < 4 * 256 * line + 4 * i)
                        ==> self.data@[j] == old(self).data@[j],
            decreases RAW_WIDTH - i,
        {
            let bg = self.bg_buffer[i];
            let sprite = self.sprite_buffer[i];
            let color: u8 = if bg == 0xFF {
                if sprite.0 == 0xFF {
                    bg_color
                } else {
                    sprite.0
                }
            } else {
                if sprite.0 < 0xFF && sprite.1 {
                    sprite.0
                } else {
                    bg
                }
            };

            let index: usize = CHANNELS * RAW_WIDTH * line as usize + CHANNELS * i;
            proof {
                crate::bits::lemma_u8_and_le(color, 0x3F);
                assert(color == merged_color(
                    old(self).bg_buffer@[i as int],
                    old(self).sprite_buffer@[i as int].0,
                    old(self).sprite_buffer@[i as int].1,
                    bg_color,
                ));
            }
            let c: usize = (color & 0x3F) as usize * 3;
            self.data[index] = COLORS[c];
            self.data[index + 1] = COLORS[c + 1];
            self.data[index + 2] = COLORS[c + 2];
            self.data[index + 3] = 255;
            proof {
                let ci = ((color & 0x3F) as int);
                let base = 4 * 256 * (line as int) + 4 * (i as int);
                assert(self.data@[base] == COLORS@[3 * ci]);
                assert(self.data@[base + 1] == COLORS@[3 * ci + 1]);
                assert(self.data@[base + 2] == COLORS@[3 * ci + 2]);
                assert(self.data@[base + 3] == 255u8);
            }
            i += 1;
        }
    }

    /// The finished 256 by 240 RGBA frame, row-major, four bytes a pixel.
    pub fn frame(&self) -> (r: &Vec<u8>)
        ensures
            r == &self.data,
    {
        &self.data
    }
}

} // verus!
