use vstd::prelude::*;

verus! {

/// Size of the address space, in bytes.
pub const MEMORY_SIZE: usize = 4096;

/// Base offset of the built-in glyph sprites.
pub const FONT_OFFSET: usize = 0;

/// Bytes per glyph sprite: each hex digit is drawn as 5 rows of 8 pixels.
pub const GLYPH_SIZE: usize = 5;

/// Base offset at which program bytes are loaded.
pub const PROGRAM_OFFSET: usize = 0x200;

/// The built-in glyph table: 16 five-byte sprites, one per hex digit
/// 0x0..=0xF in order, stored from `FONT_OFFSET` on.
pub open spec fn font_data() -> Seq<u8> {
    seq![
        0xF0u8, 0x90, 0x90, 0x90, 0xF0, // 0
        0x20, 0x60, 0x20, 0x20, 0x70, // 1
        0xF0, 0x10, 0xF0, 0x80, 0xF0, // 2
        0xF0, 0x10, 0xF0, 0x10, 0xF0, // 3
        0x90, 0x90, 0xF0, 0x10, 0x10, // 4
        0xF0, 0x80, 0xF0, 0x10, 0xF0, // 5
        0xF0, 0x80, 0xF0, 0x90, 0xF0, // 6
        0xF0, 0x10, 0x20, 0x40, 0x40, // 7
        0xF0, 0x90, 0xF0, 0x90, 0xF0, // 8
        0xF0, 0x90, 0xF0, 0x10, 0xF0, // 9
        0xF0, 0x90, 0xF0, 0x90, 0x90, // A
        0xE0, 0x90, 0xE0, 0x90, 0xE0, // B
        0xF0, 0x80, 0x80, 0x80, 0xF0, // C
        0xE0, 0x90, 0x90, 0x90, 0xE0, // D
        0xF0, 0x80, 0xF0, 0x80, 0xF0, // E
        0xF0, 0x80, 0xF0, 0x80, 0x80, // F
    ]
}

/// The flat byte store of the machine: a fixed 4096-byte address space
/// holding the glyph table and the loaded program.  Content is mutable
/// (programs may store into it); the capacity never changes.
pub struct Memory {
    data: Vec<u8>,
}

impl View for Memory {
    type V = Seq<u8>;

    closed spec fn view(&self) -> Seq<u8> {
        self.data@
    }
}

impl Memory {
    /// The capacity invariant: exactly `MEMORY_SIZE` addressable bytes.
    pub open spec fn wf(self) -> bool {
        self@.len() == MEMORY_SIZE
    }

    /// A fresh memory image: the glyph table at `FONT_OFFSET`, the
    /// program bytes copied verbatim from `PROGRAM_OFFSET` on, and every
    /// other byte zero.
    pub fn new(program_data: &Vec<u8>) -> (r: Memory)
        requires
            program_data@.len() <= MEMORY_SIZE - PROGRAM_OFFSET,
        ensures
            r.wf(),
            forall|j: int|
                0 <= j < font_data().len() ==> r@[FONT_OFFSET + j] == font_data()[j],
            forall|k: int|
                0 <= k < program_data@.len() ==> r@[PROGRAM_OFFSET + k] == program_data@[k],
            forall|a: int|
                0 <= a < MEMORY_SIZE && !(FONT_OFFSET <= a < FONT_OFFSET + font_data().len())
                    && !(PROGRAM_OFFSET <= a < PROGRAM_OFFSET + program_data@.len())
                    ==> r@[a] == 0,
    {
        let mut data: Vec<u8> = Vec::new();
        let mut a: usize = 0;
        while a < MEMORY_SIZE
            invariant
                a <= MEMORY_SIZE,
                data@.len() == a,
                forall|j: int| 0 <= j < a ==> data@[j] == 0,
            decreases MEMORY_SIZE - a,
        {
            data.push(0);
            a = a + 1;
        }
        let font = font_sprites();
        let mut j: usize = 0;
        while j < font.len()
            invariant
                j <= font@.len(),
                font@ == font_data(),
                data@.len() == MEMORY_SIZE,
                forall|n: int| 0 <= n < j ==> data@[FONT_OFFSET + n] == font_data()[n],
                forall|m: int|
                    0 <= m < MEMORY_SIZE && !(FONT_OFFSET <= m < FONT_OFFSET + j)
                        ==> data@[m] == 0,
            decreases font@.len() - j,
        {
            data.set(FONT_OFFSET + j, font[j]);
            j = j + 1;
        }
        let mut k: usize = 0;
        while k < program_data.len()
            invariant
                k <= program_data@.len(),
                program_data@.len() <= MEMORY_SIZE - PROGRAM_OFFSET,
                data@.len() == MEMORY_SIZE,
                forall|n: int|
                    0 <= n < font_data().len() ==> data@[FONT_OFFSET + n] == font_data()[n],
                forall|m: int| 0 <= m < k ==> data@[PROGRAM_OFFSET + m] == program_data@[m],
                forall|m: int|
                    0 <= m < MEMORY_SIZE && !(FONT_OFFSET <= m < FONT_OFFSET + font_data().len())
                        && !(PROGRAM_OFFSET <= m < PROGRAM_OFFSET + k) ==> data@[m] == 0,
            decreases program_data@.len() - k,
        {
            data.set(PROGRAM_OFFSET + k, program_data[k]);
            k = k + 1;
        }
        Memory { data }
    }

    /// Reads the byte at an in-range address.
    pub fn read(&self, address: usize) -> (r: u8)
        requires
            self.wf(),
            address < MEMORY_SIZE,
        ensures
            r == self@[address as int],
    {
        self.data[address]
    }

    /// Writes the byte at an in-range address.
    pub fn write(&mut self, address: usize, value: u8)
        requires
            old(self).wf(),
            address < MEMORY_SIZE,
        ensures
            final(self)@ == old(self)@.update(address as int, value),
    {
        self.data.set(address, value);
    }
}

/// The glyph table as bytes, in digit order.
fn font_sprites() -> (r: Vec<u8>)
    ensures
        r@ == font_data(),
{
    let font: Vec<u8> = vec![
        0xF0u8, 0x90, 0x90, 0x90, 0xF0, // 0
        0x20, 0x60, 0x20, 0x20, 0x70, // 1
        0xF0, 0x10, 0xF0, 0x80, 0xF0, // 2
        0xF0, 0x10, 0xF0, 0x10, 0xF0, // 3
        0x90, 0x90, 0xF0, 0x10, 0x10, // 4
        0xF0, 0x80, 0xF0, 0x10, 0xF0, // 5
        0xF0, 0x80, 0xF0, 0x90, 0xF0, // 6
        0xF0, 0x10, 0x20, 0x40, 0x40, // 7
        0xF0, 0x90, 0xF0, 0x90, 0xF0, // 8
        0xF0, 0x90, 0xF0, 0x10, 0xF0, // 9
        0xF0, 0x90, 0xF0, 0x90, 0x90, // A
        0xE0, 0x90, 0xE0, 0x90, 0xE0, // B
        0xF0, 0x80, 0x80, 0x80, 0xF0, // C
        0xE0, 0x90, 0x90, 0x90, 0xE0, // D
        0xF0, 0x80, 0xF0, 0x80, 0xF0, // E
        0xF0, 0x80, 0xF0, 0x80, 0x80, // F
    ];
    proof {
        assert(font@ =~= font_data());
    }
    font
}

} // verus!
