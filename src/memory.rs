//! The memory map: address decoding, bank selection and the backing stores.
use vstd::prelude::*;

verus! {

/// A 16-bit address as the processor issues it.
pub type Address = u16;

/// An offset into the backing store of a region.
pub type Offset = u32;

/// Bytes of banked work RAM kept as backing store.
pub const WORK_RAM_SIZE: usize = 262144;

/// A request for `N` contiguous bytes starting at an address.
pub struct Request<const N: usize>(pub Address);

/// The region that an address falls in, with the offset into that region's store.
#[derive(Debug, Clone, Copy, PartialEq, Eq, Structural)]
pub enum MappedMemory {
    Rom(Offset),
    Video(Offset),
    ExternalRam(Offset),
    Work(Offset),
    Oam(Offset),
    Io(Offset),
    Hram(Offset),
    InterruptRegister,
}

/// A failed memory access, with the address that was asked for.
#[derive(Debug, Clone, Copy, PartialEq, Eq, Structural)]
pub enum MemoryError {
    /// The echo mirror or the reserved region above object attribute memory.
    IllegalAddress(Address),
    /// A region whose backing store is not wired yet.
    UnimplementedRegion(Address),
    /// A write into ROM.
    ReadOnlyViolation(Address),
    /// An offset past the end of the backing store (a short cartridge, a high bank).
    OutOfRange(Address),
}

/// The memory map as plain values.
pub struct MemoryState {
    pub cartridge: Seq<u8>,
    pub work: Seq<u8>,
    pub work_bank: u8,
    pub rom_bank: u8,
    pub video_bank: bool,
}

/// Where `address` lands, given the bank selectors.
pub open spec fn map_address(address: Address, rom_bank: u8, work_bank: u8, video_bank: bool) -> Result<
    MappedMemory,
    MemoryError,
> {
    if address <= 0x3fff {
        Ok(MappedMemory::Rom(address as Offset))
    } else if address <= 0x7fff {
        Ok(MappedMemory::Rom((address + (rom_bank - 1) * 0x4000) as Offset))
    } else if address <= 0x9fff {
        Ok(MappedMemory::Video((address - if video_bank { 0x8000int } else { 0x6000int }) as Offset))
    } else if address <= 0xbfff {
        Ok(MappedMemory::ExternalRam((address - 0xa000) as Offset))
    } else if address <= 0xcfff {
        Ok(MappedMemory::Work((address - 0xc000) as Offset))
    } else if address <= 0xdfff {
        Ok(MappedMemory::Work((address - 0xd000 + work_bank * 0x1000) as Offset))
    } else if address <= 0xfdff {
        Err(MemoryError::IllegalAddress(address))
    } else if address <= 0xfe9f {
        Ok(MappedMemory::Oam((address - 0xfe00) as Offset))
    } else if address <= 0xfeff {
        Err(MemoryError::IllegalAddress(address))
    } else if address <= 0xff7f {
        Ok(MappedMemory::Io((address - 0xff00) as Offset))
    } else if address <= 0xfffe {
        Ok(MappedMemory::Hram((address - 0xff80) as Offset))
    } else {
        Ok(MappedMemory::InterruptRegister)
    }
}

/// `n` bytes of `store` from `base`, or `OutOfRange` where they do not all exist.
pub open spec fn block_of(store: Seq<u8>, base: int, n: nat, address: Address) -> Result<
    Seq<u8>,
    MemoryError,
> {
    if base + n <= store.len() {
        Ok(store.subrange(base, base + n))
    } else {
        Err(MemoryError::OutOfRange(address))
    }
}

/// The `n` bytes that a read of `n` bytes at `address` yields. External RAM is read from the
/// cartridge image at the address itself.
pub open spec fn read_block(m: MemoryState, address: Address, n: nat) -> Result<
    Seq<u8>,
    MemoryError,
> {
    match map_address(address, m.rom_bank, m.work_bank, m.video_bank) {
        Err(e) => Err(e),
        Ok(MappedMemory::Rom(o)) => block_of(m.cartridge, o as int, n, address),
        Ok(MappedMemory::ExternalRam(o)) => block_of(m.cartridge, o + 0xa000, n, address),
        Ok(MappedMemory::Work(o)) => block_of(m.work, o as int, n, address),
        Ok(_) => Err(MemoryError::UnimplementedRegion(address)),
    }
}

/// The byte that a read at `address` yields.
pub open spec fn read_at(m: MemoryState, address: Address) -> Result<u8, MemoryError> {
    match read_block(m, address, 1) {
        Ok(s) => Ok(s[0]),
        Err(e) => Err(e),
    }
}

/// The memory map after writing `value` at `address`.
pub open spec fn write_at(m: MemoryState, address: Address, value: u8) -> Result<
    MemoryState,
    MemoryError,
> {
    match map_address(address, m.rom_bank, m.work_bank, m.video_bank) {
        Err(e) => Err(e),
        Ok(MappedMemory::Rom(_)) => Err(MemoryError::ReadOnlyViolation(address)),
        Ok(MappedMemory::Work(o)) => if o < m.work.len() {
            Ok(MemoryState { work: m.work.update(o as int, value), ..m })
        } else {
            Err(MemoryError::OutOfRange(address))
        },
        Ok(_) => Err(MemoryError::UnimplementedRegion(address)),
    }
}

/// Copies `N` bytes of `store` from `base`.
fn copy_block<const N: usize>(store: &Vec<u8>, base: usize, address: Address) -> (r: Result<
    [u8; N],
    MemoryError,
>)
    ensures
        match block_of(store@, base as int, N as nat, address) {
            Ok(s) => r is Ok && r->Ok_0@ == s,
            Err(e) => r == Err::<[u8; N], MemoryError>(e),
        },
{
    if N > store.len() || base > store.len() - N {
        return Err(MemoryError::OutOfRange(address));
    }
    let mut out = [0u8; N];
    let mut i: usize = 0;
    while i < N
        invariant
            base + N <= store.len(),
            0 <= i <= N,
            out@.len() == N,
            forall|j: int| 0 <= j < i ==> out@[j] == store@[base + j],
        decreases N - i,
    {
        let k: usize = base + i;
        out[i] = store[k];
        i += 1;
    }
    assert(out@ =~= store@.subrange(base as int, base + N));
    Ok(out)
}

/// The index of a switchable bank, never 0.
#[derive(Debug, Clone, Copy)]
pub struct Bank {
    index: u8,
}

impl Bank {
    #[verifier::type_invariant]
    closed spec fn positive(self) -> bool {
        self.index >= 1
    }

    /// The bank index.
    pub closed spec fn spec_index(self) -> u8 {
        self.index
    }

    /// The bank with index `index`.
    pub fn new(index: u8) -> (r: Bank)
        requires
            index >= 1,
        ensures
            r.spec_index() == index,
    {
        Bank { index }
    }

    /// The bank index, at least 1.
    pub fn index(&self) -> (r: u8)
        ensures
            r == self.spec_index(),
            r >= 1,
    {
        proof {
            use_type_invariant(self);
        }
        self.index
    }
}

/// Addresses `0x0000..=0x3FFF` map to ROM at the address itself, whatever the bank selection.
pub proof fn lemma_fixed_rom(address: Address, rom_bank: u8, work_bank: u8, video_bank: bool)
    requires
        address <= 0x3fff,
    ensures
        map_address(address, rom_bank, work_bank, video_bank) == Ok::<MappedMemory, MemoryError>(
            MappedMemory::Rom(address as Offset),
        ),
{
}

/// Addresses `0x4000..=0x7FFF` map to ROM at `address + (rom_bank - 1) * 0x4000`, so that two
/// bank selections place the same address `0x4000` bytes apart per bank of difference.
pub proof fn lemma_switchable_rom(
    address: Address,
    rom_bank: u8,
    other_bank: u8,
    work_bank: u8,
    video_bank: bool,
)
    requires
        0x4000 <= address <= 0x7fff,
        rom_bank >= 1,
        other_bank >= 1,
    ensures
        map_address(address, rom_bank, work_bank, video_bank) is Ok,
        map_address(address, rom_bank, work_bank, video_bank)->Ok_0 is Rom,
        map_address(address, rom_bank, work_bank, video_bank)->Ok_0->Rom_0 == address + (
        rom_bank - 1) * 0x4000,
        map_address(address, other_bank, work_bank, video_bank)->Ok_0->Rom_0 - map_address(
            address,
            rom_bank,
            work_bank,
            video_bank,
        )->Ok_0->Rom_0 == (other_bank - rom_bank) * 0x4000,
{
}

/// Addresses `0xD000..=0xDFFF` map to work RAM at `address - 0xD000 + work_bank * 0x1000`.
pub proof fn lemma_switchable_work(address: Address, rom_bank: u8, work_bank: u8, video_bank: bool)
    requires
        0xd000 <= address <= 0xdfff,
        work_bank >= 1,
    ensures
        map_address(address, rom_bank, work_bank, video_bank) is Ok,
        map_address(address, rom_bank, work_bank, video_bank)->Ok_0 is Work,
        map_address(address, rom_bank, work_bank, video_bank)->Ok_0->Work_0 == address - 0xd000
            + work_bank * 0x1000,
{
}

/// The echo mirror `0xE000..=0xFDFF` and the range `0xFEA0..=0xFEFF` are always illegal, to map,
/// to read and to write.
pub proof fn lemma_illegal_regions(m: MemoryState, address: Address, value: u8)
    requires
        0xe000 <= address <= 0xfdff || 0xfea0 <= address <= 0xfeff,
    ensures
        map_address(address, m.rom_bank, m.work_bank, m.video_bank) == Err::<
            MappedMemory,
            MemoryError,
        >(MemoryError::IllegalAddress(address)),
        read_at(m, address) == Err::<u8, MemoryError>(MemoryError::IllegalAddress(address)),
        write_at(m, address, value) == Err::<MemoryState, MemoryError>(
            MemoryError::IllegalAddress(address),
        ),
{
}

/// The memory map: cartridge image, banked work RAM and the bank selectors.
pub struct Memory {
    cartridge: Vec<u8>,
    work: Vec<u8>,
    work_bank: Bank,
    rom_bank: Bank,
    video_bank: bool,
}

impl View for Memory {
    type V = MemoryState;

    closed spec fn view(&self) -> MemoryState {
        MemoryState {
            cartridge: self.cartridge@,
            work: self.work@,
            work_bank: self.work_bank.spec_index(),
            rom_bank: self.rom_bank.spec_index(),
            video_bank: self.video_bank,
        }
    }
}

impl Memory {
    /// An empty cartridge, zeroed work RAM, and the selectors at their post-boot values.
    pub fn new() -> (r: Self)
        ensures
            r@.cartridge.len() == 0,
            r@.work.len() == WORK_RAM_SIZE,
            forall|i: int| 0 <= i < WORK_RAM_SIZE ==> r@.work[i] == 0,
            r@.work_bank == 1,
            r@.rom_bank == 1,
            r@.video_bank == false,
    {
        let mut work: Vec<u8> = Vec::new();
        let mut i: usize = 0;
        while i < WORK_RAM_SIZE
            invariant
                i <= WORK_RAM_SIZE,
                work@.len() == i,
                forall|j: int| 0 <= j < i ==> work@[j] == 0,
            decreases WORK_RAM_SIZE - i,
        {
            work.push(0);
            i += 1;
        }
        Memory {
            cartridge: Vec::new(),
            work,
            work_bank: Bank::new(1),
            rom_bank: Bank::new(1),
            video_bank: false,
        }
    }

    /// Replaces the cartridge image; nothing else changes.
    pub fn set_cartridge(&mut self, cart: &[u8])
        ensures
            final(self)@ == (MemoryState { cartridge: cart@, ..old(self)@ }),
    {
        let mut image: Vec<u8> = Vec::new();
        let mut i: usize = 0;
        while i < cart.len()
            invariant
                i <= cart@.len(),
                image@ == cart@.subrange(0, i as int),
            decreases cart@.len() - i,
        {
            image.push(cart[i]);
            i += 1;
            assert(image@ =~= cart@.subrange(0, i as int));
        }
        assert(image@ =~= cart@);
        self.cartridge = image;
    }

    /// Selects the switchable ROM bank.
    pub fn select_rom_bank(&mut self, bank: u8)
        requires
            bank >= 1,
        ensures
            final(self)@ == (MemoryState { rom_bank: bank, ..old(self)@ }),
    {
        self.rom_bank = Bank::new(bank);
    }

    /// Selects the switchable work RAM bank.
    pub fn select_work_bank(&mut self, bank: u8)
        requires
            bank >= 1,
        ensures
            final(self)@ == (MemoryState { work_bank: bank, ..old(self)@ }),
    {
        self.work_bank = Bank::new(bank);
    }

    /// Selects the video RAM bank.
    pub fn select_video_bank(&mut self, bank: bool)
        ensures
            final(self)@ == (MemoryState { video_bank: bank, ..old(self)@ }),
    {
        self.video_bank = bank;
    }

    /// Classifies `address` under the current bank selection, without changing anything.
    pub fn map(&self, address: Address) -> (r: Result<MappedMemory, MemoryError>)
        ensures
            r == map_address(address, self@.rom_bank, self@.work_bank, self@.video_bank),
    {
        let a = address as Offset;
        if address <= 0x3fff {
            Ok(MappedMemory::Rom(a))
        } else if address <= 0x7fff {
            Ok(MappedMemory::Rom(a + (self.rom_bank.index() as Offset - 1) * 0x4000))
        } else if address <= 0x9fff {
            Ok(MappedMemory::Video(a - if self.video_bank { 0x8000 } else { 0x6000 }))
        } else if address <= 0xbfff {
            Ok(MappedMemory::ExternalRam(a - 0xa000))
        } else if address <= 0xcfff {
            Ok(MappedMemory::Work(a - 0xc000))
        } else if address <= 0xdfff {
            Ok(MappedMemory::Work(a - 0xd000 + self.work_bank.index() as Offset * 0x1000))
        } else if address <= 0xfdff {
            Err(MemoryError::IllegalAddress(address))
        } else if address <= 0xfe9f {
            Ok(MappedMemory::Oam(a - 0xfe00))
        } else if address <= 0xfeff {
            Err(MemoryError::IllegalAddress(address))
        } else if address <= 0xff7f {
            Ok(MappedMemory::Io(a - 0xff00))
        } else if address <= 0xfffe {
            Ok(MappedMemory::Hram(a - 0xff80))
        } else {
            Ok(MappedMemory::InterruptRegister)
        }
    }

    /// Reads `N` contiguous bytes from the store of the region that the request's address
    /// lands in.
    pub fn read_sized<const N: usize>(&self, request: Request<N>) -> (r: Result<
        [u8; N],
        MemoryError,
    >)
        ensures
            match read_block(self@, request.0, N as nat) {
                Ok(s) => r is Ok && r->Ok_0@ == s,
                Err(e) => r == Err::<[u8; N], MemoryError>(e),
            },
    {
        let address = request.0;
        match self.map(address) {
            Err(e) => Err(e),
            Ok(MappedMemory::Rom(o)) => copy_block(&self.cartridge, o as usize, address),
            Ok(MappedMemory::ExternalRam(o)) => copy_block(
                &self.cartridge,
                o as usize + 0xa000,
                address,
            ),
            Ok(MappedMemory::Work(o)) => copy_block(&self.work, o as usize, address),
            Ok(_) => Err(MemoryError::UnimplementedRegion(address)),
        }
    }

    /// Reads the byte at `address`.
    pub fn read_byte(&self, address: Address) -> (r: Result<u8, MemoryError>)
        ensures
            r == read_at(self@, address),
    {
        match self.read_sized(Request::<1>(address)) {
            Ok(bytes) => Ok(bytes[0]),
            Err(e) => Err(e),
        }
    }

    /// Writes `value` at `address`. On failure nothing changes.
    pub fn write_byte(&mut self, address: Address, value: u8) -> (r: Result<(), MemoryError>)
        ensures
            match write_at(old(self)@, address, value) {
                Ok(m) => r is Ok && final(self)@ == m,
                Err(e) => r == Err::<(), MemoryError>(e) && final(self)@ == old(self)@,
            },
    {
        match self.map(address) {
            Err(e) => Err(e),
            Ok(MappedMemory::Rom(_)) => Err(MemoryError::ReadOnlyViolation(address)),
            Ok(MappedMemory::Work(o)) => {
                if (o as usize) < self.work.len() {
                    self.work.set(o as usize, value);
                    Ok(())
                } else {
                    Err(MemoryError::OutOfRange(address))
                }
            },
            Ok(_) => Err(MemoryError::UnimplementedRegion(address)),
        }
    }

    /// Reads the byte at `*pc`, then advances `*pc` by one, wrapping at the top of the address
    /// space. On failure `*pc` is left as it was.
    pub fn next_program_byte(&self, pc: &mut u16) -> (r: Result<u8, MemoryError>)
        ensures
            r == read_at(self@, *old(pc)),
            *final(pc) == if r is Ok {
                (*old(pc) as int + 1) % 0x10000
            } else {
                *old(pc) as int
            },
    {
        let next = self.read_byte(*pc);
        if next.is_ok() {
            *pc = pc.wrapping_add(1);
        }
        next
    }
}

} // verus!
