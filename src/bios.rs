//! The BIOS image: its bytes, what is known of it, and the patches it supports.
use vstd::prelude::*;
use crate::cdrom::Region;
use crate::memory::Addressable;

verus! {

/// The size of a BIOS image in bytes.
pub const BIOS_SIZE: usize = 512 * 1024;

/// What is known of a BIOS image, found by its SHA-256 digest.
pub struct Metadata {
    pub sha256: [u8; 32],
    pub version_major: u8,
    pub version_minor: u8,
    pub region: Region,
    pub known_bad: bool,
    /// Offset of the instruction that jumps to the boot animation.
    pub animation_jump_hook: Option<u32>,
    /// Word writes (offset, value) that turn the debug UART on.
    pub patch_debug_uart: Option<Vec<(u32, u32)>>,
}

/// `w` written little-endian at `off`.
pub open spec fn write_word(d: Seq<u8>, off: int, w: u32) -> Seq<u8> {
    d.update(off, w as u8).update(off + 1, (w >> 8u32) as u8).update(off + 2, (w >> 16u32) as u8).update(
        off + 3,
        (w >> 24u32) as u8,
    )
}

/// The first `n` patches applied in order.
pub open spec fn apply_patches(d: Seq<u8>, patches: Seq<(u32, u32)>, n: nat) -> Seq<u8>
    decreases n,
{
    if n == 0 {
        d
    } else {
        write_word(apply_patches(d, patches, (n - 1) as nat), patches[n - 1].0 as int, patches[n - 1].1)
    }
}

/// The `n` bytes at `off`, least significant first.
pub open spec fn le_value(d: Seq<u8>, off: int, n: nat) -> u32
    decreases n,
{
    if n == 0 {
        0
    } else {
        le_value(d, off, (n - 1) as nat) | ((d[off + n - 1] as u32) << (8 * (n - 1)) as u32)
    }
}

/// Byte `i` of the placeholder image.
pub open spec fn dummy_byte(i: int) -> u8 {
    (0x7BAD_B105u32 >> ((i % 4) * 2) as u32) as u8
}

/// Every patch writes a whole word inside an image.
pub open spec fn patches_fit(patches: Seq<(u32, u32)>) -> bool {
    forall|i: int| 0 <= i < patches.len() ==> patches[i].0 + 4 <= BIOS_SIZE
}

impl Metadata {
    /// The hook and the patches lie inside an image.
    pub open spec fn wf(&self) -> bool {
        &&& (self.animation_jump_hook matches Some(h) ==> h + 4 <= BIOS_SIZE)
        &&& (self.patch_debug_uart matches Some(p) ==> patches_fit(p@))
    }
}

/// The metadata of the placeholder image: unknown, known bad, nothing to patch.
pub fn dummy_metadata() -> (r: Metadata)
    ensures
        r.wf(),
        r.sha256@ == Seq::new(32, |i: int| 0xffu8),
        r.version_major == 0,
        r.version_minor == 0,
        r.region == Region::NorthAmerica,
        r.known_bad,
        r.animation_jump_hook is None,
        r.patch_debug_uart is None,
{
    let r = Metadata {
        sha256: [0xff; 32],
        version_major: 0,
        version_minor: 0,
        region: Region::NorthAmerica,
        known_bad: true,
        animation_jump_hook: None,
        patch_debug_uart: None,
    };
    assert(r.sha256@ =~= Seq::new(32, |i: int| 0xffu8));
    r
}

pub struct Bios {
    data: Vec<u8>,
    metadata: Metadata,
}

impl Bios {
    pub closed spec fn bytes(&self) -> Seq<u8> {
        self.data@
    }

    pub closed spec fn spec_metadata(&self) -> &Metadata {
        &self.metadata
    }

    /// The image has its full size and its metadata fits it.
    pub closed spec fn wf(&self) -> bool {
        self.data@.len() == BIOS_SIZE && self.metadata.wf()
    }

    /// A well-formed image has the full size and metadata that fits it.
    pub proof fn lemma_wf(&self)
        requires
            self.wf(),
        ensures
            self.bytes().len() == BIOS_SIZE,
            self.spec_metadata().wf(),
    {
    }

    /// An image with its metadata (the entry that its digest names), or
    /// `None` when there is no such entry or the image has the wrong size.
    pub fn new(binary: Vec<u8>, metadata: Option<Metadata>) -> (r: Option<Bios>)
        ensures
            r is Some <==> (binary@.len() == BIOS_SIZE && (metadata matches Some(m) && m.wf())),
            r matches Some(b) ==> b.wf() && b.bytes() == binary@ && Some(*b.spec_metadata())
                == metadata,
    {
        if binary.len() != BIOS_SIZE {
            return None;
        }
        match metadata {
            Some(m) => {
                if !metadata_fits(&m) {
                    return None;
                }
                Some(Bios { data: binary, metadata: m })
            },
            None => None,
        }
    }

    /// A placeholder image filled with a recognisable pattern.
    pub fn dummy() -> (r: Bios)
        ensures
            r.wf(),
            forall|i: int| 0 <= i < BIOS_SIZE ==> #[trigger] r.bytes()[i] == dummy_byte(i),
            r.spec_metadata().known_bad,
            r.spec_metadata().animation_jump_hook is None,
            r.spec_metadata().patch_debug_uart is None,
            r.spec_metadata().region == Region::NorthAmerica,
    {
        let mut data: Vec<u8> = Vec::new();
        let mut i: usize = 0;
        while i < BIOS_SIZE
            invariant
                i <= BIOS_SIZE,
                data@.len() == i,
                forall|j: int| 0 <= j < i ==> #[trigger] data@[j] == dummy_byte(j),
            decreases BIOS_SIZE - i,
        {
            data.push((0x7BAD_B105u32 >> (((i % 4) * 2) as u32)) as u8);
            i = i + 1;
        }
        Bios { data, metadata: dummy_metadata() }
    }

    /// Replaces the jump to the boot animation with a no-op.
    pub fn patch_boot_animation(&mut self) -> (r: Result<(), ()>)
        requires
            old(self).wf(),
        ensures
            final(self).wf(),
            *final(self).spec_metadata() == *old(self).spec_metadata(),
            match old(self).spec_metadata().animation_jump_hook {
                Some(h) => r is Ok && final(self).bytes() == write_word(old(self).bytes(), h as int, 0),
                None => r is Err && final(self).bytes() == old(self).bytes(),
            },
    {
        self.patch_animation_jump_hook(0)
    }

    /// Writes `instruction` over the jump to the boot animation, where the image has one.
    pub fn patch_animation_jump_hook(&mut self, instruction: u32) -> (r: Result<(), ()>)
        requires
            old(self).wf(),
        ensures
            final(self).wf(),
            *final(self).spec_metadata() == *old(self).spec_metadata(),
            match old(self).spec_metadata().animation_jump_hook {
                Some(h) => r is Ok && final(self).bytes() == write_word(
                    old(self).bytes(),
                    h as int,
                    instruction,
                ),
                None => r is Err && final(self).bytes() == old(self).bytes(),
            },
    {
        match self.metadata.animation_jump_hook {
            Some(h) => {
                self.write_word_at(h as usize, instruction);
                Ok(())
            },
            None => Err(()),
        }
    }

    fn write_word_at(&mut self, off: usize, w: u32)
        requires
            old(self).wf(),
            off + 4 <= BIOS_SIZE,
        ensures
            final(self).wf(),
            final(self).metadata == old(self).metadata,
            final(self).data@ == write_word(old(self).data@, off as int, w),
    {
        self.data.set(off, w as u8);
        self.data.set(off + 1, (w >> 8u32) as u8);
        self.data.set(off + 2, (w >> 16u32) as u8);
        self.data.set(off + 3, (w >> 24u32) as u8);
    }

    /// Applies the image's debug UART patch, where it has one.
    pub fn enable_debug_uart(&mut self) -> (r: Result<(), ()>)
        requires
            old(self).wf(),
        ensures
            final(self).wf(),
            *final(self).spec_metadata() == *old(self).spec_metadata(),
            match old(self).spec_metadata().patch_debug_uart {
                Some(p) => r is Ok && final(self).bytes() == apply_patches(
                    old(self).bytes(),
                    p@,
                    p@.len(),
                ),
                None => r is Err && final(self).bytes() == old(self).bytes(),
            },
    {
        let n = match &self.metadata.patch_debug_uart {
            Some(p) => p.len(),
            None => {
                return Err(());
            },
        };
        let ghost patches = self.metadata.patch_debug_uart->Some_0@;
        let ghost start = self.data@;
        let mut i: usize = 0;
        while i < n
            invariant
                self.wf(),
                i <= n,
                self.metadata == old(self).metadata,
                (self.metadata.patch_debug_uart matches Some(p) && p@ == patches && p@.len() == n),
                self.data@ == apply_patches(start, patches, i as nat),
            decreases n - i,
        {
            let (off, w) = match &self.metadata.patch_debug_uart {
                Some(p) => p[i],
                None => (0, 0),
            };
            assert(off + 4 <= BIOS_SIZE);
            self.write_word_at(off as usize, w);
            i = i + 1;
        }
        Ok(())
    }

    /// The `T::size()` bytes at `offset`, least significant first.
    pub fn load<T: Addressable>(&self, offset: u32) -> (r: u32)
        requires
            self.wf(),
            offset + T::spec_size() <= BIOS_SIZE,
        ensures
            r == le_value(self.bytes(), offset as int, T::spec_size()),
    {
        let offset = offset as usize;
        let size = T::size() as usize;
        let mut r: u32 = 0;
        let mut i: usize = 0;
        while i < size
            invariant
                i <= size,
                size == T::spec_size(),
                1 <= size <= 4,
                offset + size <= BIOS_SIZE,
                self.data@.len() == BIOS_SIZE,
                r == le_value(self.data@, offset as int, i as nat),
            decreases size - i,
        {
            r = r | ((self.data[offset + i] as u32) << ((8 * i) as u32));
            i = i + 1;
        }
        r
    }

    pub fn metadata(&self) -> (r: &Metadata)
        ensures
            r == self.spec_metadata(),
    {
        &self.metadata
    }
}

/// The jump hook and the patches of `m` lie inside an image.
fn metadata_fits(m: &Metadata) -> (r: bool)
    ensures
        r == m.wf(),
{
    match m.animation_jump_hook {
        Some(h) => {
            if h as usize > BIOS_SIZE - 4 {
                return false;
            }
        },
        None => {},
    }
    match &m.patch_debug_uart {
        Some(p) => {
            let mut i: usize = 0;
            while i < p.len()
                invariant
                    i <= p@.len(),
                    (m.patch_debug_uart matches Some(q) && q@ == p@),
                    forall|j: int| 0 <= j < i ==> p@[j].0 + 4 <= BIOS_SIZE,
                decreases p@.len() - i,
            {
                if p[i].0 as usize > BIOS_SIZE - 4 {
                    assert(!patches_fit(p@)) by {
                        assert(!(p@[i as int].0 + 4 <= BIOS_SIZE));
                    }
                    return false;
                }
                i = i + 1;
            }
            true
        },
        None => true,
    }
}

} // verus!
