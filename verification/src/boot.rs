//! Boot context resolution: validating the facts handed over by the boot
//! stage and extracting the fields every later bootstrap step depends on.
//!
//! The boot record arrives from the boot protocol as plain values; the
//! resolver either produces a validated [`BootContext`] or fails with the
//! first missing resource, in which case no later bootstrap step may run.

use vstd::prelude::*;

verus! {

/// Classification of a physical memory region reported by the boot stage.
#[derive(PartialEq, Eq, Structural, Clone, Copy, Debug)]
pub enum RegionKind {
    Usable,
    Reserved,
    Other,
}

/// One physical memory region: the half-open address range
/// `[start, end)` and its kind.
#[derive(PartialEq, Eq, Structural, Clone, Copy, Debug)]
pub struct MemoryRegion {
    pub start: u64,
    pub end: u64,
    pub kind: RegionKind,
}

/// Pixel layout of the framebuffer reported by the boot stage.
#[derive(PartialEq, Eq, Structural, Clone, Copy, Debug)]
pub enum PixelFormat {
    Rgb,
    Bgr,
    Grayscale,
    Unknown,
}

/// The framebuffer descriptor: where the pixel buffer sits and how it is
/// laid out.
#[derive(PartialEq, Eq, Structural, Clone, Copy, Debug)]
pub struct FramebufferInfo {
    pub base: u64,
    pub width: usize,
    pub height: usize,
    pub stride: usize,
    pub bytes_per_pixel: usize,
    pub pixel_format: PixelFormat,
}

/// The required boot resources, named when one of them is missing.
#[derive(PartialEq, Eq, Structural, Clone, Copy, Debug)]
pub enum BootField {
    Framebuffer,
    PhysicalOffset,
    UsableRegion,
    AcpiPointer,
}

/// The fatal conditions of the bootstrap sequence.  None of them is
/// recovered from: the boot halts with a diagnostic.
#[derive(PartialEq, Eq, Structural, Clone, Copy, Debug)]
pub enum BootError {
    /// A required boot resource was absent from the boot record.
    MissingBootResource(BootField),
    /// Programming the descriptor tables or the interrupt controller
    /// failed; there is no alternate interrupt-delivery path.
    HardwareConfigurationFailure,
}

/// The raw facts handed over by the boot protocol, before validation.
/// Any of the four required resources may be absent.
#[derive(PartialEq, Eq, Clone, Debug)]
pub struct BootRecord {
    pub framebuffer: Option<FramebufferInfo>,
    pub regions: Vec<MemoryRegion>,
    pub physical_memory_offset: Option<u64>,
    pub rsdp_addr: Option<u64>,
}

/// The validated boot facts: every required resource is present, and the
/// usable region later bootstrap steps allocate from has been selected.
/// Created once and immutable thereafter.
#[derive(PartialEq, Eq, Clone, Debug)]
pub struct BootContext {
    pub framebuffer: FramebufferInfo,
    pub regions: Vec<MemoryRegion>,
    pub physical_memory_offset: u64,
    pub usable: MemoryRegion,
    pub rsdp_addr: u64,
}

/// The last region of kind `Usable` in the sequence, if any.
pub open spec fn find_last_usable(s: Seq<MemoryRegion>) -> Option<MemoryRegion>
    decreases s.len(),
{
    if s.len() == 0 {
        None
    } else if s.last().kind == RegionKind::Usable {
        Some(s.last())
    } else {
        find_last_usable(s.drop_last())
    }
}

/// `find_last_usable` yields a region exactly when the sequence holds a
/// usable one, and the region it yields is the last usable one.
pub proof fn lemma_find_last_usable(s: Seq<MemoryRegion>)
    ensures
        find_last_usable(s) is Some <==> exists|i: int|
            0 <= i < s.len() && s[i].kind == RegionKind::Usable,
        find_last_usable(s) matches Some(r) ==> exists|i: int|
            {
                &&& 0 <= i < s.len()
                &&& s[i] == r
                &&& r.kind == RegionKind::Usable
                &&& forall|j: int| i < j < s.len() ==> s[j].kind != RegionKind::Usable
            },
    decreases s.len(),
{
    if s.len() == 0 {
    } else if s.last().kind == RegionKind::Usable {
        assert(s[s.len() - 1].kind == RegionKind::Usable);
    } else {
        lemma_find_last_usable(s.drop_last());
        let t = s.drop_last();
        assert forall|i: int| 0 <= i < t.len() implies s[i] == t[i] by {}
        if find_last_usable(s) is Some {
            let r = find_last_usable(s)->Some_0;
            let i = choose|i: int|
                0 <= i < t.len() && t[i] == r && r.kind == RegionKind::Usable && forall|j: int|
                    i < j < t.len() ==> t[j].kind != RegionKind::Usable;
            assert(forall|j: int| i < j < s.len() ==> s[j].kind != RegionKind::Usable);
        }
        if exists|i: int| 0 <= i < s.len() && s[i].kind == RegionKind::Usable {
            let i = choose|i: int| 0 <= i < s.len() && s[i].kind == RegionKind::Usable;
            assert(i < t.len() && t[i].kind == RegionKind::Usable);
        }
    }
}

/// Scan the memory map for the last usable region, which the physical
/// memory bootstrap allocates frames from.
pub fn last_usable_region(regions: &Vec<MemoryRegion>) -> (r: Option<MemoryRegion>)
    ensures
        r == find_last_usable(regions@),
{
    let mut i: usize = regions.len();
    proof {
        assert(regions@.take(i as int) =~= regions@);
    }
    while i > 0
        invariant
            i <= regions@.len(),
            find_last_usable(regions@) == find_last_usable(regions@.take(i as int)),
        decreases i,
    {
        i = i - 1;
        if regions[i].kind == RegionKind::Usable {
            proof {
                assert(regions@.take(i + 1).last() == regions@[i as int]);
            }
            return Some(regions[i]);
        }
        proof {
            assert(regions@.take(i + 1).drop_last() =~= regions@.take(i as int));
        }
    }
    proof {
        assert(regions@.take(0).len() == 0);
    }
    None
}

/// Validate the boot record: either every required resource is present
/// and a [`BootContext`] is produced, or the first absent resource is
/// reported as `MissingBootResource` and the boot must halt.  Resources
/// are checked in a fixed order: framebuffer, usable memory region,
/// physical memory offset, ACPI root pointer.
pub fn resolve(record: BootRecord) -> (res: Result<BootContext, BootError>)
    ensures
        record.framebuffer is None ==> res == Err::<BootContext, BootError>(
            BootError::MissingBootResource(BootField::Framebuffer),
        ),
        record.framebuffer is Some && find_last_usable(record.regions@) is None ==> res == Err::<
            BootContext,
            BootError,
        >(BootError::MissingBootResource(BootField::UsableRegion)),
        record.framebuffer is Some && find_last_usable(record.regions@) is Some
            && record.physical_memory_offset is None ==> res == Err::<BootContext, BootError>(
            BootError::MissingBootResource(BootField::PhysicalOffset),
        ),
        record.framebuffer is Some && find_last_usable(record.regions@) is Some
            && record.physical_memory_offset is Some && record.rsdp_addr is None ==> res == Err::<
            BootContext,
            BootError,
        >(BootError::MissingBootResource(BootField::AcpiPointer)),
        record.framebuffer is Some && find_last_usable(record.regions@) is Some
            && record.physical_memory_offset is Some && record.rsdp_addr is Some ==> (res matches Ok(ctx)
            && ctx == (BootContext {
            framebuffer: record.framebuffer->Some_0,
            regions: record.regions,
            physical_memory_offset: record.physical_memory_offset->Some_0,
            usable: find_last_usable(record.regions@)->Some_0,
            rsdp_addr: record.rsdp_addr->Some_0,
        })),
        res is Ok <==> record.framebuffer is Some && find_last_usable(record.regions@) is Some
            && record.physical_memory_offset is Some && record.rsdp_addr is Some,
{
    let framebuffer = match record.framebuffer {
        Some(f) => f,
        None => {
            return Err(BootError::MissingBootResource(BootField::Framebuffer));
        },
    };
    let usable = match last_usable_region(&record.regions) {
        Some(u) => u,
        None => {
            return Err(BootError::MissingBootResource(BootField::UsableRegion));
        },
    };
    let physical_memory_offset = match record.physical_memory_offset {
        Some(o) => o,
        None => {
            return Err(BootError::MissingBootResource(BootField::PhysicalOffset));
        },
    };
    let rsdp_addr = match record.rsdp_addr {
        Some(a) => a,
        None => {
            return Err(BootError::MissingBootResource(BootField::AcpiPointer));
        },
    };
    Ok(
        BootContext {
            framebuffer,
            regions: record.regions,
            physical_memory_offset,
            usable,
            rsdp_addr,
        },
    )
}

} // verus!
