use vc4::bo::{Allocation, BoKind};
use vc4::bringup::{init, BringUp, Finding, Framebuffer, Probe, BINNER_BYTES};
use vc4::device::GpuDevice;
use vc4::error::BringUpFailure;

const FB_PHYSICAL: usize = 0x3E00_0000;
const FB_MAPPED: usize = 0xFFFF_0000_3E00_0000;
const FB_BYTES: usize = 1920 * 1080 * 4;

fn framebuffer() -> Framebuffer {
    Framebuffer { physical_address: FB_PHYSICAL, mapped_address: FB_MAPPED, screen_size: FB_BYTES }
}

/// Runs a bring-up against a firmware whose memory handle `hit` leads to the framebuffer.
fn bring_up_with_framebuffer_at(hit: u32) -> (BringUp, Vec<Probe>) {
    let mut asked = Vec::new();
    let mut bring_up = BringUp::begin();
    loop {
        let probe = bring_up.request();
        asked.push(probe);
        let finding = match probe {
            Probe::PowerOn => Finding::Power(true),
            Probe::ReadRegister { offset } => {
                assert_eq!(offset, 0);
                Finding::Register(0x0244_3356)
            }
            Probe::QueryFramebuffer => Finding::Framebuffer(Some(framebuffer())),
            Probe::ResolveMemoryHandle { id } => {
                if id == hit {
                    Finding::MemoryHandle(Some(FB_PHYSICAL as u32))
                } else if id % 2 == 0 {
                    Finding::MemoryHandle(None)
                } else {
                    Finding::MemoryHandle(Some(0x1000 * id))
                }
            }
            Probe::Allocate { .. } => Finding::Memory(Some(Allocation {
                physical_address: 0x0100_0000,
                mapped_address: 0xFFFF_0000_0100_0000,
            })),
            Probe::Release { .. } => Finding::Power(false),
            Probe::Install | Probe::Abort(_) => return (bring_up, asked),
        };
        bring_up.step(finding);
    }
}

#[test]
fn bring_up_binds_framebuffer_at_handle_3() {
    let (bring_up, asked) = bring_up_with_framebuffer_at(3);
    assert_eq!(
        asked,
        vec![
            Probe::PowerOn,
            Probe::ReadRegister { offset: 0 },
            Probe::QueryFramebuffer,
            Probe::ResolveMemoryHandle { id: 1 },
            Probe::ResolveMemoryHandle { id: 2 },
            Probe::ResolveMemoryHandle { id: 3 },
            Probe::Allocate { bytes: 524288 },
            Probe::Install,
        ]
    );
    let device = bring_up.finish().expect("a device");
    assert_eq!(device.framebuffer(), 3);
    assert_eq!(device.binner(), 4);
    assert_eq!(device.len(), 2);
    assert_eq!(device.upcoming(), 5);
    assert!(device.is_idle());
    let fb = device.lookup(3).unwrap();
    assert_eq!(fb.size as usize, FB_BYTES);
    assert_eq!(fb.handle, 3);
    assert_eq!(fb.physical_address as usize, FB_PHYSICAL);
    assert_eq!(fb.mapped_address, FB_MAPPED);
    assert_eq!(fb.kind, BoKind::Framebuffer);
    let binner = device.lookup(4).unwrap();
    assert_eq!(binner.size, 524288);
    assert_eq!(binner.size, BINNER_BYTES);
    assert_eq!(binner.handle, 4);
    assert_eq!(binner.physical_address, 0x0100_0000);
    assert_eq!(binner.kind, BoKind::Binner);
}

#[test]
fn bring_up_takes_the_first_matching_memory_handle() {
    let (bring_up, asked) = bring_up_with_framebuffer_at(1);
    assert_eq!(asked[3], Probe::ResolveMemoryHandle { id: 1 });
    assert_eq!(asked[4], Probe::Allocate { bytes: 524288 });
    let device = bring_up.finish().unwrap();
    assert_eq!(device.framebuffer(), 1);
    assert_eq!(device.binner(), 2);
    assert_eq!(device.upcoming(), 3);
}

#[test]
fn bring_up_without_framebuffer_installs_nothing() {
    let mut bring_up = BringUp::begin();
    let mut asked = Vec::new();
    asked.push(bring_up.request());
    bring_up.step(Finding::Power(true));
    asked.push(bring_up.request());
    bring_up.step(Finding::Register(0x0244_3356));
    asked.push(bring_up.request());
    bring_up.step(Finding::Framebuffer(None));
    asked.push(bring_up.request());
    bring_up.step(Finding::Memory(Some(Allocation { physical_address: 0x1000, mapped_address: 0x1000 })));
    asked.push(bring_up.request());
    assert_eq!(
        asked,
        vec![
            Probe::PowerOn,
            Probe::ReadRegister { offset: 0 },
            Probe::QueryFramebuffer,
            Probe::Abort(BringUpFailure::NoFramebuffer),
            Probe::Abort(BringUpFailure::NoFramebuffer),
        ]
    );
    assert!(asked.iter().all(|p| !matches!(p, Probe::Allocate { .. })));
    let mut slot: Option<GpuDevice> = None;
    assert!(!init(&mut slot, bring_up));
    assert!(slot.is_none());
}

#[test]
fn bring_up_fails_when_power_on_fails() {
    let mut bring_up = BringUp::begin();
    bring_up.step(Finding::Power(false));
    assert_eq!(bring_up.request(), Probe::Abort(BringUpFailure::PowerOnFailed));
    assert!(bring_up.finish().is_none());
}

#[test]
fn bring_up_fails_on_wrong_identification() {
    let mut bring_up = BringUp::begin();
    bring_up.step(Finding::Power(true));
    bring_up.step(Finding::Register(0x0244_3357));
    assert_eq!(bring_up.request(), Probe::Abort(BringUpFailure::IdentMismatch));
    bring_up.step(Finding::Register(0x0244_3356));
    assert_eq!(bring_up.request(), Probe::Abort(BringUpFailure::IdentMismatch));
}

#[test]
fn bring_up_fails_when_no_memory_handle_matches() {
    let (bring_up, asked) = bring_up_with_framebuffer_at(5);
    assert_eq!(
        asked,
        vec![
            Probe::PowerOn,
            Probe::ReadRegister { offset: 0 },
            Probe::QueryFramebuffer,
            Probe::ResolveMemoryHandle { id: 1 },
            Probe::ResolveMemoryHandle { id: 2 },
            Probe::ResolveMemoryHandle { id: 3 },
            Probe::ResolveMemoryHandle { id: 4 },
            Probe::Abort(BringUpFailure::NoFramebuffer),
        ]
    );
    assert!(bring_up.finish().is_none());
}

#[test]
fn bring_up_rejects_a_framebuffer_that_cannot_be_bound() {
    for fb in [
        Framebuffer { physical_address: 0x1000, mapped_address: 0x1000, screen_size: 0 },
        Framebuffer { physical_address: 0xFFFF_F000, mapped_address: 0x1000, screen_size: 0x1000 },
    ] {
        let mut bring_up = BringUp::begin();
        bring_up.step(Finding::Power(true));
        bring_up.step(Finding::Register(0x0244_3356));
        bring_up.step(Finding::Framebuffer(Some(fb)));
        assert_eq!(bring_up.request(), Probe::Abort(BringUpFailure::NoFramebuffer));
    }
}

fn bring_up_until_binner() -> BringUp {
    let mut bring_up = BringUp::begin();
    bring_up.step(Finding::Power(true));
    bring_up.step(Finding::Register(0x0244_3356));
    bring_up.step(Finding::Framebuffer(Some(framebuffer())));
    bring_up.step(Finding::MemoryHandle(Some(FB_PHYSICAL as u32)));
    assert_eq!(bring_up.request(), Probe::Allocate { bytes: 524288 });
    bring_up
}

#[test]
fn bring_up_fails_without_binner_memory() {
    let mut bring_up = bring_up_until_binner();
    bring_up.step(Finding::Memory(None));
    assert_eq!(bring_up.request(), Probe::Abort(BringUpFailure::BinnerAllocationFailed));
    let mut slot: Option<GpuDevice> = None;
    assert!(!init(&mut slot, bring_up));
    assert!(slot.is_none());
}

#[test]
fn bring_up_hands_back_binner_memory_it_cannot_use() {
    let mut bring_up = bring_up_until_binner();
    bring_up.step(Finding::Memory(Some(Allocation {
        physical_address: 0xFFFF_0000,
        mapped_address: 0x1000,
    })));
    assert_eq!(bring_up.request(), Probe::Release { physical_address: 0xFFFF_0000 });
    bring_up.step(Finding::Power(true));
    assert_eq!(bring_up.request(), Probe::Abort(BringUpFailure::BinnerAllocationFailed));
}

#[test]
fn init_installs_a_complete_device() {
    let (bring_up, _) = bring_up_with_framebuffer_at(3);
    let mut slot: Option<GpuDevice> = None;
    assert!(init(&mut slot, bring_up));
    let device = slot.expect("installed");
    assert_eq!(device.framebuffer(), 3);
    assert_eq!(device.binner(), 4);
}

#[test]
fn init_keeps_the_installed_device_when_bring_up_failed() {
    let (bring_up, _) = bring_up_with_framebuffer_at(2);
    let mut slot: Option<GpuDevice> = None;
    assert!(init(&mut slot, bring_up));
    let mut failed = BringUp::begin();
    failed.step(Finding::Power(false));
    assert!(!init(&mut slot, failed));
    assert_eq!(slot.as_ref().map(|d| d.framebuffer()), Some(2));
}
