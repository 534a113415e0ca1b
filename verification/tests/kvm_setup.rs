use minihype::kvm::{
    request_code, request_code_checked, Action, CodeSegment, Event, GuestRegs, IoctlArg, KvmRequest,
    KvmSetup, MemoryRegion, Phase, SetupError, GUEST_CODE, GUEST_PHYS_ADDR, KVM_VERSION, VM_MEMORY,
};

#[test]
fn request_codes_match_the_kvm_header() {
    assert_eq!(request_code(KvmRequest::GetApiVersion), 0xAE00);
    assert_eq!(request_code(KvmRequest::CreateVm), 0xAE01);
    assert_eq!(request_code(KvmRequest::GetVcpuMmapSize), 0xAE04);
    assert_eq!(request_code(KvmRequest::CreateVcpu), 0xAE41);
    assert_eq!(request_code(KvmRequest::SetUserMemoryRegion), 0x4020AE46);
    assert_eq!(request_code(KvmRequest::Run), 0xAE80);
    assert_eq!(request_code(KvmRequest::SetRegs), 0x4090AE82);
    assert_eq!(request_code(KvmRequest::GetSregs), 0x8138AE83);
    assert_eq!(request_code(KvmRequest::SetSregs), 0x4138AE84);
}

#[test]
fn checked_request_code_agrees() {
    let all = [
        KvmRequest::GetApiVersion,
        KvmRequest::CreateVm,
        KvmRequest::GetVcpuMmapSize,
        KvmRequest::CreateVcpu,
        KvmRequest::SetUserMemoryRegion,
        KvmRequest::Run,
        KvmRequest::SetRegs,
        KvmRequest::GetSregs,
        KvmRequest::SetSregs,
    ];
    for r in all {
        assert_eq!(request_code_checked(r), Some(request_code(r)));
    }
    for (i, a) in all.iter().enumerate() {
        for b in all.iter().skip(i + 1) {
            assert_ne!(request_code(*a), request_code(*b));
        }
    }
}

fn ioctl(fd: i32, request: KvmRequest, arg: IoctlArg) -> Action {
    Action::Ioctl { fd, request, arg }
}

#[test]
fn full_bring_up_until_halt() {
    let (mut s, a) = KvmSetup::new(3);
    assert_eq!(a, ioctl(3, KvmRequest::GetApiVersion, IoctlArg::Zero));
    assert_eq!(s.step(Event::Returned(KVM_VERSION)), ioctl(3, KvmRequest::CreateVm, IoctlArg::Zero));
    assert_eq!(s.step(Event::Returned(4)), ioctl(4, KvmRequest::CreateVcpu, IoctlArg::Zero));
    assert_eq!(s.step(Event::Returned(5)), Action::MapGuestMemory { len: VM_MEMORY });
    assert_eq!(VM_MEMORY, 8192);
    assert_eq!(
        s.step(Event::Mapped(Some(0x7000_0000))),
        Action::LoadCode { addr: 0x7000_0000, byte: 0xF4 }
    );
    assert_eq!(
        s.step(Event::CodeLoaded),
        ioctl(
            4,
            KvmRequest::SetUserMemoryRegion,
            IoctlArg::Region(MemoryRegion {
                slot: 0,
                flags: 0,
                guest_phys_addr: 4096,
                memory_size: 8192,
                userspace_addr: 0x7000_0000,
            })
        )
    );
    assert_eq!(
        s.step(Event::Returned(0)),
        ioctl(5, KvmRequest::SetRegs, IoctlArg::Regs(GuestRegs { rip: 4096, rflags: 0x2 }))
    );
    assert_eq!(s.step(Event::Returned(0)), ioctl(5, KvmRequest::GetSregs, IoctlArg::ReadSregs));
    assert_eq!(
        s.step(Event::Returned(0)),
        ioctl(5, KvmRequest::SetSregs, IoctlArg::WriteSregs(CodeSegment { base: 0, selector: 0 }))
    );
    assert_eq!(s.step(Event::Returned(0)), ioctl(3, KvmRequest::GetVcpuMmapSize, IoctlArg::Zero));
    assert_eq!(s.step(Event::Returned(12288)), Action::MapRunArea { fd: 5, len: 12288 });
    assert_eq!(s.step(Event::Mapped(Some(0x7100_0000))), ioctl(5, KvmRequest::Run, IoctlArg::Zero));
    // An I/O exit runs again.
    assert_eq!(
        s.step(Event::RunExit { ret: 0, exit_reason: 2 }),
        ioctl(5, KvmRequest::Run, IoctlArg::Zero)
    );
    // A failed run is reported but the loop goes on.
    assert_eq!(
        s.step(Event::RunExit { ret: -1, exit_reason: 0 }),
        ioctl(5, KvmRequest::Run, IoctlArg::Zero)
    );
    assert_eq!(s.phase, Phase::Run);
    assert_eq!(s.step(Event::RunExit { ret: 0, exit_reason: 5 }), Action::Finish);
    assert_eq!(s.phase, Phase::Halted);
    assert_eq!(s.vm_fd, 4);
    assert_eq!(s.vcpu_fd, 5);
    assert_eq!(s.guest_memory, 0x7000_0000);
    assert_eq!(s.run_size, 12288);
}

#[test]
fn guest_entry_is_where_the_code_is() {
    assert_eq!(GUEST_CODE, 0xF4);
    assert_eq!(GUEST_PHYS_ADDR, 4096);
}

#[test]
fn version_error_stops() {
    let (mut s, _) = KvmSetup::new(3);
    assert_eq!(s.step(Event::Returned(-1)), Action::Fail(SetupError::Os(Phase::CheckVersion)));
    assert_eq!(s.phase, Phase::Failed);
}

#[test]
fn other_version_is_refused() {
    let (mut s, _) = KvmSetup::new(3);
    assert_eq!(s.step(Event::Returned(11)), Action::Fail(SetupError::UnsupportedVersion(11)));
    assert_eq!(s.phase, Phase::Failed);
    let (mut s, _) = KvmSetup::new(3);
    assert_eq!(s.step(Event::Returned(0)), Action::Fail(SetupError::UnsupportedVersion(0)));
}

fn at(phase: Phase) -> KvmSetup {
    KvmSetup { phase, kvm_fd: 3, vm_fd: 4, vcpu_fd: 5, guest_memory: 0x1000, run_size: 0 }
}

#[test]
fn negative_descriptor_fails_its_step() {
    for p in [Phase::CreateVm, Phase::CreateVcpu, Phase::GetVcpuMmapSize] {
        let mut s = at(p);
        assert_eq!(s.step(Event::Returned(-1)), Action::Fail(SetupError::Os(p)));
        assert_eq!(s.phase, Phase::Failed);
    }
}

#[test]
fn nonzero_status_fails_its_step() {
    for p in [Phase::SetMemoryRegion, Phase::SetRegs, Phase::GetSregs, Phase::SetSregs] {
        let mut s = at(p);
        assert_eq!(s.step(Event::Returned(1)), Action::Fail(SetupError::Os(p)));
        let mut s = at(p);
        assert_eq!(s.step(Event::Returned(-1)), Action::Fail(SetupError::Os(p)));
    }
}

#[test]
fn failed_mapping_fails_its_step() {
    for p in [Phase::MapGuestMemory, Phase::MapRunArea] {
        let mut s = at(p);
        assert_eq!(s.step(Event::Mapped(None)), Action::Fail(SetupError::Os(p)));
        assert_eq!(s.phase, Phase::Failed);
    }
}

#[test]
fn zero_descriptor_is_valid() {
    let mut s = at(Phase::CreateVm);
    assert_eq!(s.step(Event::Returned(0)), ioctl(0, KvmRequest::CreateVcpu, IoctlArg::Zero));
    assert_eq!(s.vm_fd, 0);
}
