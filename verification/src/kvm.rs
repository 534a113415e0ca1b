//! The KVM bring-up protocol: request numbers, and the decisions taken on
//! each result the host returns while a one-instruction guest is set up and
//! run until it halts.
use vstd::prelude::*;
use kvm_bindings::{kvm_regs, kvm_sregs, kvm_userspace_memory_region};
use crate::ioctl::{
    ioc_bits, ioc_dir_of, ioc_nr_of, ioc_size_of, ioc_type_of, lemma_ioc_fields_round_trip, _IOC_NONE,
    _IOC_READ, _IOC_WRITE,
};

verus! {

#[verifier::external_type_specification]
#[verifier::external_body]
pub struct ExKvmRegs(kvm_regs);

#[verifier::external_type_specification]
#[verifier::external_body]
pub struct ExKvmSregs(kvm_sregs);

#[verifier::external_type_specification]
#[verifier::external_body]
pub struct ExKvmUserspaceMemoryRegion(kvm_userspace_memory_region);

/// Reads `kvm_bindings::KVM_EXIT_HLT`, the exit reason that `KVM_RUN` leaves
/// in `kvm_run` when the guest executed `hlt`; the bindings define it as 5.
#[verifier::external_body]
fn kvm_exit_hlt() -> (r: u32)
    ensures
        r == 5,
{
    kvm_bindings::KVM_EXIT_HLT
}

/// Calls `libc::_IO`, which builds the request number of an ioctl without
/// argument: direction none, size zero. It debug-asserts that the type and
/// the number fit in eight bits.
#[verifier::external_body]
fn libc_io(ty: u32, nr: u32) -> (code: u64)
    requires
        ty < 256,
        nr < 256,
    ensures
        code == ioc_bits(_IOC_NONE, ty, nr, 0),
{
    libc::_IO(ty, nr)
}

/// Calls `libc::_IOR::<T>`, the request number of an ioctl through which the
/// driver fills a `T`: direction read, size `size_of::<T>()`. It debug-asserts
/// that type and number fit in eight bits and the size in fourteen.
#[verifier::external_body]
fn libc_ior<T>(ty: u32, nr: u32) -> (code: u64)
    requires
        ty < 256,
        nr < 256,
        vstd::layout::size_of::<T>() < 0x4000,
    ensures
        code == ioc_bits(_IOC_READ, ty, nr, vstd::layout::size_of::<T>() as u32),
{
    libc::_IOR::<T>(ty, nr)
}

/// Calls `libc::_IOW::<T>`, the request number of an ioctl through which the
/// driver reads a `T`: direction write, size `size_of::<T>()`. It debug-asserts
/// that type and number fit in eight bits and the size in fourteen.
#[verifier::external_body]
fn libc_iow<T>(ty: u32, nr: u32) -> (code: u64)
    requires
        ty < 256,
        nr < 256,
        vstd::layout::size_of::<T>() < 0x4000,
    ensures
        code == ioc_bits(_IOC_WRITE, ty, nr, vstd::layout::size_of::<T>() as u32),
{
    libc::_IOW::<T>(ty, nr)
}

/// The KVM API version this program is written against.
pub const KVM_VERSION: i32 = 12;
/// The ioctl type of every KVM request.
pub const KVMIO: u32 = 0xAE;
/// Bytes of guest memory: two blocks of 4 KiB.
pub const VM_MEMORY: u64 = 2 * 4096;
/// Guest physical address at which the guest memory is mapped; the guest
/// starts executing there.
pub const GUEST_PHYS_ADDR: u64 = 4096;
/// The whole guest program: a single `hlt`.
pub const GUEST_CODE: u8 = 0xF4;
/// The value of `rflags` the guest starts with (bit 1 is reserved as one).
pub const GUEST_RFLAGS: u64 = 0x2;

/// The KVM ioctls that the bring-up issues.
#[derive(Clone, Copy, Debug, PartialEq, Eq, Structural)]
pub enum KvmRequest {
    GetApiVersion,
    CreateVm,
    GetVcpuMmapSize,
    CreateVcpu,
    SetUserMemoryRegion,
    Run,
    SetRegs,
    GetSregs,
    SetSregs,
}

/// The command number of each request.
pub open spec fn request_nr(r: KvmRequest) -> u32 {
    match r {
        KvmRequest::GetApiVersion => 0x00,
        KvmRequest::CreateVm => 0x01,
        KvmRequest::GetVcpuMmapSize => 0x04,
        KvmRequest::CreateVcpu => 0x41,
        KvmRequest::SetUserMemoryRegion => 0x46,
        KvmRequest::Run => 0x80,
        KvmRequest::SetRegs => 0x82,
        KvmRequest::GetSregs => 0x83,
        KvmRequest::SetSregs => 0x84,
    }
}

/// The transfer direction of each request.
pub open spec fn request_dir(r: KvmRequest) -> u32 {
    match r {
        KvmRequest::SetUserMemoryRegion | KvmRequest::SetRegs | KvmRequest::SetSregs => _IOC_WRITE,
        KvmRequest::GetSregs => _IOC_READ,
        _ => _IOC_NONE,
    }
}

/// The size of the argument structure of each request.
pub open spec fn request_size(r: KvmRequest) -> nat {
    match r {
        KvmRequest::SetUserMemoryRegion => vstd::layout::size_of::<kvm_userspace_memory_region>(),
        KvmRequest::SetRegs => vstd::layout::size_of::<kvm_regs>(),
        KvmRequest::GetSregs | KvmRequest::SetSregs => vstd::layout::size_of::<kvm_sregs>(),
        _ => 0,
    }
}

/// The argument structure fits the fourteen-bit size field.
pub open spec fn request_size_fits(r: KvmRequest) -> bool {
    request_size(r) < 0x4000
}

/// The request number of each request.
pub open spec fn request_code_spec(r: KvmRequest) -> u64 {
    ioc_bits(request_dir(r), KVMIO, request_nr(r), request_size(r) as u32)
}

/// The ioctl request number of `r`, built by libc from `KVMIO`, the command
/// number and the argument structure's type.
pub fn request_code(r: KvmRequest) -> (code: u64)
    requires
        request_size_fits(r),
    ensures
        code == request_code_spec(r),
{
    match r {
        KvmRequest::GetApiVersion => libc_io(KVMIO, 0x00),
        KvmRequest::CreateVm => libc_io(KVMIO, 0x01),
        KvmRequest::GetVcpuMmapSize => libc_io(KVMIO, 0x04),
        KvmRequest::CreateVcpu => libc_io(KVMIO, 0x41),
        KvmRequest::SetUserMemoryRegion => libc_iow::<kvm_userspace_memory_region>(KVMIO, 0x46),
        KvmRequest::Run => libc_io(KVMIO, 0x80),
        KvmRequest::SetRegs => libc_iow::<kvm_regs>(KVMIO, 0x82),
        KvmRequest::GetSregs => libc_ior::<kvm_sregs>(KVMIO, 0x83),
        KvmRequest::SetSregs => libc_iow::<kvm_sregs>(KVMIO, 0x84),
    }
}

/// The request number of `r` when its argument structure fits the size
/// field, which it measures first; `None` otherwise.
pub fn request_code_checked(r: KvmRequest) -> (code: Option<u64>)
    ensures
        code == (if request_size_fits(r) {
            Some(request_code_spec(r))
        } else {
            None::<u64>
        }),
{
    let size: usize = match r {
        KvmRequest::SetUserMemoryRegion => core::mem::size_of::<kvm_userspace_memory_region>(),
        KvmRequest::SetRegs => core::mem::size_of::<kvm_regs>(),
        KvmRequest::GetSregs | KvmRequest::SetSregs => core::mem::size_of::<kvm_sregs>(),
        _ => 0,
    };
    if size < 0x4000 {
        Some(request_code(r))
    } else {
        None
    }
}

/// Every request is a KVM request, and no two requests share a number.
pub proof fn lemma_request_codes_distinct(r1: KvmRequest, r2: KvmRequest)
    requires
        request_size_fits(r1),
        request_size_fits(r2),
    ensures
        ioc_type_of(request_code_spec(r1)) == KVMIO,
        ioc_nr_of(request_code_spec(r1)) == request_nr(r1),
        ioc_dir_of(request_code_spec(r1)) == request_dir(r1),
        ioc_size_of(request_code_spec(r1)) == request_size(r1),
        r1 != r2 ==> request_code_spec(r1) != request_code_spec(r2),
{
    lemma_ioc_fields_round_trip(request_dir(r1), KVMIO, request_nr(r1), request_size(r1) as u32);
    lemma_ioc_fields_round_trip(request_dir(r2), KVMIO, request_nr(r2), request_size(r2) as u32);
}

/// The steps of the bring-up, in the order they are taken.
#[derive(Clone, Copy, Debug, PartialEq, Eq, Structural)]
pub enum Phase {
    /// Asking `/dev/kvm` for its API version.
    CheckVersion,
    /// Creating the VM.
    CreateVm,
    /// Creating the virtual CPU.
    CreateVcpu,
    /// Mapping host memory for the guest.
    MapGuestMemory,
    /// Copying the guest code into that memory.
    LoadCode,
    /// Registering the memory as guest physical memory.
    SetMemoryRegion,
    /// Setting the general registers.
    SetRegs,
    /// Reading the special registers.
    GetSregs,
    /// Writing the special registers back with a flat code segment.
    SetSregs,
    /// Asking for the size of the shared `kvm_run` area.
    GetVcpuMmapSize,
    /// Mapping the `kvm_run` area.
    MapRunArea,
    /// Running the guest until it halts.
    Run,
    /// The guest halted: done.
    Halted,
    /// A step failed: stopped.
    Failed,
}

/// Why the bring-up stopped.
#[derive(Clone, Copy, Debug, PartialEq, Eq, Structural)]
pub enum SetupError {
    /// The host call of this step failed; the OS error says why.
    Os(Phase),
    /// `/dev/kvm` speaks another API version than `KVM_VERSION`.
    UnsupportedVersion(i32),
}

/// The guest memory slot, as `kvm_userspace_memory_region` holds it.
#[derive(Clone, Copy, Debug, PartialEq, Eq, Structural)]
pub struct MemoryRegion {
    pub slot: u32,
    pub flags: u32,
    pub guest_phys_addr: u64,
    pub memory_size: u64,
    pub userspace_addr: u64,
}

/// The general registers to set; every other one of `kvm_regs` is zero.
#[derive(Clone, Copy, Debug, PartialEq, Eq, Structural)]
pub struct GuestRegs {
    pub rip: u64,
    pub rflags: u64,
}

/// The code segment to write into the special registers read before; the
/// other special registers are written back as they were read.
#[derive(Clone, Copy, Debug, PartialEq, Eq, Structural)]
pub struct CodeSegment {
    pub base: u64,
    pub selector: u16,
}

/// The argument an ioctl passes.
#[derive(Clone, Copy, Debug, PartialEq, Eq, Structural)]
pub enum IoctlArg {
    /// The integer zero.
    Zero,
    /// A memory region.
    Region(MemoryRegion),
    /// General registers.
    Regs(GuestRegs),
    /// A buffer for the special registers to be read into.
    ReadSregs,
    /// The special registers read before, with this code segment.
    WriteSregs(CodeSegment),
}

/// What the host is to do next.
#[derive(Clone, Copy, Debug, PartialEq, Eq, Structural)]
pub enum Action {
    /// Issue `request` on descriptor `fd` with `arg`; answer `Event::Returned`,
    /// or `Event::RunExit` for `KvmRequest::Run`.
    Ioctl { fd: i32, request: KvmRequest, arg: IoctlArg },
    /// Map `len` bytes of private anonymous read-write memory; answer
    /// `Event::Mapped`.
    MapGuestMemory { len: u64 },
    /// Write `byte` at host address `addr`; answer `Event::CodeLoaded`.
    LoadCode { addr: u64, byte: u8 },
    /// Map `len` bytes of `fd` shared, read-write; answer `Event::Mapped`.
    MapRunArea { fd: i32, len: u64 },
    /// Stop with this error.
    Fail(SetupError),
    /// Stop: the guest halted.
    Finish,
}

/// What the host reports back.
#[derive(Clone, Copy, Debug, PartialEq, Eq, Structural)]
pub enum Event {
    /// The ioctl returned this value.
    Returned(i32),
    /// The mapping starts at this address, or failed.
    Mapped(Option<u64>),
    /// The code was written.
    CodeLoaded,
    /// `KVM_RUN` returned `ret`, and `kvm_run` holds `exit_reason`.
    RunExit { ret: i32, exit_reason: u32 },
}

/// The state of the bring-up: the step it is at and what earlier steps
/// obtained.
#[derive(Clone, Copy, Debug, PartialEq, Eq, Structural)]
pub struct KvmSetup {
    pub phase: Phase,
    pub kvm_fd: i32,
    pub vm_fd: i32,
    pub vcpu_fd: i32,
    pub guest_memory: u64,
    pub run_size: u64,
}

/// The exit reason `KVM_RUN` reports when the guest executed `hlt`.
pub open spec fn exit_hlt() -> u32 {
    5
}

/// The memory region registered for the guest at host address `addr`.
pub open spec fn guest_region(addr: u64) -> MemoryRegion {
    MemoryRegion {
        slot: 0,
        flags: 0,
        guest_phys_addr: GUEST_PHYS_ADDR,
        memory_size: VM_MEMORY,
        userspace_addr: addr,
    }
}

/// The general registers the guest starts with.
pub open spec fn guest_regs() -> GuestRegs {
    GuestRegs { rip: GUEST_PHYS_ADDR, rflags: GUEST_RFLAGS }
}

/// The event each step waits for; the last two steps wait for none.
pub open spec fn expects(s: KvmSetup, e: Event) -> bool {
    match s.phase {
        Phase::MapGuestMemory | Phase::MapRunArea => e is Mapped,
        Phase::LoadCode => e is CodeLoaded,
        Phase::Run => e is RunExit,
        Phase::Halted | Phase::Failed => false,
        _ => e is Returned,
    }
}

/// Stop at the step `s` is at.
pub open spec fn fail_at(s: KvmSetup) -> (KvmSetup, Action) {
    (KvmSetup { phase: Phase::Failed, ..s }, Action::Fail(SetupError::Os(s.phase)))
}

/// Go on to step `p` with action `a`.
pub open spec fn go(s: KvmSetup, p: Phase, a: Action) -> (KvmSetup, Action) {
    (KvmSetup { phase: p, ..s }, a)
}

/// An ioctl without argument.
pub open spec fn bare(fd: i32, r: KvmRequest) -> Action {
    Action::Ioctl { fd, request: r, arg: IoctlArg::Zero }
}

/// The protocol: given the step and what the host reported, the next state
/// and what the host is to do. A call that yields a descriptor or a size
/// fails when it returns a negative value; one that only succeeds or fails
/// fails when it returns anything but zero.
pub open spec fn transition(s: KvmSetup, e: Event) -> (KvmSetup, Action) {
    match (s.phase, e) {
        (Phase::CheckVersion, Event::Returned(v)) => if v < 0 {
            fail_at(s)
        } else if v != KVM_VERSION {
            (KvmSetup { phase: Phase::Failed, ..s }, Action::Fail(SetupError::UnsupportedVersion(v)))
        } else {
            go(s, Phase::CreateVm, bare(s.kvm_fd, KvmRequest::CreateVm))
        },
        (Phase::CreateVm, Event::Returned(fd)) => if fd < 0 {
            fail_at(s)
        } else {
            (
                KvmSetup { phase: Phase::CreateVcpu, vm_fd: fd, ..s },
                bare(fd, KvmRequest::CreateVcpu),
            )
        },
        (Phase::CreateVcpu, Event::Returned(fd)) => if fd < 0 {
            fail_at(s)
        } else {
            (
                KvmSetup { phase: Phase::MapGuestMemory, vcpu_fd: fd, ..s },
                Action::MapGuestMemory { len: VM_MEMORY },
            )
        },
        (Phase::MapGuestMemory, Event::Mapped(m)) => match m {
            None => fail_at(s),
            Some(addr) => (
                KvmSetup { phase: Phase::LoadCode, guest_memory: addr, ..s },
                Action::LoadCode { addr, byte: GUEST_CODE },
            ),
        },
        (Phase::LoadCode, Event::CodeLoaded) => go(
            s,
            Phase::SetMemoryRegion,
            Action::Ioctl {
                fd: s.vm_fd,
                request: KvmRequest::SetUserMemoryRegion,
                arg: IoctlArg::Region(guest_region(s.guest_memory)),
            },
        ),
        (Phase::SetMemoryRegion, Event::Returned(r)) => if r != 0 {
            fail_at(s)
        } else {
            go(
                s,
                Phase::SetRegs,
                Action::Ioctl {
                    fd: s.vcpu_fd,
                    request: KvmRequest::SetRegs,
                    arg: IoctlArg::Regs(guest_regs()),
                },
            )
        },
        (Phase::SetRegs, Event::Returned(r)) => if r != 0 {
            fail_at(s)
        } else {
            go(
                s,
                Phase::GetSregs,
                Action::Ioctl {
                    fd: s.vcpu_fd,
                    request: KvmRequest::GetSregs,
                    arg: IoctlArg::ReadSregs,
                },
            )
        },
        (Phase::GetSregs, Event::Returned(r)) => if r != 0 {
            fail_at(s)
        } else {
            go(
                s,
                Phase::SetSregs,
                Action::Ioctl {
                    fd: s.vcpu_fd,
                    request: KvmRequest::SetSregs,
                    arg: IoctlArg::WriteSregs(CodeSegment { base: 0, selector: 0 }),
                },
            )
        },
        (Phase::SetSregs, Event::Returned(r)) => if r != 0 {
            fail_at(s)
        } else {
            go(s, Phase::GetVcpuMmapSize, bare(s.kvm_fd, KvmRequest::GetVcpuMmapSize))
        },
        (Phase::GetVcpuMmapSize, Event::Returned(size)) => if size < 0 {
            fail_at(s)
        } else {
            (
                KvmSetup { phase: Phase::MapRunArea, run_size: size as u64, ..s },
                Action::MapRunArea { fd: s.vcpu_fd, len: size as u64 },
            )
        },
        (Phase::MapRunArea, Event::Mapped(m)) => match m {
            None => fail_at(s),
            Some(_) => go(s, Phase::Run, bare(s.vcpu_fd, KvmRequest::Run)),
        },
        (Phase::Run, Event::RunExit { ret, exit_reason }) => if exit_reason == exit_hlt() {
            go(s, Phase::Halted, Action::Finish)
        } else {
            go(s, Phase::Run, bare(s.vcpu_fd, KvmRequest::Run))
        },
        _ => (s, Action::Finish),
    }
}

impl KvmSetup {
    /// Starts the bring-up on the open `/dev/kvm` descriptor `kvm_fd`: the
    /// first thing to do is to ask for the API version.
    pub fn new(kvm_fd: i32) -> (r: (KvmSetup, Action))
        ensures
            r.0 == (KvmSetup {
                phase: Phase::CheckVersion,
                kvm_fd,
                vm_fd: -1i32,
                vcpu_fd: -1i32,
                guest_memory: 0,
                run_size: 0,
            }),
            r.1 == bare(kvm_fd, KvmRequest::GetApiVersion),
    {
        (
            KvmSetup {
                phase: Phase::CheckVersion,
                kvm_fd,
                vm_fd: -1,
                vcpu_fd: -1,
                guest_memory: 0,
                run_size: 0,
            },
            Action::Ioctl { fd: kvm_fd, request: KvmRequest::GetApiVersion, arg: IoctlArg::Zero },
        )
    }

    fn fail(&mut self) -> (a: Action)
        ensures
            (*final(self), a) == fail_at(*old(self)),
    {
        let p = self.phase;
        self.phase = Phase::Failed;
        Action::Fail(SetupError::Os(p))
    }

    /// Takes the host's report `e` on the last action, and says what to do
    /// next.
    pub fn step(&mut self, e: Event) -> (a: Action)
        requires
            expects(*old(self), e),
        ensures
            (*final(self), a) == transition(*old(self), e),
    {
        match (self.phase, e) {
            (Phase::CheckVersion, Event::Returned(v)) => {
                if v < 0 {
                    self.fail()
                } else if v != KVM_VERSION {
                    self.phase = Phase::Failed;
                    Action::Fail(SetupError::UnsupportedVersion(v))
                } else {
                    self.phase = Phase::CreateVm;
                    Action::Ioctl {
                        fd: self.kvm_fd,
                        request: KvmRequest::CreateVm,
                        arg: IoctlArg::Zero,
                    }
                }
            },
            (Phase::CreateVm, Event::Returned(fd)) => {
                if fd < 0 {
                    self.fail()
                } else {
                    self.phase = Phase::CreateVcpu;
                    self.vm_fd = fd;
                    Action::Ioctl { fd, request: KvmRequest::CreateVcpu, arg: IoctlArg::Zero }
                }
            },
            (Phase::CreateVcpu, Event::Returned(fd)) => {
                if fd < 0 {
                    self.fail()
                } else {
                    self.phase = Phase::MapGuestMemory;
                    self.vcpu_fd = fd;
                    Action::MapGuestMemory { len: VM_MEMORY }
                }
            },
            (Phase::MapGuestMemory, Event::Mapped(m)) => {
                match m {
                    None => self.fail(),
                    Some(addr) => {
                        self.phase = Phase::LoadCode;
                        self.guest_memory = addr;
                        Action::LoadCode { addr, byte: GUEST_CODE }
                    },
                }
            },
            (Phase::LoadCode, Event::CodeLoaded) => {
                self.phase = Phase::SetMemoryRegion;
                Action::Ioctl {
                    fd: self.vm_fd,
                    request: KvmRequest::SetUserMemoryRegion,
                    arg: IoctlArg::Region(
                        MemoryRegion {
                            slot: 0,
                            flags: 0,
                            guest_phys_addr: GUEST_PHYS_ADDR,
                            memory_size: VM_MEMORY,
                            userspace_addr: self.guest_memory,
                        },
                    ),
                }
            },
            (Phase::SetMemoryRegion, Event::Returned(r)) => {
                if r != 0 {
                    self.fail()
                } else {
                    self.phase = Phase::SetRegs;
                    Action::Ioctl {
                        fd: self.vcpu_fd,
                        request: KvmRequest::SetRegs,
                        arg: IoctlArg::Regs(GuestRegs { rip: GUEST_PHYS_ADDR, rflags: GUEST_RFLAGS }),
                    }
                }
            },
            (Phase::SetRegs, Event::Returned(r)) => {
                if r != 0 {
                    self.fail()
                } else {
                    self.phase = Phase::GetSregs;
                    Action::Ioctl {
                        fd: self.vcpu_fd,
                        request: KvmRequest::GetSregs,
                        arg: IoctlArg::ReadSregs,
                    }
                }
            },
            (Phase::GetSregs, Event::Returned(r)) => {
                if r != 0 {
                    self.fail()
                } else {
                    self.phase = Phase::SetSregs;
                    Action::Ioctl {
                        fd: self.vcpu_fd,
                        request: KvmRequest::SetSregs,
                        arg: IoctlArg::WriteSregs(CodeSegment { base: 0, selector: 0 }),
                    }
                }
            },
            (Phase::SetSregs, Event::Returned(r)) => {
                if r != 0 {
                    self.fail()
                } else {
                    self.phase = Phase::GetVcpuMmapSize;
                    Action::Ioctl {
                        fd: self.kvm_fd,
                        request: KvmRequest::GetVcpuMmapSize,
                        arg: IoctlArg::Zero,
                    }
                }
            },
            (Phase::GetVcpuMmapSize, Event::Returned(size)) => {
                if size < 0 {
                    self.fail()
                } else {
                    self.phase = Phase::MapRunArea;
                    self.run_size = size as u64;
                    Action::MapRunArea { fd: self.vcpu_fd, len: size as u64 }
                }
            },
            (Phase::MapRunArea, Event::Mapped(m)) => {
                match m {
                    None => self.fail(),
                    Some(_) => {
                        self.phase = Phase::Run;
                        Action::Ioctl { fd: self.vcpu_fd, request: KvmRequest::Run, arg: IoctlArg::Zero }
                    },
                }
            },
            (Phase::Run, Event::RunExit { ret: _, exit_reason }) => {
                if exit_reason == kvm_exit_hlt() {
                    self.phase = Phase::Halted;
                    Action::Finish
                } else {
                    Action::Ioctl { fd: self.vcpu_fd, request: KvmRequest::Run, arg: IoctlArg::Zero }
                }
            },
            _ => Action::Finish,
        }
    }
}

/// The steps by which the VM exists.
pub open spec fn has_vm(p: Phase) -> bool {
    !(p is CheckVersion || p is CreateVm || p is Failed)
}

/// The steps by which the virtual CPU exists.
pub open spec fn has_vcpu(p: Phase) -> bool {
    has_vm(p) && !(p is CreateVcpu)
}

/// The descriptors obtained so far are valid ones.
pub open spec fn inv(s: KvmSetup) -> bool {
    &&& s.kvm_fd >= 0
    &&& has_vm(s.phase) ==> s.vm_fd >= 0
    &&& has_vcpu(s.phase) ==> s.vcpu_fd >= 0
}

/// The descriptor a request belongs on: system requests on `/dev/kvm`, VM
/// requests on the VM, the rest on the virtual CPU.
pub open spec fn target_fd(s: KvmSetup, r: KvmRequest) -> i32 {
    match r {
        KvmRequest::GetApiVersion | KvmRequest::CreateVm | KvmRequest::GetVcpuMmapSize => s.kvm_fd,
        KvmRequest::CreateVcpu | KvmRequest::SetUserMemoryRegion => s.vm_fd,
        _ => s.vcpu_fd,
    }
}

/// Each action issues its ioctl on the descriptor the request belongs on,
/// and that descriptor is a valid one.
pub open spec fn action_on_right_fd(s: KvmSetup, a: Action) -> bool {
    &&& a matches Action::Ioctl { fd, request, .. } ==> fd == target_fd(s, request) && fd >= 0
    &&& a matches Action::MapRunArea { fd, .. } ==> fd == s.vcpu_fd && fd >= 0
}

/// Starting on a valid `/dev/kvm` descriptor gives a state whose
/// descriptors are valid, and its first ioctl goes to `/dev/kvm`.
pub proof fn lemma_start_keeps_inv(kvm_fd: i32)
    requires
        kvm_fd >= 0,
    ensures
        inv(
            KvmSetup {
                phase: Phase::CheckVersion,
                kvm_fd,
                vm_fd: -1i32,
                vcpu_fd: -1i32,
                guest_memory: 0,
                run_size: 0,
            },
        ),
        action_on_right_fd(
            KvmSetup {
                phase: Phase::CheckVersion,
                kvm_fd,
                vm_fd: -1i32,
                vcpu_fd: -1i32,
                guest_memory: 0,
                run_size: 0,
            },
            bare(kvm_fd, KvmRequest::GetApiVersion),
        ),
{
}

/// Every step keeps the descriptors valid, and every ioctl it asks for goes
/// on the descriptor its request belongs on.
pub proof fn lemma_step_keeps_inv(s: KvmSetup, e: Event)
    requires
        inv(s),
        expects(s, e),
    ensures
        inv(transition(s, e).0),
        action_on_right_fd(transition(s, e).0, transition(s, e).1),
{
}

/// The VM is created only right after `/dev/kvm` reported `KVM_VERSION`:
/// any other version, or an error, stops the bring-up.
pub proof fn lemma_vm_only_after_supported_version(s: KvmSetup, e: Event)
    requires
        expects(s, e),
    ensures
        transition(s, e).1 matches Action::Ioctl { request: KvmRequest::CreateVm, .. } <==> (s.phase
            == Phase::CheckVersion && e == Event::Returned(KVM_VERSION)),
        s.phase == Phase::CheckVersion ==> (e matches Event::Returned(v) && v != KVM_VERSION
            ==> transition(s, e).0.phase == Phase::Failed),
{
}

/// A failure is reported for the step that failed, and nothing follows it.
pub proof fn lemma_failure_is_final(s: KvmSetup, e: Event, e2: Event)
    requires
        expects(s, e),
        transition(s, e).1 is Fail,
    ensures
        transition(s, e).0.phase == Phase::Failed,
        transition(s, e).1 == Action::Fail(SetupError::Os(s.phase)) || (s.phase == Phase::CheckVersion
            && transition(s, e).1 matches Action::Fail(SetupError::UnsupportedVersion(_))),
        !expects(transition(s, e).0, e2),
{
}

/// The guest runs until it halts: a `hlt` exit finishes, any other exit,
/// and a failed `KVM_RUN`, runs the virtual CPU again.
pub proof fn lemma_runs_until_halt(s: KvmSetup, ret: i32, exit_reason: u32)
    requires
        s.phase == Phase::Run,
    ensures
        exit_reason == exit_hlt() ==> transition(s, Event::RunExit { ret, exit_reason }) == (
        KvmSetup { phase: Phase::Halted, ..s }, Action::Finish),
        exit_reason != exit_hlt() ==> transition(s, Event::RunExit { ret, exit_reason }) == (s, bare(
            s.vcpu_fd,
            KvmRequest::Run,
        )),
{
}

/// The guest starts on its code: the byte is written at the start of the
/// host memory, that memory is registered at the guest address where the
/// instruction pointer starts, and it is large enough to hold the code.
pub proof fn lemma_guest_starts_on_its_code(s: KvmSetup, addr: u64)
    requires
        s.phase == Phase::MapGuestMemory,
    ensures
        ({
            let (s1, a1) = transition(s, Event::Mapped(Some(addr)));
            let (s2, a2) = transition(s1, Event::CodeLoaded);
            let (s3, a3) = transition(s2, Event::Returned(0));
            &&& a1 == Action::LoadCode { addr, byte: GUEST_CODE }
            &&& a2 matches Action::Ioctl { request: KvmRequest::SetUserMemoryRegion, arg: IoctlArg::Region(region), .. }
            &&& a3 matches Action::Ioctl { request: KvmRequest::SetRegs, arg: IoctlArg::Regs(regs), .. }
            &&& a2->arg->Region_0.userspace_addr == addr
            &&& a3->arg->Regs_0.rip == a2->arg->Region_0.guest_phys_addr
            &&& 1 <= a2->arg->Region_0.memory_size
            &&& a2->arg->Region_0.slot == 0
            &&& a2->arg->Region_0.flags == 0
            &&& a2->arg->Region_0.memory_size == VM_MEMORY
            &&& a3->arg->Regs_0.rflags == 2
            &&& a1->addr == a2->arg->Region_0.userspace_addr
        }),
{
}

/// The steps whose call yields a descriptor or a size: a negative result
/// is a failure.
pub open spec fn yields_value(p: Phase) -> bool {
    p is CheckVersion || p is CreateVm || p is CreateVcpu || p is GetVcpuMmapSize
}

/// The steps whose call only succeeds or fails: any result but zero is a
/// failure.
pub open spec fn yields_status(p: Phase) -> bool {
    p is SetMemoryRegion || p is SetRegs || p is GetSregs || p is SetSregs
}

/// Every failed host call stops the bring-up at once, naming the step it
/// failed at: a negative descriptor or size, a non-zero status, a failed
/// mapping. None is ignored.
pub proof fn lemma_every_failed_call_stops(s: KvmSetup, r: i32)
    ensures
        yields_value(s.phase) && r < 0 ==> transition(s, Event::Returned(r)) == (KvmSetup {
            phase: Phase::Failed,
            ..s
        }, Action::Fail(SetupError::Os(s.phase))),
        yields_status(s.phase) && r != 0 ==> transition(s, Event::Returned(r)) == (KvmSetup {
            phase: Phase::Failed,
            ..s
        }, Action::Fail(SetupError::Os(s.phase))),
        (s.phase is MapGuestMemory || s.phase is MapRunArea) ==> transition(s, Event::Mapped(None))
            == (KvmSetup { phase: Phase::Failed, ..s }, Action::Fail(SetupError::Os(s.phase))),
{
}

/// A call that succeeded never stops the bring-up.
pub proof fn lemma_success_goes_on(s: KvmSetup, e: Event)
    requires
        expects(s, e),
        yields_value(s.phase) ==> (e matches Event::Returned(r) ==> r >= 0 && (s.phase
            is CheckVersion ==> r == KVM_VERSION)),
        yields_status(s.phase) ==> e == Event::Returned(0),
        e matches Event::Mapped(m) ==> m is Some,
    ensures
        !(transition(s, e).1 is Fail),
        transition(s, e).0.phase != Phase::Failed,
{
}

/// The order of the steps.
pub open spec fn rank(p: Phase) -> int {
    match p {
        Phase::CheckVersion => 0,
        Phase::CreateVm => 1,
        Phase::CreateVcpu => 2,
        Phase::MapGuestMemory => 3,
        Phase::LoadCode => 4,
        Phase::SetMemoryRegion => 5,
        Phase::SetRegs => 6,
        Phase::GetSregs => 7,
        Phase::SetSregs => 8,
        Phase::GetVcpuMmapSize => 9,
        Phase::MapRunArea => 10,
        Phase::Run => 11,
        Phase::Halted => 12,
        Phase::Failed => 13,
    }
}

/// Each step before the run stops the bring-up or moves it strictly
/// forward; only the run step repeats, and only on an exit other than
/// `hlt`. A stop is always a failure with a `Fail` action.
pub proof fn lemma_steps_move_forward(s: KvmSetup, e: Event)
    requires
        expects(s, e),
    ensures
        s.phase != Phase::Run ==> rank(transition(s, e).0.phase) > rank(s.phase),
        s.phase == Phase::Run ==> transition(s, e).0.phase == Phase::Run || transition(s, e).0.phase
            == Phase::Halted,
        transition(s, e).0.phase == Phase::Failed <==> transition(s, e).1 is Fail,
{
}

/// The special registers are written back with a flat code segment (base
/// and selector zero), right after they were read on the same virtual CPU.
pub proof fn lemma_flat_code_segment(s: KvmSetup)
    requires
        s.phase == Phase::GetSregs,
    ensures
        transition(s, Event::Returned(0)).1 == (Action::Ioctl {
            fd: s.vcpu_fd,
            request: KvmRequest::SetSregs,
            arg: IoctlArg::WriteSregs(CodeSegment { base: 0, selector: 0 }),
        }),
{
}

/// The `kvm_run` area is mapped from the virtual CPU with exactly the size
/// that `/dev/kvm` reported, and that size is kept.
pub proof fn lemma_run_area_has_reported_size(s: KvmSetup, size: i32)
    requires
        s.phase == Phase::GetVcpuMmapSize,
        size >= 0,
    ensures
        transition(s, Event::Returned(size)).1 == (Action::MapRunArea {
            fd: s.vcpu_fd,
            len: size as u64,
        }),
        transition(s, Event::Returned(size)).0.run_size == size,
{
}

} // verus!
