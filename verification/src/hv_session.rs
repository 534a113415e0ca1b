//! The Apple Hypervisor session: the decisions taken on each call's result
//! while a VM with one virtual CPU is created, runs its guest once, and is
//! torn down.
use vstd::prelude::*;
use crate::hv::{error_of, exception_class_spec, is_hvc_exit, HVError, EC_HVC64, HV_SUCCESS};

verus! {

/// Bytes of guest memory: two blocks of 16 KiB.
pub const VM_MEMORY_SIZE: u64 = 2 * 16384;
/// Guest physical address of the guest memory, where the guest starts.
pub const GUEST_ADDR: u64 = 0;
/// The guest may read its memory.
pub const HV_MEMORY_READ: u64 = 1;
/// The guest may write its memory.
pub const HV_MEMORY_WRITE: u64 = 2;
/// The guest may execute from its memory.
pub const HV_MEMORY_EXEC: u64 = 4;
/// The program state the guest starts with: EL1 using SP_EL1, with FIQ, IRQ,
/// SError and debug exceptions masked.
pub const GUEST_CPSR: u64 = 0x3c5;

/// The permissions of the guest memory: read, write and execute.
pub open spec fn guest_memory_flags() -> u64 {
    HV_MEMORY_READ | HV_MEMORY_WRITE | HV_MEMORY_EXEC
}

/// `GUEST_CPSR` holds what it is documented to hold: mode bits 3..0 are
/// `0b0101` (EL1h), and the F (6), I (7), A (8) and D (9) mask bits are set.
pub proof fn lemma_guest_cpsr_bits()
    ensures
        GUEST_CPSR & 0xf == 0b0101,
        (GUEST_CPSR >> 6u64) & 1 == 1,
        (GUEST_CPSR >> 7u64) & 1 == 1,
        (GUEST_CPSR >> 8u64) & 1 == 1,
        (GUEST_CPSR >> 9u64) & 1 == 1,
{
    assert(0x3c5u64 & 0xf == 0b0101 && (0x3c5u64 >> 6u64) & 1 == 1 && (0x3c5u64 >> 7u64) & 1 == 1
        && (0x3c5u64 >> 8u64) & 1 == 1 && (0x3c5u64 >> 9u64) & 1 == 1) by (bit_vector);
}

/// The registers the session reads or writes.
#[derive(Clone, Copy, Debug, PartialEq, Eq, Structural)]
pub enum HvReg {
    X0,
    Pc,
    Cpsr,
}

/// The steps of the session, in the order they are taken.
#[derive(Clone, Copy, Debug, PartialEq, Eq, Structural)]
pub enum HvPhase {
    CreateVm,
    MapHostMemory,
    MapGuest,
    LoadCode,
    CreateVcpu,
    SetPc,
    SetCpsr,
    Run,
    InspectExit,
    ReadX0,
    DestroyVcpu,
    UnmapGuest,
    DestroyVm,
    Done,
    Failed,
}

/// Why the session stopped early.
#[derive(Clone, Copy, Debug, PartialEq, Eq, Structural)]
pub enum HvFailure {
    /// A hypervisor call failed with this error.
    Call(HVError),
    /// The host memory could not be mapped.
    MapFailed,
}

/// What the host is to do next.
#[derive(Clone, Copy, Debug, PartialEq, Eq, Structural)]
pub enum HvAction {
    /// `hv_vm_create` with the default configuration.
    CreateVm,
    /// Map `len` bytes of private anonymous read-write host memory.
    MapHostMemory { len: u64 },
    /// `hv_vm_map` of host memory at guest address `guest_addr`.
    MapGuest { host_addr: u64, guest_addr: u64, len: u64, flags: u64 },
    /// Copy the guest code to host address `host_addr`.
    LoadCode { host_addr: u64 },
    /// `hv_vcpu_create` with the default configuration.
    CreateVcpu,
    /// `hv_vcpu_set_reg`.
    SetReg { vcpu: u64, reg: HvReg, value: u64 },
    /// `hv_vcpu_run`.
    Run { vcpu: u64 },
    /// Report the exit information and answer with its syndrome.
    InspectExit,
    /// `hv_vcpu_get_reg`, and report the value.
    GetReg { vcpu: u64, reg: HvReg },
    /// `hv_vcpu_destroy`.
    DestroyVcpu { vcpu: u64 },
    /// `hv_vm_unmap`.
    UnmapGuest { guest_addr: u64, len: u64 },
    /// `hv_vm_destroy`.
    DestroyVm,
    /// Stop with this failure.
    Fail(HvFailure),
    /// Stop: the session ended well.
    Finish,
}

/// What the host reports back.
#[derive(Clone, Copy, Debug, PartialEq, Eq, Structural)]
pub enum HvEvent {
    /// The call returned this code.
    Returned(i32),
    /// `hv_vcpu_create` returned `code` and gave the virtual CPU `vcpu`.
    VcpuCreated { code: i32, vcpu: u64 },
    /// The host memory starts at this address, or could not be mapped.
    Mapped(Option<u64>),
    /// The guest code was copied.
    CodeLoaded,
    /// The exit that ended the run had this syndrome.
    Exit { syndrome: u64 },
}

/// The state of the session.
#[derive(Clone, Copy, Debug, PartialEq, Eq, Structural)]
pub struct HvSession {
    pub phase: HvPhase,
    pub host_memory: u64,
    pub vcpu: u64,
}

/// The event each step waits for; the last two steps wait for none.
pub open spec fn hv_expects(s: HvSession, e: HvEvent) -> bool {
    match s.phase {
        HvPhase::MapHostMemory => e is Mapped,
        HvPhase::LoadCode => e is CodeLoaded,
        HvPhase::CreateVcpu => e is VcpuCreated,
        HvPhase::InspectExit => e is Exit,
        HvPhase::Done | HvPhase::Failed => false,
        _ => e is Returned,
    }
}

/// After a call that returned `code`: stop with its error unless it
/// succeeded, else go on to step `p` with action `a`.
pub open spec fn after_call(s: HvSession, code: i32, p: HvPhase, a: HvAction) -> (HvSession, HvAction) {
    if code != HV_SUCCESS {
        (HvSession { phase: HvPhase::Failed, ..s }, HvAction::Fail(HvFailure::Call(error_of(code))))
    } else {
        (HvSession { phase: p, ..s }, a)
    }
}

/// The protocol: given the step and what the host reported, the next state
/// and what the host is to do. Every call must return `HV_SUCCESS`; the
/// first that does not stops the session with its error.
pub open spec fn hv_transition(s: HvSession, e: HvEvent) -> (HvSession, HvAction) {
    match (s.phase, e) {
        (HvPhase::CreateVm, HvEvent::Returned(c)) => after_call(
            s,
            c,
            HvPhase::MapHostMemory,
            HvAction::MapHostMemory { len: VM_MEMORY_SIZE },
        ),
        (HvPhase::MapHostMemory, HvEvent::Mapped(m)) => match m {
            None => (HvSession { phase: HvPhase::Failed, ..s }, HvAction::Fail(HvFailure::MapFailed)),
            Some(addr) => (
                HvSession { phase: HvPhase::MapGuest, host_memory: addr, ..s },
                HvAction::MapGuest {
                    host_addr: addr,
                    guest_addr: GUEST_ADDR,
                    len: VM_MEMORY_SIZE,
                    flags: guest_memory_flags(),
                },
            ),
        },
        (HvPhase::MapGuest, HvEvent::Returned(c)) => after_call(
            s,
            c,
            HvPhase::LoadCode,
            HvAction::LoadCode { host_addr: s.host_memory },
        ),
        (HvPhase::LoadCode, HvEvent::CodeLoaded) => (
            HvSession { phase: HvPhase::CreateVcpu, ..s },
            HvAction::CreateVcpu,
        ),
        (HvPhase::CreateVcpu, HvEvent::VcpuCreated { code, vcpu }) => after_call(
            HvSession { vcpu, ..s },
            code,
            HvPhase::SetPc,
            HvAction::SetReg { vcpu, reg: HvReg::Pc, value: GUEST_ADDR },
        ),
        (HvPhase::SetPc, HvEvent::Returned(c)) => after_call(
            s,
            c,
            HvPhase::SetCpsr,
            HvAction::SetReg { vcpu: s.vcpu, reg: HvReg::Cpsr, value: GUEST_CPSR },
        ),
        (HvPhase::SetCpsr, HvEvent::Returned(c)) => after_call(
            s,
            c,
            HvPhase::Run,
            HvAction::Run { vcpu: s.vcpu },
        ),
        (HvPhase::Run, HvEvent::Returned(c)) => after_call(
            s,
            c,
            HvPhase::InspectExit,
            HvAction::InspectExit,
        ),
        (HvPhase::InspectExit, HvEvent::Exit { syndrome }) => if exception_class_spec(syndrome)
            == EC_HVC64 {
            (
                HvSession { phase: HvPhase::ReadX0, ..s },
                HvAction::GetReg { vcpu: s.vcpu, reg: HvReg::X0 },
            )
        } else {
            (HvSession { phase: HvPhase::DestroyVcpu, ..s }, HvAction::DestroyVcpu { vcpu: s.vcpu })
        },
        (HvPhase::ReadX0, HvEvent::Returned(c)) => after_call(
            s,
            c,
            HvPhase::DestroyVcpu,
            HvAction::DestroyVcpu { vcpu: s.vcpu },
        ),
        (HvPhase::DestroyVcpu, HvEvent::Returned(c)) => after_call(
            s,
            c,
            HvPhase::UnmapGuest,
            HvAction::UnmapGuest { guest_addr: GUEST_ADDR, len: VM_MEMORY_SIZE },
        ),
        (HvPhase::UnmapGuest, HvEvent::Returned(c)) => after_call(
            s,
            c,
            HvPhase::DestroyVm,
            HvAction::DestroyVm,
        ),
        (HvPhase::DestroyVm, HvEvent::Returned(c)) => after_call(
            s,
            c,
            HvPhase::Done,
            HvAction::Finish,
        ),
        _ => (s, HvAction::Finish),
    }
}

impl HvSession {
    /// Starts a session: the first thing to do is to create the VM.
    pub fn new() -> (r: (HvSession, HvAction))
        ensures
            r.0 == (HvSession { phase: HvPhase::CreateVm, host_memory: 0, vcpu: 0 }),
            r.1 == HvAction::CreateVm,
    {
        (HvSession { phase: HvPhase::CreateVm, host_memory: 0, vcpu: 0 }, HvAction::CreateVm)
    }

    fn after_call(&mut self, code: i32, p: HvPhase, a: HvAction) -> (r: HvAction)
        ensures
            (*final(self), r) == after_call(*old(self), code, p, a),
    {
        if code != HV_SUCCESS {
            self.phase = HvPhase::Failed;
            HvAction::Fail(HvFailure::Call(HVError::from_error(code)))
        } else {
            self.phase = p;
            a
        }
    }

    /// Takes the host's report `e` on the last action, and says what to do
    /// next.
    pub fn step(&mut self, e: HvEvent) -> (a: HvAction)
        requires
            hv_expects(*old(self), e),
        ensures
            (*final(self), a) == hv_transition(*old(self), e),
            e matches HvEvent::Returned(c) ==> (c != HV_SUCCESS <==> (final(self).phase
                == HvPhase::Failed && a == HvAction::Fail(HvFailure::Call(error_of(c))))),
            e matches HvEvent::VcpuCreated { code, .. } ==> (code != HV_SUCCESS <==> (
            final(self).phase == HvPhase::Failed && a == HvAction::Fail(
                HvFailure::Call(error_of(code)),
            ))),
    {
        match (self.phase, e) {
            (HvPhase::CreateVm, HvEvent::Returned(c)) => self.after_call(
                c,
                HvPhase::MapHostMemory,
                HvAction::MapHostMemory { len: VM_MEMORY_SIZE },
            ),
            (HvPhase::MapHostMemory, HvEvent::Mapped(m)) => match m {
                None => {
                    self.phase = HvPhase::Failed;
                    HvAction::Fail(HvFailure::MapFailed)
                },
                Some(addr) => {
                    self.phase = HvPhase::MapGuest;
                    self.host_memory = addr;
                    HvAction::MapGuest {
                        host_addr: addr,
                        guest_addr: GUEST_ADDR,
                        len: VM_MEMORY_SIZE,
                        flags: HV_MEMORY_READ | HV_MEMORY_WRITE | HV_MEMORY_EXEC,
                    }
                },
            },
            (HvPhase::MapGuest, HvEvent::Returned(c)) => {
                let a = HvAction::LoadCode { host_addr: self.host_memory };
                self.after_call(c, HvPhase::LoadCode, a)
            },
            (HvPhase::LoadCode, HvEvent::CodeLoaded) => {
                self.phase = HvPhase::CreateVcpu;
                HvAction::CreateVcpu
            },
            (HvPhase::CreateVcpu, HvEvent::VcpuCreated { code, vcpu }) => {
                self.vcpu = vcpu;
                self.after_call(
                    code,
                    HvPhase::SetPc,
                    HvAction::SetReg { vcpu, reg: HvReg::Pc, value: GUEST_ADDR },
                )
            },
            (HvPhase::SetPc, HvEvent::Returned(c)) => {
                let a = HvAction::SetReg { vcpu: self.vcpu, reg: HvReg::Cpsr, value: GUEST_CPSR };
                self.after_call(c, HvPhase::SetCpsr, a)
            },
            (HvPhase::SetCpsr, HvEvent::Returned(c)) => {
                let a = HvAction::Run { vcpu: self.vcpu };
                self.after_call(c, HvPhase::Run, a)
            },
            (HvPhase::Run, HvEvent::Returned(c)) => self.after_call(
                c,
                HvPhase::InspectExit,
                HvAction::InspectExit,
            ),
            (HvPhase::InspectExit, HvEvent::Exit { syndrome }) => {
                if is_hvc_exit(syndrome) {
                    self.phase = HvPhase::ReadX0;
                    HvAction::GetReg { vcpu: self.vcpu, reg: HvReg::X0 }
                } else {
                    self.phase = HvPhase::DestroyVcpu;
                    HvAction::DestroyVcpu { vcpu: self.vcpu }
                }
            },
            (HvPhase::ReadX0, HvEvent::Returned(c)) => {
                let a = HvAction::DestroyVcpu { vcpu: self.vcpu };
                self.after_call(c, HvPhase::DestroyVcpu, a)
            },
            (HvPhase::DestroyVcpu, HvEvent::Returned(c)) => self.after_call(
                c,
                HvPhase::UnmapGuest,
                HvAction::UnmapGuest { guest_addr: GUEST_ADDR, len: VM_MEMORY_SIZE },
            ),
            (HvPhase::UnmapGuest, HvEvent::Returned(c)) => self.after_call(
                c,
                HvPhase::DestroyVm,
                HvAction::DestroyVm,
            ),
            (HvPhase::DestroyVm, HvEvent::Returned(c)) => self.after_call(
                c,
                HvPhase::Done,
                HvAction::Finish,
            ),
            _ => HvAction::Finish,
        }
    }
}

/// The guest memory is mapped readable, writable and executable.
pub proof fn lemma_guest_memory_flags()
    ensures
        guest_memory_flags() == 7,
{
    assert(1u64 | 2u64 | 4u64 == 7u64) by (bit_vector);
}

/// A failed call stops the session with that call's error, and nothing
/// follows a stop.
pub proof fn lemma_call_failure_stops(s: HvSession, e: HvEvent, e2: HvEvent)
    requires
        hv_expects(s, e),
        hv_transition(s, e).1 is Fail,
    ensures
        hv_transition(s, e).0.phase == HvPhase::Failed,
        !hv_expects(hv_transition(s, e).0, e2),
        e matches HvEvent::Returned(c) ==> c != HV_SUCCESS && hv_transition(s, e).1
            == HvAction::Fail(HvFailure::Call(error_of(c))),
        e matches HvEvent::VcpuCreated { code, .. } ==> code != HV_SUCCESS && hv_transition(s, e).1
            == HvAction::Fail(HvFailure::Call(error_of(code))),
        e matches HvEvent::Mapped(m) ==> m is None && hv_transition(s, e).1 == HvAction::Fail(
            HvFailure::MapFailed,
        ),
{
}

/// A call that returns `HV_SUCCESS` never stops the session.
pub proof fn lemma_success_goes_on(s: HvSession, e: HvEvent)
    requires
        hv_expects(s, e),
        e matches HvEvent::Returned(c) ==> c == HV_SUCCESS,
        e matches HvEvent::VcpuCreated { code, .. } ==> code == HV_SUCCESS,
        e matches HvEvent::Mapped(m) ==> m is Some,
    ensures
        !(hv_transition(s, e).1 is Fail),
        hv_transition(s, e).0.phase != HvPhase::Failed,
{
}

/// `x0` is read exactly when the run ended on the guest's `hvc`.
pub proof fn lemma_x0_read_only_after_hvc(s: HvSession, e: HvEvent)
    requires
        hv_expects(s, e),
    ensures
        (hv_transition(s, e).1 matches HvAction::GetReg { reg: HvReg::X0, .. }) <==> (s.phase
            == HvPhase::InspectExit && (e matches HvEvent::Exit { syndrome }
            && exception_class_spec(syndrome) == EC_HVC64)),
{
}

/// The session ends well only through the whole teardown, in order: the
/// virtual CPU is destroyed, then the guest memory unmapped, then the VM
/// destroyed, each only after the step before succeeded.
pub proof fn lemma_teardown_in_order(s: HvSession, e: HvEvent)
    requires
        hv_expects(s, e),
    ensures
        hv_transition(s, e).0.phase == HvPhase::Done <==> (s.phase == HvPhase::DestroyVm && e
            == HvEvent::Returned(HV_SUCCESS)),
        hv_transition(s, e).0.phase == HvPhase::DestroyVm <==> (s.phase == HvPhase::UnmapGuest && e
            == HvEvent::Returned(HV_SUCCESS)),
        hv_transition(s, e).0.phase == HvPhase::UnmapGuest <==> (s.phase == HvPhase::DestroyVcpu
            && e == HvEvent::Returned(HV_SUCCESS)),
        hv_transition(s, e).1 == HvAction::Finish ==> hv_transition(s, e).0.phase == HvPhase::Done,
{
}

/// The guest starts on its code: the code is copied to the host memory
/// that was mapped, that memory is mapped at the guest address where the
/// program counter starts, and the virtual CPU the session created is the
/// one whose registers are set and which runs.
pub proof fn lemma_guest_starts_on_its_code(s: HvSession, addr: u64, vcpu: u64)
    requires
        s.phase == HvPhase::MapHostMemory,
    ensures
        ({
            let (s1, a1) = hv_transition(s, HvEvent::Mapped(Some(addr)));
            let (s2, a2) = hv_transition(s1, HvEvent::Returned(HV_SUCCESS));
            let (s3, a3) = hv_transition(s2, HvEvent::CodeLoaded);
            let (s4, a4) = hv_transition(s3, HvEvent::VcpuCreated { code: HV_SUCCESS, vcpu });
            let (s5, a5) = hv_transition(s4, HvEvent::Returned(HV_SUCCESS));
            let (s6, a6) = hv_transition(s5, HvEvent::Returned(HV_SUCCESS));
            &&& a1 == HvAction::MapGuest {
                host_addr: addr,
                guest_addr: GUEST_ADDR,
                len: VM_MEMORY_SIZE,
                flags: guest_memory_flags(),
            }
            &&& a2 == HvAction::LoadCode { host_addr: addr }
            &&& a4 == HvAction::SetReg { vcpu, reg: HvReg::Pc, value: GUEST_ADDR }
            &&& a5 == HvAction::SetReg { vcpu, reg: HvReg::Cpsr, value: GUEST_CPSR }
            &&& a6 == HvAction::Run { vcpu }
        }),
{
}

/// Every hypervisor call that does not return `HV_SUCCESS` stops the
/// session at once with that call's error, whichever step made it: no
/// failed call is ignored.
pub proof fn lemma_every_failed_call_stops(s: HvSession, c: i32, vcpu: u64)
    requires
        c != HV_SUCCESS,
    ensures
        hv_expects(s, HvEvent::Returned(c)) ==> hv_transition(s, HvEvent::Returned(c)) == (
        HvSession { phase: HvPhase::Failed, ..s }, HvAction::Fail(HvFailure::Call(error_of(c)))),
        hv_expects(s, HvEvent::VcpuCreated { code: c, vcpu }) ==> ({
            let (s1, a1) = hv_transition(s, HvEvent::VcpuCreated { code: c, vcpu });
            &&& s1.phase == HvPhase::Failed
            &&& a1 == HvAction::Fail(HvFailure::Call(error_of(c)))
        }),
{
}

/// The order of the steps.
pub open spec fn hv_rank(p: HvPhase) -> int {
    match p {
        HvPhase::CreateVm => 0,
        HvPhase::MapHostMemory => 1,
        HvPhase::MapGuest => 2,
        HvPhase::LoadCode => 3,
        HvPhase::CreateVcpu => 4,
        HvPhase::SetPc => 5,
        HvPhase::SetCpsr => 6,
        HvPhase::Run => 7,
        HvPhase::InspectExit => 8,
        HvPhase::ReadX0 => 9,
        HvPhase::DestroyVcpu => 10,
        HvPhase::UnmapGuest => 11,
        HvPhase::DestroyVm => 12,
        HvPhase::Done => 13,
        HvPhase::Failed => 14,
    }
}

/// Each step either stops the session or moves it strictly forward; so the
/// session ends after at most one report per step.
pub proof fn lemma_steps_move_forward(s: HvSession, e: HvEvent)
    requires
        hv_expects(s, e),
    ensures
        hv_rank(hv_transition(s, e).0.phase) > hv_rank(s.phase),
        hv_transition(s, e).0.phase == HvPhase::Failed <==> hv_transition(s, e).1 is Fail,
{
}

} // verus!
