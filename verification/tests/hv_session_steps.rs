use minihype::hv::{HVError, HV_BUSY, HV_SUCCESS};
use minihype::hv_session::{
    HvAction, HvEvent, HvFailure, HvPhase, HvReg, HvSession, GUEST_CPSR, VM_MEMORY_SIZE,
};

fn through_run(hvc: bool) -> (HvSession, HvAction) {
    let (mut s, a) = HvSession::new();
    assert_eq!(a, HvAction::CreateVm);
    assert_eq!(s.step(HvEvent::Returned(HV_SUCCESS)), HvAction::MapHostMemory { len: 32768 });
    assert_eq!(VM_MEMORY_SIZE, 2 * 16384);
    assert_eq!(
        s.step(HvEvent::Mapped(Some(0x1_0000_0000))),
        HvAction::MapGuest { host_addr: 0x1_0000_0000, guest_addr: 0, len: 32768, flags: 7 }
    );
    assert_eq!(
        s.step(HvEvent::Returned(HV_SUCCESS)),
        HvAction::LoadCode { host_addr: 0x1_0000_0000 }
    );
    assert_eq!(s.step(HvEvent::CodeLoaded), HvAction::CreateVcpu);
    assert_eq!(
        s.step(HvEvent::VcpuCreated { code: HV_SUCCESS, vcpu: 9 }),
        HvAction::SetReg { vcpu: 9, reg: HvReg::Pc, value: 0 }
    );
    assert_eq!(
        s.step(HvEvent::Returned(HV_SUCCESS)),
        HvAction::SetReg { vcpu: 9, reg: HvReg::Cpsr, value: 0x3c5 }
    );
    assert_eq!(GUEST_CPSR, 0x3c5);
    assert_eq!(s.step(HvEvent::Returned(HV_SUCCESS)), HvAction::Run { vcpu: 9 });
    assert_eq!(s.step(HvEvent::Returned(HV_SUCCESS)), HvAction::InspectExit);
    let syndrome = if hvc { 0x5a00_0000 } else { 0x9200_0046 };
    let a = s.step(HvEvent::Exit { syndrome });
    (s, a)
}

fn teardown(mut s: HvSession) {
    assert_eq!(
        s.step(HvEvent::Returned(HV_SUCCESS)),
        HvAction::UnmapGuest { guest_addr: 0, len: 32768 }
    );
    assert_eq!(s.step(HvEvent::Returned(HV_SUCCESS)), HvAction::DestroyVm);
    assert_eq!(s.step(HvEvent::Returned(HV_SUCCESS)), HvAction::Finish);
    assert_eq!(s.phase, HvPhase::Done);
}

#[test]
fn hvc_exit_reads_x0_then_tears_down() {
    let (mut s, a) = through_run(true);
    assert_eq!(a, HvAction::GetReg { vcpu: 9, reg: HvReg::X0 });
    assert_eq!(s.step(HvEvent::Returned(HV_SUCCESS)), HvAction::DestroyVcpu { vcpu: 9 });
    teardown(s);
}

#[test]
fn other_exit_tears_down_directly() {
    let (s, a) = through_run(false);
    assert_eq!(a, HvAction::DestroyVcpu { vcpu: 9 });
    teardown(s);
}

#[test]
fn failed_call_stops_with_its_error() {
    let (mut s, _) = HvSession::new();
    assert_eq!(
        s.step(HvEvent::Returned(HV_BUSY)),
        HvAction::Fail(HvFailure::Call(HVError::from_error(HV_BUSY)))
    );
    assert_eq!(s.phase, HvPhase::Failed);
}

#[test]
fn failed_vcpu_creation_stops() {
    let mut s = HvSession { phase: HvPhase::CreateVcpu, host_memory: 0x1000, vcpu: 0 };
    assert_eq!(
        s.step(HvEvent::VcpuCreated { code: 5, vcpu: 1 }),
        HvAction::Fail(HvFailure::Call(HVError::from_error(5)))
    );
    assert_eq!(s.phase, HvPhase::Failed);
}

#[test]
fn failed_teardown_call_stops() {
    let mut s = HvSession { phase: HvPhase::UnmapGuest, host_memory: 0x1000, vcpu: 2 };
    assert_eq!(
        s.step(HvEvent::Returned(-1)),
        HvAction::Fail(HvFailure::Call(HVError::from_error(-1)))
    );
}

#[test]
fn failed_mapping_stops() {
    let mut s = HvSession { phase: HvPhase::MapHostMemory, host_memory: 0, vcpu: 0 };
    assert_eq!(s.step(HvEvent::Mapped(None)), HvAction::Fail(HvFailure::MapFailed));
    assert_eq!(s.phase, HvPhase::Failed);
}

#[test]
fn guest_cpsr_bits() {
    assert_eq!(GUEST_CPSR & 0xf, 0b0101);
    for bit in 6..10 {
        assert_eq!((GUEST_CPSR >> bit) & 1, 1);
    }
}
