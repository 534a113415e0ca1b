//! Apple Hypervisor call outcomes: the return codes of `hv_*` calls, the
//! line reported for each, the error carried on, and the reading of a
//! virtual CPU exit.
use vstd::prelude::*;
use vstd::string::StringExecFns;

verus! {

/// The operation completed successfully.
pub const HV_SUCCESS: i32 = 0;
/// The operation was unsuccessful (`0xfae94001`).
pub const HV_ERROR: i32 = -85377023;
/// The owning resource was busy (`0xfae94002`).
pub const HV_BUSY: i32 = -85377022;
/// The call had an invalid argument (`0xfae94003`).
pub const HV_BAD_ARGUMENT: i32 = -85377021;
/// The host had no resources available (`0xfae94005`).
pub const HV_NO_RESOURCES: i32 = -85377019;
/// No VM or vCPU was available (`0xfae94006`).
pub const HV_NO_DEVICE: i32 = -85377018;
/// The hypervisor does not support the operation (`0xfae9400f`).
pub const HV_UNSUPPORTED: i32 = -85377009;

/// The character of decimal digit `d`.
pub open spec fn digit_char(d: nat) -> char {
    (('0' as nat) + d) as char
}

/// The decimal digits of `n`, most significant first, without leading zeros.
pub open spec fn decimal_nat(n: nat) -> Seq<char>
    decreases n,
{
    if n < 10 {
        seq![digit_char(n)]
    } else {
        decimal_nat(n / 10).push(digit_char(n % 10))
    }
}

/// The number a string of decimal digits denotes, most significant first.
pub open spec fn numeral_value(s: Seq<char>) -> int
    decreases s.len(),
{
    if s.len() == 0 {
        0
    } else {
        numeral_value(s.drop_last()) * 10 + (s.last() as int - '0' as int)
    }
}

/// Every character is a decimal digit.
pub open spec fn all_digits(s: Seq<char>) -> bool {
    forall|i: int| 0 <= i < s.len() ==> '0' <= #[trigger] s[i] <= '9'
}

/// `decimal_nat(n)` is the decimal numeral of `n`: a non-empty string of
/// digits that reads back as `n`, with no leading zero unless `n` is zero.
pub proof fn lemma_decimal_nat_is_numeral(n: nat)
    ensures
        decimal_nat(n).len() >= 1,
        all_digits(decimal_nat(n)),
        numeral_value(decimal_nat(n)) == n,
        decimal_nat(n)[0] == '0' ==> n == 0,
    decreases n,
{
    if n < 10 {
        let s = decimal_nat(n);
        assert(s.drop_last() =~= Seq::<char>::empty());
        assert(digit_char(n) as int == '0' as int + n);
        assert(numeral_value(s) == numeral_value(s.drop_last()) * 10 + n);
    } else {
        lemma_decimal_nat_is_numeral(n / 10);
        let d = decimal_nat(n / 10);
        let s = decimal_nat(n);
        assert(s.drop_last() =~= d);
        assert(digit_char(n % 10) as int == '0' as int + n % 10);
        assert(s[0] == d[0]);
        assert(numeral_value(s) == numeral_value(d) * 10 + (n % 10) as int);
        assert((n / 10) * 10 + n % 10 == n) by (nonlinear_arith);
    }
}

/// `decimal_int(v)` is the numeral of `v`: a `-` and the numeral of `-v`
/// when `v` is negative, the numeral of `v` otherwise.
pub proof fn lemma_decimal_int_is_numeral(v: int)
    ensures
        v < 0 ==> decimal_int(v)[0] == '-' && decimal_int(v).drop_first() == decimal_nat(
            (-v) as nat,
        ) && numeral_value(decimal_int(v).drop_first()) == -v,
        v >= 0 ==> all_digits(decimal_int(v)) && numeral_value(decimal_int(v)) == v,
        decimal_int(v).len() >= 1,
{
    if v < 0 {
        lemma_decimal_nat_is_numeral((-v) as nat);
        assert(decimal_int(v).drop_first() =~= decimal_nat((-v) as nat));
    } else {
        lemma_decimal_nat_is_numeral(v as nat);
    }
}

spec fn s_at_one(s: Seq<char>) -> char {
    s[1]
}

/// `v` written in decimal, with a leading `-` when negative.
pub open spec fn decimal_int(v: int) -> Seq<char> {
    if v < 0 {
        seq!['-'] + decimal_nat((-v) as nat)
    } else {
        decimal_nat(v as nat)
    }
}

fn digit_str(d: u32) -> (s: &'static str)
    requires
        d < 10,
    ensures
        s@ == seq![digit_char(d as nat)],
{
    proof {
        reveal_strlit("0");
        reveal_strlit("1");
        reveal_strlit("2");
        reveal_strlit("3");
        reveal_strlit("4");
        reveal_strlit("5");
        reveal_strlit("6");
        reveal_strlit("7");
        reveal_strlit("8");
        reveal_strlit("9");
    }
    match d {
        0 => "0",
        1 => "1",
        2 => "2",
        3 => "3",
        4 => "4",
        5 => "5",
        6 => "6",
        7 => "7",
        8 => "8",
        _ => "9",
    }
}

fn push_decimal(out: &mut String, n: u32)
    ensures
        final(out)@ == old(out)@ + decimal_nat(n as nat),
    decreases n,
{
    if n >= 10 {
        push_decimal(out, n / 10);
    }
    out.append(digit_str(n % 10));
    proof {
        if n >= 10 {
            assert(decimal_nat(n as nat) == decimal_nat((n / 10) as nat).push(digit_char((n % 10) as nat)));
        }
    }
}

/// `v` in decimal, as `{}` formats an `i32`.
pub(crate) fn decimal(v: i32) -> (s: String)
    ensures
        s@ == decimal_int(v as int),
{
    let mut out = String::new();
    if v < 0 {
        out.append("-");
        proof {
            reveal_strlit("-");
        }
        let m: u32 = (-(v as i64)) as u32;
        push_decimal(&mut out, m);
    } else {
        push_decimal(&mut out, v as u32);
    }
    out
}

/// A failed hypervisor call, carrying its return code.
#[derive(Clone, Copy, Debug, PartialEq, Eq, Structural)]
pub struct HVError(i32);

impl View for HVError {
    type V = i32;

    closed spec fn view(&self) -> i32 {
        self.0
    }
}

/// The error carrying return code `code`.
pub closed spec fn error_of(code: i32) -> HVError {
    HVError(code)
}

/// An error is its return code: `error_of` gives the error of each code,
/// and two errors with one code are one error.
pub proof fn lemma_error_of(code: i32, e: HVError)
    ensures
        error_of(code)@ == code,
        e@ == code ==> e == error_of(code),
{
}

impl HVError {
    /// The error of a call that returned `err`.
    pub fn from_error(err: i32) -> (e: Self)
        ensures
            e@ == err,
            e == error_of(err),
    {
        HVError(err)
    }

    /// The return code of the failed call.
    pub fn code(&self) -> (c: i32)
        ensures
            c == self@,
    {
        self.0
    }

    /// The return code in decimal, as the error displays.
    pub fn to_string(&self) -> (s: String)
        ensures
            s@ == decimal_int(self@ as int),
            self@ >= 0 ==> all_digits(s@) && numeral_value(s@) == self@ && (s@[0] == '0' ==> self@
                == 0),
            self@ < 0 ==> s@[0] == '-' && all_digits(s@.drop_first()) && numeral_value(
                s@.drop_first(),
            ) == -self@ && s@[1] != '0',
    {
        proof {
            lemma_decimal_int_is_numeral(self.0 as int);
            if self.0 >= 0 {
                lemma_decimal_nat_is_numeral(self.0 as nat);
            } else {
                lemma_decimal_nat_is_numeral((-self.0) as nat);
                assert(s_at_one(decimal_int(self.0 as int)) == decimal_nat((-self.0) as nat)[0]);
            }
        }
        decimal(self.0)
    }
}

/// The return code of a hypervisor call, read.
#[derive(Clone, Copy, Debug, PartialEq, Eq, Structural)]
pub enum HvStatus {
    Success,
    Error,
    Busy,
    BadArgument,
    NoResources,
    NoDevice,
    Unsupported,
    Unknown(i32),
}

/// What each return code means.
pub open spec fn hv_status_spec(code: i32) -> HvStatus {
    if code == HV_SUCCESS {
        HvStatus::Success
    } else if code == HV_ERROR {
        HvStatus::Error
    } else if code == HV_BUSY {
        HvStatus::Busy
    } else if code == HV_BAD_ARGUMENT {
        HvStatus::BadArgument
    } else if code == HV_NO_RESOURCES {
        HvStatus::NoResources
    } else if code == HV_NO_DEVICE {
        HvStatus::NoDevice
    } else if code == HV_UNSUPPORTED {
        HvStatus::Unsupported
    } else {
        HvStatus::Unknown(code)
    }
}

/// The return code each outcome stands for.
pub open spec fn status_code(s: HvStatus) -> i32 {
    match s {
        HvStatus::Success => HV_SUCCESS,
        HvStatus::Error => HV_ERROR,
        HvStatus::Busy => HV_BUSY,
        HvStatus::BadArgument => HV_BAD_ARGUMENT,
        HvStatus::NoResources => HV_NO_RESOURCES,
        HvStatus::NoDevice => HV_NO_DEVICE,
        HvStatus::Unsupported => HV_UNSUPPORTED,
        HvStatus::Unknown(v) => v,
    }
}

/// The codes the framework names.
pub open spec fn is_named_code(code: i32) -> bool {
    code == HV_SUCCESS || code == HV_ERROR || code == HV_BUSY || code == HV_BAD_ARGUMENT || code
        == HV_NO_RESOURCES || code == HV_NO_DEVICE || code == HV_UNSUPPORTED
}

/// Reading a return code loses nothing: each outcome stands for exactly the
/// code it was read from, a named outcome only for its own code, and every
/// code the framework does not name is read as unknown, carrying itself.
pub proof fn lemma_status_reads_its_code(code: i32)
    ensures
        status_code(hv_status_spec(code)) == code,
        !is_named_code(code) <==> hv_status_spec(code) == HvStatus::Unknown(code),
        is_named_code(code) ==> !(hv_status_spec(code) is Unknown),
{
}

/// Reads the return code of a hypervisor call.
pub fn hv_status(code: i32) -> (s: HvStatus)
    ensures
        s == hv_status_spec(code),
        status_code(s) == code,
        !is_named_code(code) ==> s == HvStatus::Unknown(code),
{
    if code == HV_SUCCESS {
        HvStatus::Success
    } else if code == HV_ERROR {
        HvStatus::Error
    } else if code == HV_BUSY {
        HvStatus::Busy
    } else if code == HV_BAD_ARGUMENT {
        HvStatus::BadArgument
    } else if code == HV_NO_RESOURCES {
        HvStatus::NoResources
    } else if code == HV_NO_DEVICE {
        HvStatus::NoDevice
    } else if code == HV_UNSUPPORTED {
        HvStatus::Unsupported
    } else {
        HvStatus::Unknown(code)
    }
}

/// The line reported for each outcome.
pub open spec fn status_message_spec(s: HvStatus) -> Seq<char> {
    match s {
        HvStatus::Success => "HV_SUCCESS: The operation completed successfully."@,
        HvStatus::Error => "HV_ERROR: The operation was unsuccessful."@,
        HvStatus::Busy => "HV_BUSY: The operation was unsuccessful because the owning resource was busy."@,
        HvStatus::BadArgument => "HV_BAD_ARGUMENT: The operation was unsuccessful because the function call had an invalid argument."@,
        HvStatus::NoResources => "HV_NO_RESOURCES: The operation was unsuccessful because the host had no resources available to complete the request."@,
        HvStatus::NoDevice => "HV_NO_DEVICE: The operation was unsuccessful because no VM or vCPU was available."@,
        HvStatus::Unsupported => "HV_UNSUPPORTED: The operation requested isn’t supported by the hypervisor."@,
        HvStatus::Unknown(v) => "unknown "@ + decimal_int(v as int),
    }
}

impl HvStatus {
    /// Whether the call succeeded; its line goes to standard output, the
    /// others to standard error.
    pub fn is_success(&self) -> (b: bool)
        ensures
            b == (*self is Success),
    {
        match self {
            HvStatus::Success => true,
            _ => false,
        }
    }

    /// The line reported for this outcome.
    pub fn message(&self) -> (m: String)
        ensures
            m@ == status_message_spec(*self),
    {
        match self {
            HvStatus::Success => String::from_str("HV_SUCCESS: The operation completed successfully."),
            HvStatus::Error => String::from_str("HV_ERROR: The operation was unsuccessful."),
            HvStatus::Busy => String::from_str(
                "HV_BUSY: The operation was unsuccessful because the owning resource was busy.",
            ),
            HvStatus::BadArgument => String::from_str(
                "HV_BAD_ARGUMENT: The operation was unsuccessful because the function call had an invalid argument.",
            ),
            HvStatus::NoResources => String::from_str(
                "HV_NO_RESOURCES: The operation was unsuccessful because the host had no resources available to complete the request.",
            ),
            HvStatus::NoDevice => String::from_str(
                "HV_NO_DEVICE: The operation was unsuccessful because no VM or vCPU was available.",
            ),
            HvStatus::Unsupported => String::from_str(
                "HV_UNSUPPORTED: The operation requested isn’t supported by the hypervisor.",
            ),
            HvStatus::Unknown(v) => {
                let mut m = String::from_str("unknown ");
                let d = decimal(*v);
                m.append(d.as_str());
                m
            },
        }
    }
}

/// The outcome of a hypervisor call: its code when it succeeded, the error
/// carrying the code otherwise.
pub fn hv_check(code: i32) -> (r: Result<i32, HVError>)
    ensures
        code == HV_SUCCESS ==> r == Ok::<i32, HVError>(code),
        code != HV_SUCCESS ==> r == Err::<i32, HVError>(error_of(code)),
        code != HV_SUCCESS ==> (r matches Err(e) && e@ == code),
{
    if code == HV_SUCCESS {
        Ok(code)
    } else {
        Err(HVError::from_error(code))
    }
}

/// The exception class of an exit: bits 31..26 of the syndrome.
pub open spec fn exception_class_spec(syndrome: u64) -> u64 {
    (syndrome >> 26u64) & 0x3f
}

/// The exception class of a hypervisor call (`hvc`) from AArch64.
pub const EC_HVC64: u64 = 0x16;

/// The exception class of an exit with this syndrome.
pub fn exception_class(syndrome: u64) -> (ec: u64)
    ensures
        ec == exception_class_spec(syndrome),
        ec == (syndrome / 0x400_0000) % 64,
{
    let ec = (syndrome >> 26u64) & 0x3f;
    assert(ec == (syndrome / 0x400_0000) % 64) by (bit_vector)
        requires
            ec == (syndrome >> 26u64) & 0x3f,
    ;
    ec
}

/// Whether the exit was caused by the guest executing `hvc`.
pub fn is_hvc_exit(syndrome: u64) -> (b: bool)
    ensures
        b == (exception_class_spec(syndrome) == EC_HVC64),
{
    exception_class(syndrome) == EC_HVC64
}

/// The exception class is a six-bit field: it is below 64, and it is read
/// from bits 31..26 alone, whatever the other bits hold.
pub proof fn lemma_exception_class_field(syndrome: u64, other: u64)
    ensures
        exception_class_spec(syndrome) < 64,
        other & 0xfc00_0000 == syndrome & 0xfc00_0000 ==> exception_class_spec(other)
            == exception_class_spec(syndrome),
{
    assert(((syndrome >> 26u64) & 0x3f) < 64 && (other & 0xfc00_0000 == syndrome & 0xfc00_0000
        ==> (other >> 26u64) & 0x3f == (syndrome >> 26u64) & 0x3f)) by (bit_vector);
}

} // verus!
