//! Linux ioctl request numbers, laid out as in `asm-generic/ioctl.h`:
//! bits 0..8 hold the command number, bits 8..16 the driver type,
//! bits 16..30 the argument size and bits 30..32 the transfer direction.
use vstd::prelude::*;

verus! {

const _IOC_NRBITS: u32 = 8;
const _IOC_TYPEBITS: u32 = 8;
const _IOC_SIZEBITS: u32 = 14;
const _IOC_DIRBITS: u32 = 2;

const _IOC_NRSHIFT: u32 = 0;
const _IOC_TYPESHIFT: u32 = _IOC_NRSHIFT + _IOC_NRBITS;
const _IOC_SIZESHIFT: u32 = _IOC_TYPESHIFT + _IOC_TYPEBITS;
const _IOC_DIRSHIFT: u32 = _IOC_SIZESHIFT + _IOC_SIZEBITS;

/// No data is transferred.
pub const _IOC_NONE: u32 = 0;
/// User space writes, the driver reads.
pub const _IOC_WRITE: u32 = 1;
/// The driver writes, user space reads.
pub const _IOC_READ: u32 = 2;

/// The request number as the shifts and ors compute it, for any field values
/// (each shifted field keeps its low 32 bits, as a `u32` shift does).
pub open spec fn ioc_bits(dir: u32, ty: u32, nr: u32, size: u32) -> u64 {
    ((dir << 30u32) | (ty << 8u32) | nr | (size << 16u32)) as u64
}

/// Each field fits in its slot.
pub open spec fn ioc_fields_fit(dir: u32, ty: u32, nr: u32, size: u32) -> bool {
    &&& dir < 4
    &&& ty < 256
    &&& nr < 256
    &&& size < 0x4000
}

/// The request number as a sum of the fields at their places.
pub open spec fn ioc_value(dir: int, ty: int, nr: int, size: int) -> int {
    dir * 0x4000_0000 + size * 0x1_0000 + ty * 0x100 + nr
}

/// The direction field of a request number.
pub open spec fn ioc_dir_of(code: u64) -> u64 {
    (code >> 30u64) & 3
}

/// The driver type field of a request number.
pub open spec fn ioc_type_of(code: u64) -> u64 {
    (code >> 8u64) & 0xff
}

/// The command number field of a request number.
pub open spec fn ioc_nr_of(code: u64) -> u64 {
    code & 0xff
}

/// The argument size field of a request number.
pub open spec fn ioc_size_of(code: u64) -> u64 {
    (code >> 16u64) & 0x3fff
}

/// When the fields fit, the shifted-and-ored number is their placed sum.
pub proof fn lemma_ioc_bits_is_value(dir: u32, ty: u32, nr: u32, size: u32)
    requires
        ioc_fields_fit(dir, ty, nr, size),
    ensures
        ioc_bits(dir, ty, nr, size) as int == ioc_value(dir as int, ty as int, nr as int, size as int),
{
    assert(((dir << 30u32) | (ty << 8u32) | nr | (size << 16u32)) as u64
        == dir * 0x4000_0000u64 + size * 0x1_0000u64 + ty * 0x100u64 + nr) by (bit_vector)
        requires
            dir < 4,
            ty < 256,
            nr < 256,
            size < 0x4000,
    ;
}

/// A request number built from fields that fit gives each field back, and
/// fits in 32 bits.
pub proof fn lemma_ioc_fields_round_trip(dir: u32, ty: u32, nr: u32, size: u32)
    requires
        ioc_fields_fit(dir, ty, nr, size),
    ensures
        ioc_dir_of(ioc_bits(dir, ty, nr, size)) == dir,
        ioc_type_of(ioc_bits(dir, ty, nr, size)) == ty,
        ioc_nr_of(ioc_bits(dir, ty, nr, size)) == nr,
        ioc_size_of(ioc_bits(dir, ty, nr, size)) == size,
        ioc_bits(dir, ty, nr, size) < 0x1_0000_0000,
{
    let code = ioc_bits(dir, ty, nr, size);
    assert((code >> 30u64) & 3 == dir && (code >> 8u64) & 0xff == ty && code & 0xff == nr && (
    code >> 16u64) & 0x3fff == size && code < 0x1_0000_0000) by (bit_vector)
        requires
            code == ((dir << 30u32) | (ty << 8u32) | nr | (size << 16u32)) as u64,
            dir < 4,
            ty < 256,
            nr < 256,
            size < 0x4000,
    ;
}

/// Two requests whose fields fit share a number only when they share every
/// field: the encoding loses nothing.
pub proof fn lemma_ioc_injective(
    dir1: u32,
    ty1: u32,
    nr1: u32,
    size1: u32,
    dir2: u32,
    ty2: u32,
    nr2: u32,
    size2: u32,
)
    requires
        ioc_fields_fit(dir1, ty1, nr1, size1),
        ioc_fields_fit(dir2, ty2, nr2, size2),
        ioc_bits(dir1, ty1, nr1, size1) == ioc_bits(dir2, ty2, nr2, size2),
    ensures
        dir1 == dir2,
        ty1 == ty2,
        nr1 == nr2,
        size1 == size2,
{
    lemma_ioc_fields_round_trip(dir1, ty1, nr1, size1);
    lemma_ioc_fields_round_trip(dir2, ty2, nr2, size2);
}

/// Builds an ioctl request number from its direction, driver type, command
/// number and argument size.
pub fn _IOC(dir: u32, _type: u32, nr: u32, size: u32) -> (code: u64)
    ensures
        code == ioc_bits(dir, _type, nr, size),
        ioc_fields_fit(dir, _type, nr, size) ==> code as int == ioc_value(
            dir as int,
            _type as int,
            nr as int,
            size as int,
        ),
{
    let code = ((dir << _IOC_DIRSHIFT) | (_type << _IOC_TYPESHIFT) | (nr << _IOC_NRSHIFT) | (
    size << _IOC_SIZESHIFT)) as u64;
    proof {
        assert(_IOC_NRSHIFT == 0 && _IOC_TYPESHIFT == 8 && _IOC_SIZESHIFT == 16 && _IOC_DIRSHIFT
            == 30);
        assert(nr << 0u32 == nr) by (bit_vector);
        if ioc_fields_fit(dir, _type, nr, size) {
            lemma_ioc_bits_is_value(dir, _type, nr, size);
        }
    }
    code
}

/// A request number for a command without an argument.
pub fn _IO(_type: u32, nr: u32) -> (code: u64)
    ensures
        code == ioc_bits(_IOC_NONE, _type, nr, 0),
        _type < 256 && nr < 256 ==> code as int == ioc_value(0, _type as int, nr as int, 0),
{
    _IOC(_IOC_NONE, _type, nr, 0)
}

/// A request number for a command whose argument the driver writes.
pub fn _IOR(_type: u32, nr: u32, size: u32) -> (code: u64)
    ensures
        code == ioc_bits(_IOC_READ, _type, nr, size),
        ioc_fields_fit(_IOC_READ, _type, nr, size) ==> code as int == ioc_value(
            2,
            _type as int,
            nr as int,
            size as int,
        ),
{
    _IOC(_IOC_READ, _type, nr, size)
}

/// A request number for a command whose argument the driver reads.
pub fn _IOW(_type: u32, nr: u32, size: u32) -> (code: u64)
    ensures
        code == ioc_bits(_IOC_WRITE, _type, nr, size),
        ioc_fields_fit(_IOC_WRITE, _type, nr, size) ==> code as int == ioc_value(
            1,
            _type as int,
            nr as int,
            size as int,
        ),
{
    _IOC(_IOC_WRITE, _type, nr, size)
}

/// A request number for a command whose argument goes both ways.
pub fn _IOWR(_type: u32, nr: u32, size: u32) -> (code: u64)
    ensures
        code == ioc_bits(_IOC_READ | _IOC_WRITE, _type, nr, size),
        ioc_fields_fit(3, _type, nr, size) ==> code as int == ioc_value(
            3,
            _type as int,
            nr as int,
            size as int,
        ),
{
    assert(_IOC_READ | _IOC_WRITE == 3u32) by (bit_vector);
    _IOC(_IOC_READ | _IOC_WRITE, _type, nr, size)
}

} // verus!
