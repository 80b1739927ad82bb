//! I2C buses: bus classification, validated bus handles, the native calls
//! made on a bus and the translation of their return codes.
use vstd::prelude::*;

verus! {

/// Native classification code of a bus for unknown or special purposes.
pub const CGOS_I2C_TYPE_UNKNOWN: u32 = 0;

/// Native classification code of the primary I2C bus.
pub const CGOS_I2C_TYPE_PRIMARY: u32 = 0x0001_0000;

/// Native classification code of the system management bus.
pub const CGOS_I2C_TYPE_SMB: u32 = 0x0002_0000;

/// Native classification code of the I2C bus of the DDC interface.
pub const CGOS_I2C_TYPE_DDC: u32 = 0x0003_0000;

/// Error type for I2C operations.
#[derive(PartialEq, Eq, Structural, Copy, Clone, Debug)]
pub enum Error {
    /// User-supplied index is out of range
    IndexOutOfRange,
    /// I2C bus transaction failed
    Bus,
}

/// Classification of an I2C bus.
#[derive(PartialEq, Eq, Structural, Copy, Clone, Debug)]
pub enum I2cKind {
    Unknown,
    Primary,
    Smb,
    Ddc,
    /// A code the native header does not declare; some boards report such
    /// codes for buses reserved to the vendor.
    CongatecInternalUse(u32),
}

/// The native code of a bus classification.
pub open spec fn kind_code(k: I2cKind) -> u32 {
    match k {
        I2cKind::Unknown => CGOS_I2C_TYPE_UNKNOWN,
        I2cKind::Primary => CGOS_I2C_TYPE_PRIMARY,
        I2cKind::Smb => CGOS_I2C_TYPE_SMB,
        I2cKind::Ddc => CGOS_I2C_TYPE_DDC,
        I2cKind::CongatecInternalUse(x) => x,
    }
}

/// The bus classification of a native code: a declared code gives its named
/// variant, any other code the reserved variant holding it.
pub open spec fn kind_of_code(code: u32) -> I2cKind {
    if code == CGOS_I2C_TYPE_UNKNOWN {
        I2cKind::Unknown
    } else if code == CGOS_I2C_TYPE_PRIMARY {
        I2cKind::Primary
    } else if code == CGOS_I2C_TYPE_SMB {
        I2cKind::Smb
    } else if code == CGOS_I2C_TYPE_DDC {
        I2cKind::Ddc
    } else {
        I2cKind::CongatecInternalUse(code)
    }
}

/// Whether a native code is one of the declared bus classifications.
pub open spec fn is_declared_kind_code(code: u32) -> bool {
    code == CGOS_I2C_TYPE_UNKNOWN || code == CGOS_I2C_TYPE_PRIMARY || code == CGOS_I2C_TYPE_SMB
        || code == CGOS_I2C_TYPE_DDC
}

impl From<I2cKind> for u32 {
    fn from(val: I2cKind) -> (r: u32)
        ensures
            r == kind_code(val),
    {
        match val {
            I2cKind::Unknown => CGOS_I2C_TYPE_UNKNOWN,
            I2cKind::Primary => CGOS_I2C_TYPE_PRIMARY,
            I2cKind::Smb => CGOS_I2C_TYPE_SMB,
            I2cKind::Ddc => CGOS_I2C_TYPE_DDC,
            I2cKind::CongatecInternalUse(x) => x,
        }
    }
}

impl vstd::std_specs::convert::FromSpecImpl<I2cKind> for u32 {
    open spec fn obeys_from_spec() -> bool {
        true
    }

    open spec fn from_spec(v: I2cKind) -> u32 {
        kind_code(v)
    }
}

impl From<u32> for I2cKind {
    /// Never fails: a code the header does not declare gives the reserved
    /// variant.
    fn from(value: u32) -> (r: I2cKind)
        ensures
            r == kind_of_code(value),
    {
        if value == CGOS_I2C_TYPE_UNKNOWN {
            I2cKind::Unknown
        } else if value == CGOS_I2C_TYPE_PRIMARY {
            I2cKind::Primary
        } else if value == CGOS_I2C_TYPE_SMB {
            I2cKind::Smb
        } else if value == CGOS_I2C_TYPE_DDC {
            I2cKind::Ddc
        } else {
            I2cKind::CongatecInternalUse(value)
        }
    }
}

impl vstd::std_specs::convert::FromSpecImpl<u32> for I2cKind {
    open spec fn obeys_from_spec() -> bool {
        true
    }

    open spec fn from_spec(v: u32) -> I2cKind {
        kind_of_code(v)
    }
}


/// A code the header does not declare comes back unchanged through the
/// reserved variant.
pub proof fn lemma_reserved_kind_round_trip(code: u32)
    requires
        !is_declared_kind_code(code),
    ensures
        kind_of_code(code) == I2cKind::CongatecInternalUse(code),
        kind_code(kind_of_code(code)) == code,
{
}

/// A declared code gives its named variant, and that variant gives back
/// exactly the declared code.
pub proof fn lemma_declared_kind_round_trip(code: u32)
    requires
        is_declared_kind_code(code),
    ensures
        kind_of_code(code) !is CongatecInternalUse,
        code == CGOS_I2C_TYPE_UNKNOWN ==> kind_of_code(code) == I2cKind::Unknown,
        code == CGOS_I2C_TYPE_PRIMARY ==> kind_of_code(code) == I2cKind::Primary,
        code == CGOS_I2C_TYPE_SMB ==> kind_of_code(code) == I2cKind::Smb,
        code == CGOS_I2C_TYPE_DDC ==> kind_of_code(code) == I2cKind::Ddc,
        kind_code(kind_of_code(code)) == code,
{
}

/// A bus of a board: the device handle of an open board session and the
/// index of the bus on that board.
///
/// A value is only made by [`I2c::new`], which holds the index below the bus
/// count that the native library reported. The handle is not owned: the
/// session that issued it must outlive the bus.
#[derive(Clone, Copy, PartialEq, Eq, Structural, Debug)]
pub struct I2c {
    handle: u32,
    index: u32,
}

/// A native call of the I2C family, with the arguments to hand it.
///
/// `handle` is the board session's device handle and `bus` the bus index.
/// Lengths are the byte counts of the buffers handed along with the call.
#[derive(Clone, Copy, PartialEq, Eq, Structural, Debug)]
pub enum I2cCall {
    /// `CgosI2CCount`: the number of buses of the board.
    Count { handle: u32 },
    /// `CgosI2CType`: the classification code of a bus.
    Type { handle: u32, bus: u32 },
    /// `CgosI2CIsAvailable`: whether a bus can be used.
    IsAvailable { handle: u32, bus: u32 },
    /// `CgosI2CRead`: receive `len` bytes from device `address`.
    Read { handle: u32, bus: u32, address: u8, len: u32 },
    /// `CgosI2CWrite`: send `len` bytes to device `address`.
    Write { handle: u32, bus: u32, address: u8, len: u32 },
    /// `CgosI2CReadRegister`: read the byte at `register` of device `address`.
    ReadRegister { handle: u32, bus: u32, address: u8, register: u16 },
    /// `CgosI2CWriteRegister`: write `value` at `register` of device `address`.
    WriteRegister { handle: u32, bus: u32, address: u8, register: u16, value: u8 },
    /// `CgosI2CWriteReadCombined`: send `wr_len` bytes, then receive
    /// `rd_len` bytes, in one transaction.
    WriteReadCombined { handle: u32, bus: u32, address: u8, wr_len: u32, rd_len: u32 },
    /// `CgosI2CGetMaxFrequency`: the highest frequency of a bus, in Hz.
    GetMaxFrequency { handle: u32, bus: u32 },
    /// `CgosI2CGetFrequency`: the frequency of a bus, in Hz.
    GetFrequency { handle: u32, bus: u32 },
    /// `CgosI2CSetFrequency`: set the frequency of a bus, in Hz.
    SetFrequency { handle: u32, bus: u32, frequency: u32 },
}

/// The result of an I2C call from its return code: zero reports a failed
/// call, any other value success with `value`.
pub fn bus_result<T>(retcode: u32, value: T) -> (r: Result<T, Error>)
    ensures
        retcode == 0 ==> r == Err::<T, Error>(Error::Bus),
        retcode != 0 ==> r == Ok::<T, Error>(value),
{
    if retcode == 0 {
        return Err(Error::Bus);
    }
    Ok(value)
}

/// Whether a bus is available, from the answer of `CgosI2CIsAvailable`:
/// only the sentinel 1 means available; any other value, an error
/// included, means unavailable.
pub fn availability(raw: u32) -> (r: bool)
    ensures
        r == (raw == 1),
{
    raw == 1
}

impl I2c {
    /// The call that asks for the number of buses of the board `handle`.
    pub fn amount_call(handle: u32) -> (r: I2cCall)
        ensures
            r == (I2cCall::Count { handle }),
    {
        I2cCall::Count { handle }
    }

    /// A bus of board `handle`, where `amount` is the bus count that the
    /// native library reports for it at this time. Fails with
    /// `IndexOutOfRange` exactly when `index` is not below `amount`, an empty
    /// board included.
    pub fn new(handle: u32, index: usize, amount: u32) -> (r: Result<I2c, Error>)
        ensures
            index < amount ==> (r matches Ok(b) && b.handle() == handle && b.index() == index),
            index >= amount ==> r == Err::<I2c, Error>(Error::IndexOutOfRange),
    {
        if index >= amount as usize {
            return Err(Error::IndexOutOfRange);
        }
        let index: u32 = index as u32;
        Ok(I2c { handle, index })
    }

    /// The call that asks for the classification code of this bus; its
    /// answer goes through `I2cKind::from`.
    pub fn i2c_type_call(&self) -> (r: I2cCall)
        ensures
            r == (I2cCall::Type { handle: self.handle(), bus: self.index() }),
    {
        I2cCall::Type { handle: self.handle, bus: self.index }
    }

    /// The call that probes whether this bus is available; its answer goes
    /// through [`availability`].
    pub fn is_available_call(&self) -> (r: I2cCall)
        ensures
            r == (I2cCall::IsAvailable { handle: self.handle(), bus: self.index() }),
    {
        I2cCall::IsAvailable { handle: self.handle, bus: self.index }
    }

    /// The call that fills a buffer of `len` bytes from device
    /// `bus_address`. The buffer holds what was received only where
    /// [`bus_result`] gives `Ok`.
    pub fn read_call(&self, bus_address: u8, len: usize) -> (r: I2cCall)
        requires
            len <= u32::MAX,
        ensures
            r == (I2cCall::Read {
                handle: self.handle(),
                bus: self.index(),
                address: bus_address,
                len: len as u32,
            }),
    {
        I2cCall::Read { handle: self.handle, bus: self.index, address: bus_address, len: len as u32 }
    }

    /// The call that sends the `len` bytes of a buffer to device `bus_addr`.
    pub fn write_call(&self, bus_addr: u8, len: usize) -> (r: I2cCall)
        requires
            len <= u32::MAX,
        ensures
            r == (I2cCall::Write {
                handle: self.handle(),
                bus: self.index(),
                address: bus_addr,
                len: len as u32,
            }),
    {
        I2cCall::Write { handle: self.handle, bus: self.index, address: bus_addr, len: len as u32 }
    }

    /// The call that reads the byte at the 16-bit register `reg_addr` of
    /// device `bus_addr`.
    pub fn read_register_call(&self, bus_addr: u8, reg_addr: u16) -> (r: I2cCall)
        ensures
            r == (I2cCall::ReadRegister {
                handle: self.handle(),
                bus: self.index(),
                address: bus_addr,
                register: reg_addr,
            }),
    {
        I2cCall::ReadRegister {
            handle: self.handle,
            bus: self.index,
            address: bus_addr,
            register: reg_addr,
        }
    }

    /// The call that writes `val` at the 16-bit register `reg_addr` of
    /// device `bus_addr`.
    pub fn write_register_call(&self, bus_addr: u8, reg_addr: u16, val: u8) -> (r: I2cCall)
        ensures
            r == (I2cCall::WriteRegister {
                handle: self.handle(),
                bus: self.index(),
                address: bus_addr,
                register: reg_addr,
                value: val,
            }),
    {
        I2cCall::WriteRegister {
            handle: self.handle,
            bus: self.index,
            address: bus_addr,
            register: reg_addr,
            value: val,
        }
    }

    /// The call that sends a buffer of `wr_len` bytes to device `bus_addr`
    /// and then fills one of `rd_len` bytes from it, without releasing the
    /// bus in between. With nothing to write it is a plain read of `rd_len`
    /// bytes from the same device.
    pub fn write_read_combined_call(&self, bus_addr: u8, wr_len: usize, rd_len: usize) -> (r:
        I2cCall)
        requires
            wr_len <= u32::MAX,
            rd_len <= u32::MAX,
        ensures
            r == (I2cCall::WriteReadCombined {
                handle: self.handle(),
                bus: self.index(),
                address: bus_addr,
                wr_len: wr_len as u32,
                rd_len: rd_len as u32,
            }),
            wr_len == 0 ==> (r matches I2cCall::WriteReadCombined { address: a, wr_len: w, rd_len: n, .. }
                && a == bus_addr && w == 0 && n == rd_len),
    {
        I2cCall::WriteReadCombined {
            handle: self.handle,
            bus: self.index,
            address: bus_addr,
            wr_len: wr_len as u32,
            rd_len: rd_len as u32,
        }
    }

    /// The call that asks for the highest frequency of this bus, in Hz.
    pub fn get_max_frequency_call(&self) -> (r: I2cCall)
        ensures
            r == (I2cCall::GetMaxFrequency { handle: self.handle(), bus: self.index() }),
    {
        I2cCall::GetMaxFrequency { handle: self.handle, bus: self.index }
    }

    /// The call that asks for the frequency of this bus, in Hz.
    pub fn get_frequency_call(&self) -> (r: I2cCall)
        ensures
            r == (I2cCall::GetFrequency { handle: self.handle(), bus: self.index() }),
    {
        I2cCall::GetFrequency { handle: self.handle, bus: self.index }
    }

    /// The call that sets the frequency of this bus to `frequency` Hz.
    pub fn set_frequency_call(&self, frequency: u32) -> (r: I2cCall)
        ensures
            r == (I2cCall::SetFrequency { handle: self.handle(), bus: self.index(), frequency }),
    {
        I2cCall::SetFrequency { handle: self.handle, bus: self.index, frequency }
    }

    /// The device handle of the board session.
    pub closed spec fn spec_handle(&self) -> u32 {
        self.handle
    }

    /// The index of the bus on its board.
    pub closed spec fn spec_index(&self) -> u32 {
        self.index
    }

    /// The device handle of the board session.
    #[verifier::when_used_as_spec(spec_handle)]
    pub fn handle(&self) -> (r: u32)
        ensures
            r == self.handle(),
    {
        self.handle
    }

    /// The index of the bus on its board.
    #[verifier::when_used_as_spec(spec_index)]
    pub fn index(&self) -> (r: u32)
        ensures
            r == self.index(),
    {
        self.index
    }
}

} // verus!
