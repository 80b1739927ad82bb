use cgos::i2c::{
    availability, bus_result, Error, I2c, I2cCall, I2cKind, CGOS_I2C_TYPE_DDC,
    CGOS_I2C_TYPE_PRIMARY, CGOS_I2C_TYPE_SMB, CGOS_I2C_TYPE_UNKNOWN,
};

#[test]
fn new_rejects_index_at_or_above_amount() {
    for i in 3usize..10 {
        assert_eq!(I2c::new(7, i, 3), Err(Error::IndexOutOfRange));
    }
    assert_eq!(I2c::new(7, usize::MAX, 3), Err(Error::IndexOutOfRange));
}

#[test]
fn new_rejects_every_index_on_empty_board() {
    assert_eq!(I2c::new(7, 0, 0), Err(Error::IndexOutOfRange));
    assert_eq!(I2c::new(7, 1, 0), Err(Error::IndexOutOfRange));
}

#[test]
fn new_accepts_index_below_amount() {
    for i in 0usize..3 {
        let bus = I2c::new(7, i, 3).unwrap();
        assert_eq!(bus.index() as usize, i);
        assert_eq!(bus.handle(), 7);
    }
    let top = I2c::new(1, (u32::MAX - 1) as usize, u32::MAX).unwrap();
    assert_eq!(top.index(), u32::MAX - 1);
}

#[test]
fn new_three_buses_scenario() {
    let bus = I2c::new(42, 2, 3).unwrap();
    assert_eq!(bus.index(), 2);
    assert_eq!(I2c::new(42, 3, 3), Err(Error::IndexOutOfRange));
}

#[test]
fn amount_call_names_handle() {
    assert_eq!(I2c::amount_call(9), I2cCall::Count { handle: 9 });
}

#[test]
fn reserved_kind_round_trip() {
    for code in [1u32, 0x0004_0000, 0x0001_0001, 0xdead_beef, u32::MAX] {
        let kind = I2cKind::from(code);
        assert_eq!(kind, I2cKind::CongatecInternalUse(code));
        assert_eq!(u32::from(kind), code);
    }
}

#[test]
fn declared_kinds_map_exactly() {
    assert_eq!(I2cKind::from(0u32), I2cKind::Unknown);
    assert_eq!(I2cKind::from(0x0001_0000u32), I2cKind::Primary);
    assert_eq!(I2cKind::from(0x0002_0000u32), I2cKind::Smb);
    assert_eq!(I2cKind::from(0x0003_0000u32), I2cKind::Ddc);
    assert_eq!(u32::from(I2cKind::Unknown), CGOS_I2C_TYPE_UNKNOWN);
    assert_eq!(u32::from(I2cKind::Primary), CGOS_I2C_TYPE_PRIMARY);
    assert_eq!(u32::from(I2cKind::Smb), CGOS_I2C_TYPE_SMB);
    assert_eq!(u32::from(I2cKind::Ddc), CGOS_I2C_TYPE_DDC);
}

#[test]
fn availability_needs_sentinel_one() {
    assert!(availability(1));
    assert!(!availability(0));
    assert!(!availability(2));
    assert!(!availability(u32::MAX));
}

#[test]
fn bus_failure_is_bus_error() {
    assert_eq!(bus_result(0, ()), Err(Error::Bus));
    assert_eq!(bus_result(0, 0x5au8), Err(Error::Bus));
    assert_eq!(bus_result(0, 100_000u32), Err(Error::Bus));
}

#[test]
fn bus_success_keeps_value() {
    assert_eq!(bus_result(1, ()), Ok(()));
    assert_eq!(bus_result(u32::MAX, 0x5au8), Ok(0x5a));
    assert_eq!(bus_result(3, 400_000u32), Ok(400_000));
}

#[test]
fn calls_carry_bus_arguments() {
    let bus = I2c::new(11, 1, 2).unwrap();
    assert_eq!(bus.i2c_type_call(), I2cCall::Type { handle: 11, bus: 1 });
    assert_eq!(bus.is_available_call(), I2cCall::IsAvailable { handle: 11, bus: 1 });
    assert_eq!(
        bus.read_call(0x50, 16),
        I2cCall::Read { handle: 11, bus: 1, address: 0x50, len: 16 }
    );
    assert_eq!(
        bus.write_call(0x51, 3),
        I2cCall::Write { handle: 11, bus: 1, address: 0x51, len: 3 }
    );
    assert_eq!(
        bus.read_register_call(0x52, 0x1234),
        I2cCall::ReadRegister { handle: 11, bus: 1, address: 0x52, register: 0x1234 }
    );
    assert_eq!(
        bus.write_register_call(0x53, 0xbeef, 0x7f),
        I2cCall::WriteRegister { handle: 11, bus: 1, address: 0x53, register: 0xbeef, value: 0x7f }
    );
    assert_eq!(bus.get_max_frequency_call(), I2cCall::GetMaxFrequency { handle: 11, bus: 1 });
    assert_eq!(bus.get_frequency_call(), I2cCall::GetFrequency { handle: 11, bus: 1 });
    assert_eq!(
        bus.set_frequency_call(100_000),
        I2cCall::SetFrequency { handle: 11, bus: 1, frequency: 100_000 }
    );
}

#[test]
fn combined_with_empty_write_is_pure_read() {
    let bus = I2c::new(11, 0, 1).unwrap();
    let wr: [u8; 0] = [];
    let rd = [0u8; 8];
    assert_eq!(
        bus.write_read_combined_call(0x50, wr.len(), rd.len()),
        I2cCall::WriteReadCombined { handle: 11, bus: 0, address: 0x50, wr_len: 0, rd_len: 8 }
    );
}

#[test]
fn combined_carries_both_lengths() {
    let bus = I2c::new(11, 0, 1).unwrap();
    assert_eq!(
        bus.write_read_combined_call(0x50, 2, 5),
        I2cCall::WriteReadCombined { handle: 11, bus: 0, address: 0x50, wr_len: 2, rd_len: 5 }
    );
}

#[test]
fn read_call_largest_length() {
    let bus = I2c::new(11, 0, 1).unwrap();
    assert_eq!(
        bus.read_call(0x50, u32::MAX as usize),
        I2cCall::Read { handle: 11, bus: 0, address: 0x50, len: u32::MAX }
    );
}
