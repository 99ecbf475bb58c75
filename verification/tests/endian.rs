use fizyr_rpc::Endian;

fn native_is_little() -> bool {
	u32::from_ne_bytes([1, 0, 0, 0]) == 1
}

#[test]
fn write_u32_litte_endian_works() {
	let mut buffer = [0u8; 4];
	Endian::LittleEndian.write_u32(&mut buffer, 0x01020304);
	assert!(buffer == [0x04, 0x03, 0x02, 0x01]);
}

#[test]
fn write_u32_big_endian_works() {
	let mut buffer = [0u8; 4];
	Endian::BigEndian.write_u32(&mut buffer, 0x01020304);
	assert!(buffer == [0x01, 0x02, 0x03, 0x04]);
}

#[test]
fn write_u32_native_endian_works() {
	let mut buffer = [0u8; 4];
	Endian::LittleEndian.write_u32(&mut buffer, 0x01020304);
	if native_is_little() {
		assert!(buffer == [0x04, 0x03, 0x02, 0x01]);
	} else {
		assert!(buffer == [0x01, 0x02, 0x03, 0x04]);
	}
}

#[test]
fn read_u32_litte_endian_works() {
	assert!(Endian::LittleEndian.read_u32(&[0x04, 0x03, 0x02, 0x01]) == 0x01020304);
}

#[test]
fn read_u32_big_endian_works() {
	assert!(Endian::BigEndian.read_u32(&[0x01, 0x02, 0x03, 0x04]) == 0x01020304);
}

#[test]
fn read_u32_native_endian_works() {
	if native_is_little() {
		assert!(Endian::NativeEndian.read_u32(&[0x04, 0x03, 0x02, 0x01]) == 0x01020304);
	} else {
		assert!(Endian::NativeEndian.read_u32(&[0x01, 0x02, 0x03, 0x04]) == 0x01020304);
	}
}

#[test]
fn write_i32_litte_endian_works() {
	let mut buffer = [0u8; 4];
	Endian::LittleEndian.write_i32(&mut buffer, 0x01020304);
	assert!(buffer == [0x04, 0x03, 0x02, 0x01]);

	// 0x80000000 - 0x7efdfcfd = 0x01020305
	Endian::LittleEndian.write_i32(&mut buffer, -0x7efdfcfb);
	assert!(buffer == [0x05, 0x03, 0x02, 0x81]);
}

#[test]
fn write_i32_big_endian_works() {
	let mut buffer = [0u8; 4];
	Endian::BigEndian.write_i32(&mut buffer, 0x01020304);
	assert!(buffer == [0x01, 0x02, 0x03, 0x04]);

	// 0x80000000 - 0x7efdfcfd = 0x01020305
	Endian::BigEndian.write_i32(&mut buffer, -0x7efdfcfb);
	assert!(buffer == [0x81, 0x02, 0x03, 0x05]);
}

#[test]
fn write_i32_native_endian_works() {
	let mut buffer = [0u8; 4];
	Endian::NativeEndian.write_i32(&mut buffer, 0x01020304);
	if native_is_little() {
		assert!(buffer == [0x04, 0x03, 0x02, 0x01]);
	} else {
		assert!(buffer == [0x01, 0x02, 0x03, 0x04]);
	}

	// 0x80000000 - 0x7efdfcfd = 0x01020305
	Endian::NativeEndian.write_i32(&mut buffer, -0x7efdfcfb);
	if native_is_little() {
		assert!(buffer == [0x05, 0x03, 0x02, 0x81]);
	} else {
		assert!(buffer == [0x81, 0x02, 0x03, 0x05]);
	}
}

#[test]
fn read_i32_litte_endian_works() {
	assert!(Endian::LittleEndian.read_i32(&[0x04, 0x03, 0x02, 0x01]) == 0x01020304);
	// 0x80000000 - 0x7efdfcfd = 0x01020305
	assert!(Endian::LittleEndian.read_i32(&[0x05, 0x03, 0x02, 0x81]) == -0x7efdfcfb);
}

#[test]
fn read_i32_big_endian_works() {
	assert!(Endian::BigEndian.read_i32(&[0x01, 0x02, 0x03, 0x04]) == 0x01020304);
	// 0x80000000 - 0x7efdfcfd = 0x01020305
	assert!(Endian::BigEndian.read_i32(&[0x81, 0x02, 0x03, 0x05]) == -0x7efdfcfb);
}

#[test]
fn read_i32_native_endian_works() {
	if native_is_little() {
		assert!(Endian::NativeEndian.read_i32(&[0x04, 0x03, 0x02, 0x01]) == 0x01020304);
		// 0x80000000 - 0x7efdfcfd = 0x01020305
		assert!(Endian::NativeEndian.read_i32(&[0x05, 0x03, 0x02, 0x81]) == -0x7efdfcfb);
	} else {
		assert!(Endian::NativeEndian.read_i32(&[0x01, 0x02, 0x03, 0x04]) == 0x01020304);
		assert!(Endian::NativeEndian.read_i32(&[0x81, 0x02, 0x03, 0x05]) == -0x7efdfcfb);
	}
}

#[test]
fn endian_write_then_read_gives_value_back() {
	for endian in [Endian::LittleEndian, Endian::BigEndian, Endian::NativeEndian] {
		for value in [0u32, 1, 0x01020304, 0xdeadbeef, u32::MAX] {
			let mut buffer = [0u8; 4];
			endian.write_u32(&mut buffer, value);
			assert_eq!(endian.read_u32(&buffer), value);
		}
		for value in [0i32, -1, i32::MIN, i32::MAX, -0x7efdfcfb] {
			let mut buffer = [0u8; 4];
			endian.write_i32(&mut buffer, value);
			assert_eq!(endian.read_i32(&buffer), value);
		}
	}
}

#[test]
fn endian_offset_access_touches_only_four_bytes() {
	let mut buffer = [0xaau8; 8];
	Endian::BigEndian.write_u32_at(&mut buffer, 2, 0x01020304);
	assert_eq!(buffer, [0xaa, 0xaa, 0x01, 0x02, 0x03, 0x04, 0xaa, 0xaa]);
	assert_eq!(Endian::BigEndian.read_u32_at(&buffer, 2), 0x01020304);
	assert_eq!(Endian::LittleEndian.read_u32_at(&buffer, 2), 0x04030201);
}

#[test]
fn endian_resolve_gives_platform_order() {
	assert_eq!(Endian::LittleEndian.resolve(), Endian::LittleEndian);
	assert_eq!(Endian::BigEndian.resolve(), Endian::BigEndian);
	let expected = if native_is_little() { Endian::LittleEndian } else { Endian::BigEndian };
	assert_eq!(Endian::NativeEndian.resolve(), expected);
}
