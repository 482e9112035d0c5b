use gbcore::memory::Bus;

fn rom_of(len: usize) -> Vec<u8> {
    (0..len).map(|i| (i % 251) as u8).collect()
}

#[test]
fn bootrom_is_loaded() {
    let bus = Bus::new(Vec::new());
    assert_eq!(bus.get_bootrom(0x00), 0x31);
    assert_eq!(bus.get_bootrom(0x01), 0xFE);
    assert_eq!(bus.get_bootrom(0xFF), 0x50);
}

#[test]
fn rom_reads_delegate_to_cartridge() {
    let mut bus = Bus::new(rom_of(0x8000));
    assert_eq!(bus.get_address(0x0000), 0);
    assert_eq!(bus.get_address(0x0150), (0x150 % 251) as u8);
    assert_eq!(bus.get_address(0x7FFF), (0x7FFF % 251) as u8);
    bus.write_byte(0x0150, 0xAA);
    assert_eq!(bus.get_address(0x0150), (0x150 % 251) as u8);
}

#[test]
fn short_rom_reads_open_bus() {
    let bus = Bus::new(vec![1, 2, 3]);
    assert_eq!(bus.get_address(0x0002), 3);
    assert_eq!(bus.get_address(0x0003), 0xFF);
    assert_eq!(bus.get_address(0x7FFF), 0xFF);
}

#[test]
fn ram_regions_read_back_writes() {
    let mut bus = Bus::new(Vec::new());
    let addrs: [u16; 12] = [
        0x8000, 0x9FFF, 0xA000, 0xBFFF, 0xC000, 0xDFFF, 0xFE00, 0xFE9F, 0xFF00, 0xFF7F, 0xFF80,
        0xFFFE,
    ];
    for (k, a) in addrs.iter().enumerate() {
        assert_eq!(bus.get_address(*a), 0);
        bus.write_byte(*a, k as u8 + 1);
    }
    for (k, a) in addrs.iter().enumerate() {
        assert_eq!(bus.get_address(*a), k as u8 + 1);
    }
    bus.write_byte(0xFFFF, 0x1F);
    assert_eq!(bus.get_address(0xFFFF), 0x1F);
    assert_eq!(bus.get_address(0xFFFE), 12);
}

#[test]
fn echo_mirrors_working_memory() {
    let mut bus = Bus::new(Vec::new());
    bus.write_byte(0xC123, 0x5A);
    assert_eq!(bus.get_address(0xE123), 0x5A);
    bus.write_byte(0xFDFF, 0x77);
    assert_eq!(bus.get_address(0xDDFF), 0x77);
    bus.write_byte(0xE000, 0x01);
    assert_eq!(bus.get_address(0xC000), 0x01);
    bus.write_byte(0xDE00, 0x99);
    assert_eq!(bus.get_address(0xFE00), 0x00);
}

#[test]
fn prohibited_region_reads_zero() {
    let mut bus = Bus::new(Vec::new());
    for a in 0xFEA0u16..=0xFEFF {
        bus.write_byte(a, 0xFF);
        assert_eq!(bus.get_address(a), 0);
    }
    assert_eq!(bus.get_address(0xFE9F), 0);
    assert_eq!(bus.get_address(0xFF00), 0);
}
