use uacpi::pci::{pci_extract, pci_merge, pci_register_offset};
use uacpi::PCIAddress;

/// A configuration space of 32-bit registers, accessed the way a host must: whole
/// registers only.
struct ConfigSpace {
    regs: Vec<u32>,
    writes: Vec<(usize, u32)>,
}

impl ConfigSpace {
    fn read(&self, offset: usize, width: u8) -> u64 {
        let reg = pci_register_offset(offset);
        pci_extract(self.regs[reg / 4], offset, width)
    }

    fn write(&mut self, offset: usize, width: u8, val: u64) {
        let reg = pci_register_offset(offset);
        let word = pci_merge(self.regs[reg / 4], offset, width, val);
        self.regs[reg / 4] = word;
        self.writes.push((reg, word));
    }
}

#[test]
fn byte_write_leaves_neighbours_alone() {
    let mut cs = ConfigSpace { regs: vec![0x4433_2211, 0], writes: Vec::new() };
    cs.write(1, 1, 0xAB);
    assert_eq!(cs.regs[0], 0x4433_AB11);
    assert_eq!(cs.writes, vec![(0, 0x4433_AB11)]);
    assert_eq!(cs.read(0, 1), 0x11);
    assert_eq!(cs.read(1, 1), 0xAB);
    assert_eq!(cs.read(2, 1), 0x33);
    assert_eq!(cs.read(3, 1), 0x44);
}

#[test]
fn word_access_in_the_upper_half() {
    let mut cs = ConfigSpace { regs: vec![0, 0x8086_1237], writes: Vec::new() };
    assert_eq!(cs.read(6, 2), 0x8086);
    assert_eq!(cs.read(4, 2), 0x1237);
    cs.write(6, 2, 0x1_BEEF);
    assert_eq!(cs.regs[1], 0xBEEF_1237);
}

#[test]
fn dword_access_is_the_register() {
    let mut cs = ConfigSpace { regs: vec![0x1234_5678], writes: Vec::new() };
    assert_eq!(cs.read(0, 4), 0x1234_5678);
    cs.write(0, 4, 0xFFFF_FFFF_0000_0001);
    assert_eq!(cs.regs[0], 1);
}

#[test]
fn register_offsets_round_down() {
    assert_eq!(pci_register_offset(0), 0);
    assert_eq!(pci_register_offset(3), 0);
    assert_eq!(pci_register_offset(0x3D), 0x3C);
}

#[test]
fn pci_address_parts_and_text() {
    let a = PCIAddress::new(0, 0, 0x1f, 3);
    assert_eq!(a.segment(), 0);
    assert_eq!(a.bus(), 0);
    assert_eq!(a.device(), 0x1f);
    assert_eq!(a.function(), 3);
    assert_eq!(a.describe(), "0:0:1f:3");
    assert_eq!(PCIAddress::new(0xabcd, 0xff, 0x10, 7).describe(), "abcd:ff:10:7");
}
