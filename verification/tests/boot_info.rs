use stivale::cstring::{check_cstring, read_cstring};
use stivale::memory::MemoryMapEntryType;
use stivale::window::MemoryWindow;
use stivale::{load, validate, StivaleFlag, StivaleStructure, STRUCTURE_SIZE};

const BASE: u64 = 0x0008_0000;
const ROOT: u64 = BASE + 0x10;
const CMDLINE: u64 = BASE + 0x100;
const MEMORY_MAP: u64 = BASE + 0x200;
const MODULES: u64 = BASE + 0x400;
const SIZE: usize = 0x800;

#[derive(Clone, Copy)]
struct Root {
    cmdline: u64,
    memory_map_addr: u64,
    memory_map_entries: u64,
    framebuffer: (u64, u16, u16, u16, u16),
    rsdp: u64,
    module_count: u64,
    modules: u64,
    epoch: u64,
    flags: u64,
}

impl Root {
    fn bytes(&self) -> Vec<u8> {
        let mut bytes = Vec::new();
        bytes.extend_from_slice(&self.cmdline.to_le_bytes());
        bytes.extend_from_slice(&self.memory_map_addr.to_le_bytes());
        bytes.extend_from_slice(&self.memory_map_entries.to_le_bytes());
        bytes.extend_from_slice(&self.framebuffer.0.to_le_bytes());
        bytes.extend_from_slice(&self.framebuffer.1.to_le_bytes());
        bytes.extend_from_slice(&self.framebuffer.2.to_le_bytes());
        bytes.extend_from_slice(&self.framebuffer.3.to_le_bytes());
        bytes.extend_from_slice(&self.framebuffer.4.to_le_bytes());
        bytes.extend_from_slice(&self.rsdp.to_le_bytes());
        bytes.extend_from_slice(&self.module_count.to_le_bytes());
        bytes.extend_from_slice(&self.modules.to_le_bytes());
        bytes.extend_from_slice(&self.epoch.to_le_bytes());
        bytes.extend_from_slice(&self.flags.to_le_bytes());
        bytes
    }
}

fn put(image: &mut [u8], addr: u64, bytes: &[u8]) {
    let at = (addr - BASE) as usize;
    image[at..at + bytes.len()].copy_from_slice(bytes);
}

fn entry(base: u64, length: u64, entry_type: u32) -> Vec<u8> {
    let mut bytes = Vec::new();
    bytes.extend_from_slice(&base.to_le_bytes());
    bytes.extend_from_slice(&length.to_le_bytes());
    bytes.extend_from_slice(&entry_type.to_le_bytes());
    bytes.extend_from_slice(&0u32.to_le_bytes());
    bytes
}

fn record(start: u64, end: u64, string: &[u8], next: u64) -> Vec<u8> {
    let mut bytes = Vec::new();
    bytes.extend_from_slice(&start.to_le_bytes());
    bytes.extend_from_slice(&end.to_le_bytes());
    let mut field = [0u8; 128];
    field[..string.len()].copy_from_slice(string);
    bytes.extend_from_slice(&field);
    bytes.extend_from_slice(&next.to_le_bytes());
    bytes
}

fn usual_root() -> Root {
    Root {
        cmdline: CMDLINE,
        memory_map_addr: MEMORY_MAP,
        memory_map_entries: 3,
        framebuffer: (0xfd00_0000, 4096, 1024, 768, 32),
        rsdp: 0xe_0010,
        module_count: 2,
        modules: MODULES,
        epoch: 1_600_000_000,
        flags: 0x1,
    }
}

/// An image with a root structure at `ROOT`, a command line, a memory map
/// of three entries and a list of two modules.
fn image(root: Root) -> Vec<u8> {
    let mut image = vec![0xccu8; SIZE];
    put(&mut image, ROOT, &root.bytes());
    put(&mut image, CMDLINE, b"root=/dev/sda1 quiet\0");
    put(&mut image, MEMORY_MAP, &entry(0, 0x9_f000, 1));
    put(&mut image, MEMORY_MAP + 24, &entry(0x9_f000, 0x6_1000, 2));
    put(&mut image, MEMORY_MAP + 48, &entry(0x10_0000, 0x3ff0_0000, 10));
    put(&mut image, MODULES, &record(0x20_0000, 0x20_8000, b"initrd", MODULES + 0x100));
    put(&mut image, MODULES + 0x100, &record(0x30_0000, 0x30_0400, b"symbols", 0));
    image
}

fn loaded(image: &[u8]) -> StivaleStructure<'_> {
    let window = MemoryWindow::new(BASE, image);
    assert!(validate(&window, ROOT as usize));
    load(window, ROOT as usize)
}

#[test]
fn root_structure_is_eighty_bytes() {
    assert_eq!(STRUCTURE_SIZE, 80);
    assert_eq!(usual_root().bytes().len(), 80);
}

#[test]
fn root_fields_are_read_in_place() {
    let image = image(usual_root());
    let structure = loaded(&image);
    assert_eq!(structure.rsdp(), 0xe_0010);
    assert_eq!(structure.epoch(), 1_600_000_000);
    assert_eq!(structure.flags().bits(), 0x1);
    assert!(structure.flags().contains(StivaleFlag::BiosBoot));
    let framebuffer = structure.framebuffer();
    assert_eq!(framebuffer.start_address(), 0xfd00_0000);
    assert_eq!(framebuffer.pitch(), 4096);
    assert_eq!(framebuffer.width(), 1024);
    assert_eq!(framebuffer.height(), 768);
    assert_eq!(framebuffer.bpp(), 32);
    assert_eq!(framebuffer.size(), 4096 * 768 * 4);
    assert_eq!(framebuffer.end_address(), 0xfd00_0000 + 4096 * 768 * 4);
}

#[test]
fn root_fields_are_not_mixed_up() {
    let mut root = usual_root();
    root.rsdp = 0x0102_0304_0506_0708;
    root.epoch = 0x1112_1314_1516_1718;
    root.flags = 0x2122_2324_2526_2728;
    root.framebuffer = (0x3132_3334_3536_3738, 0x4142, 0x5152, 0x6162, 0x7172);
    let image = image(root);
    let structure = loaded(&image);
    assert_eq!(structure.rsdp() as u64, 0x0102_0304_0506_0708u64 as usize as u64);
    assert_eq!(structure.epoch(), 0x1112_1314_1516_1718);
    assert_eq!(structure.flags().bits(), 0x2122_2324_2526_2728);
    assert!(!structure.flags().contains(StivaleFlag::BiosBoot));
    let framebuffer = structure.framebuffer();
    assert_eq!(framebuffer.start_address() as u64, 0x3132_3334_3536_3738u64 as usize as u64);
    assert_eq!(framebuffer.pitch(), 0x4142);
    assert_eq!(framebuffer.width(), 0x5152);
    assert_eq!(framebuffer.height(), 0x6162);
    assert_eq!(framebuffer.bpp(), 0x7172);
}

#[test]
fn accessors_read_again_on_every_call() {
    let image = image(usual_root());
    let structure = loaded(&image);
    assert_eq!(structure.epoch(), structure.epoch());
    assert_eq!(structure.cmdline(), structure.cmdline());
    assert_eq!(structure.rsdp(), structure.rsdp());
    let copy = structure;
    assert_eq!(copy.epoch(), structure.epoch());
}

#[test]
fn cmdline_is_the_bytes_before_the_first_zero() {
    let image = image(usual_root());
    let structure = loaded(&image);
    assert_eq!(structure.cmdline(), Some(&b"root=/dev/sda1 quiet"[..]));
    assert_eq!(structure.cmdline().unwrap().len(), 20);
}

#[test]
fn cmdline_stops_at_the_first_of_several_zeros() {
    let mut image = image(usual_root());
    put(&mut image, CMDLINE, b"a=b\0c=d\0\0");
    let structure = loaded(&image);
    assert_eq!(structure.cmdline(), Some(&b"a=b"[..]));
    put(&mut image, CMDLINE, b"x\0");
    let structure = loaded(&image);
    assert_eq!(structure.cmdline(), Some(&b"x"[..]));
}

#[test]
fn cmdline_is_absent_when_it_starts_with_zero() {
    let mut image = image(usual_root());
    put(&mut image, CMDLINE, b"\0root=/dev/sda1");
    let structure = loaded(&image);
    assert_eq!(structure.cmdline(), None);
}

#[test]
fn cmdline_may_hold_any_byte_but_zero() {
    let mut image = image(usual_root());
    let text: Vec<u8> = (1..=255u8).collect();
    put(&mut image, CMDLINE, &text);
    put(&mut image, CMDLINE + 255, &[0]);
    let structure = loaded(&image);
    assert_eq!(structure.cmdline(), Some(&text[..]));
}

#[test]
fn cmdline_may_end_with_the_window() {
    let mut root = usual_root();
    root.cmdline = BASE + SIZE as u64 - 4;
    let mut image = image(root);
    put(&mut image, root.cmdline, b"end\0");
    let structure = loaded(&image);
    assert_eq!(structure.cmdline(), Some(&b"end"[..]));

    root.cmdline = BASE + SIZE as u64 - 1;
    put(&mut image, ROOT, &root.bytes());
    let structure = loaded(&image);
    assert_eq!(structure.cmdline(), None);
}

#[test]
fn cmdline_without_an_end_is_not_valid() {
    let mut root = usual_root();
    root.cmdline = BASE + SIZE as u64 - 4;
    let mut image = image(root);
    put(&mut image, root.cmdline, b"open");
    let window = MemoryWindow::new(BASE, &image);
    assert!(!validate(&window, ROOT as usize));
    assert!(!check_cstring(&window, root.cmdline));
}

#[test]
fn cmdline_outside_the_window_is_not_valid() {
    for cmdline in [0u64, BASE - 1, BASE + SIZE as u64, BASE + SIZE as u64 + 1, u64::MAX] {
        let mut root = usual_root();
        root.cmdline = cmdline;
        let image = image(root);
        let window = MemoryWindow::new(BASE, &image);
        assert!(!validate(&window, ROOT as usize));
        assert!(!check_cstring(&window, cmdline));
    }
}

#[test]
fn text_is_read_from_any_address_of_the_window() {
    let bytes = *b"one\0two\0\0three";
    let window = MemoryWindow::new(0x40, &bytes);
    assert!(check_cstring(&window, 0x40));
    assert_eq!(read_cstring(&window, 0x40), Some(&b"one"[..]));
    assert!(check_cstring(&window, 0x42));
    assert_eq!(read_cstring(&window, 0x42), Some(&b"e"[..]));
    assert!(check_cstring(&window, 0x43));
    assert_eq!(read_cstring(&window, 0x43), None);
    assert!(check_cstring(&window, 0x44));
    assert_eq!(read_cstring(&window, 0x44), Some(&b"two"[..]));
    assert!(check_cstring(&window, 0x48));
    assert_eq!(read_cstring(&window, 0x48), None);
    assert!(!check_cstring(&window, 0x49));
    assert!(!check_cstring(&window, 0x4d));
    assert!(!check_cstring(&window, 0x4e));
    assert!(!check_cstring(&window, 0x4f));
    assert!(!check_cstring(&window, 0x3f));
}

#[test]
fn memory_map_is_reached_from_the_root() {
    let image = image(usual_root());
    let structure = loaded(&image);
    let mut iter = structure.memory_map_iter();
    let first = iter.next().unwrap();
    assert_eq!(first.start_address(), 0);
    assert_eq!(first.end_address(), 0x9_f000);
    assert_eq!(first.entry_type(), MemoryMapEntryType::Usable);
    let second = iter.next().unwrap();
    assert_eq!(second.start_address(), 0x9_f000);
    assert_eq!(second.end_address(), 0x10_0000);
    assert_eq!(second.entry_type(), MemoryMapEntryType::Reserved);
    let third = iter.next().unwrap();
    assert_eq!(third.start_address(), 0x10_0000);
    assert_eq!(third.end_address(), 0x4000_0000);
    assert_eq!(third.entry_type(), MemoryMapEntryType::Kernel);
    assert!(iter.next().is_none());
    assert!(iter.next().is_none());
    let mut again = structure.memory_map_iter();
    assert_eq!(again.next().unwrap().start_address(), 0);
}

#[test]
fn modules_are_reached_from_the_root() {
    let image = image(usual_root());
    let structure = loaded(&image);
    let mut iter = structure.module_iter();
    let first = iter.next().unwrap();
    assert_eq!(first.start_address(), 0x20_0000);
    assert_eq!(first.end_address(), 0x20_8000);
    assert_eq!(first.size(), 0x8000);
    assert_eq!(first.string(), Some(&b"initrd"[..]));
    let second = iter.next().unwrap();
    assert_eq!(second.start_address(), 0x30_0000);
    assert_eq!(second.size(), 0x400);
    assert_eq!(second.string(), Some(&b"symbols"[..]));
    assert!(iter.next().is_none());
    assert!(iter.next().is_none());
}

#[test]
fn module_count_and_list_end_both_stop_the_traversal() {
    for (count, expected) in [(0u64, 0usize), (1, 1), (2, 2), (3, 2), (1000, 2)] {
        let mut root = usual_root();
        root.module_count = count;
        let image = image(root);
        let structure = loaded(&image);
        let mut iter = structure.module_iter();
        let mut seen = 0;
        while let Some(module) = iter.next() {
            assert!(module.string().is_some());
            seen += 1;
            assert!(seen <= 2);
        }
        assert_eq!(seen, expected);
    }
}

#[test]
fn empty_tables_are_valid_wherever_they_point() {
    let mut root = usual_root();
    root.memory_map_addr = 0;
    root.memory_map_entries = 0;
    root.modules = 0xdead_beef;
    root.module_count = 0;
    let image = image(root);
    let structure = loaded(&image);
    assert!(structure.memory_map_iter().next().is_none());
    assert!(structure.module_iter().next().is_none());
    root.modules = 0;
    root.module_count = 7;
    let image = self::image(root);
    let structure = loaded(&image);
    assert!(structure.module_iter().next().is_none());
}

#[test]
fn root_must_lie_inside_the_window() {
    let image = image(usual_root());
    let window = MemoryWindow::new(BASE, &image);
    assert!(validate(&window, ROOT as usize));
    assert!(!validate(&window, 0));
    assert!(!validate(&window, (BASE - 1) as usize));
    assert!(!validate(&window, (BASE + SIZE as u64 - 79) as usize));
    assert!(!validate(&window, (BASE + SIZE as u64) as usize));
    assert!(!validate(&window, usize::MAX));
    let short = MemoryWindow::new(ROOT, &image[0x10..0x10 + 79]);
    assert!(!validate(&short, ROOT as usize));
}

#[test]
fn tables_must_lie_inside_the_window() {
    let mut root = usual_root();
    root.memory_map_entries = 1000;
    let image = image(root);
    assert!(!validate(&MemoryWindow::new(BASE, &image), ROOT as usize));

    let mut root = usual_root();
    root.memory_map_addr = BASE + SIZE as u64 - 71;
    let image = self::image(root);
    assert!(!validate(&MemoryWindow::new(BASE, &image), ROOT as usize));

    let mut root = usual_root();
    root.modules = BASE + SIZE as u64 - 151;
    let image = self::image(root);
    assert!(!validate(&MemoryWindow::new(BASE, &image), ROOT as usize));

    let root = usual_root();
    let mut image = self::image(root);
    put(&mut image, MODULES, &record(0x20_0000, 0x20_8000, b"initrd", 0x10));
    assert!(!validate(&MemoryWindow::new(BASE, &image), ROOT as usize));
}

#[test]
fn memory_map_types_must_be_known() {
    let mut image = image(usual_root());
    put(&mut image, MEMORY_MAP + 24, &entry(0x9_f000, 0x6_1000, 6));
    assert!(!validate(&MemoryWindow::new(BASE, &image), ROOT as usize));
    let mut root = usual_root();
    root.memory_map_entries = 1;
    put(&mut image, ROOT, &root.bytes());
    assert!(validate(&MemoryWindow::new(BASE, &image), ROOT as usize));
}

#[test]
fn root_is_read_without_alignment() {
    let root = usual_root();
    let mut image = image(root);
    put(&mut image, BASE + 0x601, &root.bytes());
    let window = MemoryWindow::new(BASE, &image);
    assert!(validate(&window, (BASE + 0x601) as usize));
    let structure = load(window, (BASE + 0x601) as usize);
    assert_eq!(structure.epoch(), 1_600_000_000);
    assert_eq!(structure.rsdp(), 0xe_0010);
    assert_eq!(structure.cmdline(), Some(&b"root=/dev/sda1 quiet"[..]));
    assert_eq!(structure.framebuffer().height(), 768);
}
