use chip8::chip8::Chip8;
use chip8::graphics::{update_screen, window_size, ScreenRect};
use chip8::input::{capture, key_index, HostKey, InputEvent};
use chip8::rom::{Rom, RomError, ROM_MEMORY};

#[test]
fn rom_of_the_largest_size_is_accepted() {
    assert_eq!(ROM_MEMORY, 3583);
    let rom = Rom::new(vec![7u8; 3583]);
    assert!(rom.is_ok());
    assert_eq!(rom.ok().map(|r| r.len()), Some(3583));
}

#[test]
fn rom_one_byte_too_large_is_rejected() {
    match Rom::new(vec![7u8; 3584]) {
        Err(error) => assert_eq!(error, RomError::TooLarge),
        Ok(_) => panic!("an oversized image was accepted"),
    }
}

#[test]
fn empty_rom_leaves_memory_alone() {
    let rom = Rom::new(Vec::new()).ok().expect("an empty image fits");
    let mut memory = [3u8; 0xFFF];
    rom.load_into_memory(&mut memory);
    assert!(memory.iter().all(|&b| b == 3));
}

#[test]
fn rom_is_loaded_unmodified_at_0x200() {
    let image: Vec<u8> = vec![0x12, 0x34, 0x56, 0x78, 0x9A];
    let rom = Rom::new(image.clone()).ok().expect("a small image fits");
    let mut cpu = Chip8::new();
    cpu.memory[0x1FF] = 0xEE;
    cpu.memory[0x205] = 0xDD;
    rom.load_into_memory(&mut cpu.memory);
    assert_eq!(cpu.memory[0x1FF], 0xEE);
    assert_eq!(&cpu.memory[0x200..0x205], &image[..]);
    assert_eq!(cpu.memory[0x205], 0xDD);
}

#[test]
fn largest_rom_fills_memory_to_its_last_byte() {
    let image: Vec<u8> = (0..3583u32).map(|i| (i % 251) as u8 + 1).collect();
    let rom = Rom::new(image.clone()).ok().expect("the largest image fits");
    let mut memory = [0u8; 0xFFF];
    rom.load_into_memory(&mut memory);
    assert!(memory[..0x200].iter().all(|&b| b == 0));
    assert_eq!(&memory[0x200..], &image[..]);
}

#[test]
fn window_is_ten_times_the_screen() {
    assert_eq!(window_size(), (640, 320));
}

#[test]
fn every_cell_becomes_a_square_at_its_place() {
    let mut video = [0u32; 2048];
    video[0] = 0xFFFF_FFFF;
    video[65] = 0xFFFF_FFFF;
    video[2047] = 0xFFFF_FFFF;
    video[100] = 1;
    let rects = update_screen(&video);
    assert_eq!(rects.len(), 2048);
    assert_eq!(rects[0], ScreenRect { x: 0, y: 0, width: 10, height: 10, lit: true });
    assert_eq!(rects[1], ScreenRect { x: 10, y: 0, width: 10, height: 10, lit: false });
    assert_eq!(rects[65], ScreenRect { x: 10, y: 10, width: 10, height: 10, lit: true });
    assert_eq!(rects[2047], ScreenRect { x: 630, y: 310, width: 10, height: 10, lit: true });
    assert!(!rects[100].lit);
    assert_eq!(rects.iter().filter(|r| r.lit).count(), 3);
    for (cell, rect) in rects.iter().enumerate() {
        assert_eq!(rect.x as usize, (cell % 64) * 10);
        assert_eq!(rect.y as usize, (cell / 64) * 10);
    }
}

#[test]
fn host_keys_map_to_the_hex_keypad() {
    let table = [
        (HostKey::Kp1, 0x1),
        (HostKey::Kp2, 0x2),
        (HostKey::Kp3, 0x3),
        (HostKey::Kp4, 0xC),
        (HostKey::Q, 0x4),
        (HostKey::W, 0x5),
        (HostKey::E, 0x6),
        (HostKey::R, 0xD),
        (HostKey::A, 0x7),
        (HostKey::S, 0x8),
        (HostKey::D, 0x9),
        (HostKey::F, 0xE),
        (HostKey::Z, 0xA),
        (HostKey::X, 0x0),
        (HostKey::C, 0xB),
        (HostKey::V, 0xF),
    ];
    let mut seen = [false; 16];
    for (key, index) in table.iter() {
        assert_eq!(key_index(*key), *index);
        seen[*index] = true;
    }
    assert!(seen.iter().all(|&s| s));
}

#[test]
fn key_down_and_up_set_and_clear_one_key() {
    let mut cpu = Chip8::new();
    assert!(!capture(Some(InputEvent::KeyDown(HostKey::Kp4)), &mut cpu));
    let mut expected = [false; 16];
    expected[0xC] = true;
    assert_eq!(cpu.keys, expected);
    assert!(!capture(Some(InputEvent::KeyDown(HostKey::X)), &mut cpu));
    expected[0] = true;
    assert_eq!(cpu.keys, expected);
    assert!(!capture(Some(InputEvent::KeyUp(HostKey::Kp4)), &mut cpu));
    expected[0xC] = false;
    assert_eq!(cpu.keys, expected);
    assert_eq!(cpu.pc, 0x200);
}

#[test]
fn quit_is_reported_and_changes_nothing() {
    let mut cpu = Chip8::new();
    cpu.keys[3] = true;
    assert!(capture(Some(InputEvent::Quit), &mut cpu));
    assert!(cpu.keys[3]);
    assert_eq!(cpu.keys.iter().filter(|&&k| k).count(), 1);
}

#[test]
fn other_events_and_no_event_change_nothing() {
    let mut cpu = Chip8::new();
    cpu.keys[3] = true;
    assert!(!capture(Some(InputEvent::Other), &mut cpu));
    assert!(!capture(None, &mut cpu));
    let mut expected = [false; 16];
    expected[3] = true;
    assert_eq!(cpu.keys, expected);
}
