use rust_dos::console::{check_print, prompt_buffer, prompt_reply};
use rust_dos::error_code::{call_outcome, ErrorCode};
use rust_dos::file::{
    check_path, check_transfer_len, decode_date, decode_time, seek_position, AccessCode, AccessMode, DosDate, DosTime,
    File, FileAttributes, SeekFrom, SharingMode, StorageParameters,
};
use rust_dos::misc::{ptr_to_segments, VersionInfo};
use rust_dos::mouse::{Buttons, Mouse, MouseButtons, MouseCall, BUTTON_CENTER, BUTTON_LEFT, BUTTON_RIGHT};
use rust_dos::process::ProgramSegmentPrefix;
use rust_dos::video::{vesa_outcome, ColorTarget, VesaMode, VesaReturnStatus, VideoMode};

#[test]
fn vesa_mode_word() {
    assert_eq!(VesaMode::new(0x103, false, true, false).bits(), 0x4103);
    assert_eq!(VesaMode::new(0xFFFF, true, true, true).bits(), 0xC9FF);
    assert_eq!(VesaMode::new(0x101, false, false, false).bits(), 0x0101);
    let mut m = VesaMode::new(0x100, false, false, false);
    m.set_mode(0x003);
    assert_eq!(m.bits(), 0x0103);
}

#[test]
fn vesa_status_codes() {
    assert_eq!(vesa_outcome(0x4f), Ok(()));
    assert_eq!(vesa_outcome(0x00), Err(VesaReturnStatus::Successful));
    assert_eq!(vesa_outcome(0x01), Err(VesaReturnStatus::Failed));
    assert_eq!(vesa_outcome(0x02), Err(VesaReturnStatus::ModeFailure));
    assert_eq!(vesa_outcome(0x03), Err(VesaReturnStatus::ModeInvalid));
    assert_eq!(vesa_outcome(0x1234), Err(VesaReturnStatus::Unknown));
    assert_eq!(VesaReturnStatus::from(0x4fu16), VesaReturnStatus::Supported);
}

#[test]
fn video_mode_numbers() {
    assert_eq!(VideoMode::Text80_25C.code(), 0x03);
    assert_eq!(VideoMode::Graphics320_200C8.code(), 0x13);
    assert_eq!(VideoMode::Graphics640x480C4.code(), 0x12);
    assert_eq!(ColorTarget::Background.code(), 0);
    assert_eq!(ColorTarget::Palette.code(), 1);
}

#[test]
fn access_mode_byte() {
    assert_eq!(AccessMode::default().bits(), 0);
    assert_eq!(AccessMode::new(AccessCode::Both, SharingMode::DenyWrite, true).bits(), 0xA2);
    assert_eq!(AccessMode::new(AccessCode::Write, SharingMode::DenyNone, false).bits(), 0x41);
    assert_eq!(SharingMode::default(), SharingMode::Compatibility);
}

#[test]
fn seek_codes_and_words() {
    assert_eq!(SeekFrom::Start(5).to_dos_seek_code(), 0);
    assert_eq!(SeekFrom::Current(5).to_dos_seek_code(), 1);
    assert_eq!(SeekFrom::End(5).to_dos_seek_code(), 2);
    assert_eq!(SeekFrom::End(0x0001_0002).to_seek_offset(), 0x0001_0002);
    assert_eq!(SeekFrom::Start(0x1234_5678).offset_words(), (0x1234, 0x5678));
    assert_eq!(seek_position(0x1234, 0x5678), 0x1234_5678);
}

#[test]
fn dos_errors_and_outcomes() {
    assert_eq!(ErrorCode::from_u8(2), Some(ErrorCode::FileNotFound));
    assert_eq!(ErrorCode::from_u8(0x57), Some(ErrorCode::InvalidParameter));
    assert_eq!(ErrorCode::from_u8(0xEE), None);
    assert_eq!(ErrorCode::from_dos(0xEE), ErrorCode::UnknownError);
    assert_eq!(call_outcome(false, 5, 6), Ok((5, 6)));
    assert_eq!(call_outcome(true, 0x0102, 0), Err(ErrorCode::FileNotFound));
    assert_eq!(call_outcome(true, 0x00EE, 0), Err(ErrorCode::UnknownError));
}

#[test]
fn paths_must_end_in_nul() {
    assert_eq!(check_path("README.md\0"), Ok(()));
    assert_eq!(check_path("README.md"), Err(ErrorCode::InvalidParameter));
    assert_eq!(check_path(""), Err(ErrorCode::InvalidParameter));
}

#[test]
fn file_handles_and_attributes() {
    assert_eq!(File::from_handle(7).handle(), 7);
    assert_eq!(FileAttributes::from_bits_truncate(0x1234).bits(), 0x34);
}

#[test]
fn disk_space() {
    let p = StorageParameters::from_registers(8, 1000, 512, 2000).unwrap();
    assert_eq!(p.free_space(), 1000 * 8 * 512);
    assert_eq!(p.total_space(), 2000 * 8 * 512);
    let big = StorageParameters::from_registers(0xFFFE, 0xFFFF, 0xFFFF, 0xFFFF).unwrap();
    assert_eq!(big.total_space(), 0xFFFFu64 * 0xFFFE * 0xFFFF);
    assert!(matches!(StorageParameters::from_registers(0xFFFF, 0, 0, 0), Err(ErrorCode::InvalidDrive)));
}

#[test]
fn version_and_segments() {
    assert!(VersionInfo::new(4, 0, 0b100).in_rom());
    assert!(!VersionInfo::new(5, 0, 0b100).in_rom());
    assert!(!VersionInfo::new(3, 30, 0).in_rom());
    assert_eq!(ptr_to_segments(0x1234), (0x123, 0x4));
    assert_eq!(ptr_to_segments(0x0010_0005), (0x0000, 0x5));
}

#[test]
fn mouse_requests() {
    assert_eq!(Mouse::cursor_show(), MouseCall { function: 1, cx: 0, dx: 0 });
    assert_eq!(Mouse::cursor_hide(), MouseCall { function: 2, cx: 0, dx: 0 });
    assert_eq!(Mouse::set_position(10, 20), MouseCall { function: 4, cx: 10, dx: 20 });
    assert_eq!(Mouse::set_range_horizontal(0, 606), MouseCall { function: 7, cx: 0, dx: 606 });
    assert_eq!(Mouse::set_range_vertical(180, 180), MouseCall { function: 8, cx: 180, dx: 180 });
    assert_eq!(Mouse::initialize_outcome(0, 0xFFFF), Err(()));
    assert_eq!(Mouse::initialize_outcome(0xFFFF, 0xFFFF), Ok(MouseButtons::Two));
    assert_eq!(Mouse::initialize_outcome(0xFFFF, 3), Ok(MouseButtons::Logitech));
    assert_eq!(Mouse::initialize_outcome(0xFFFF, 9), Ok(MouseButtons::Unknown));
}

#[test]
fn program_segment_prefix_fields() {
    let mut block = [0u8; 256];
    block[0x02] = 0x34;
    block[0x03] = 0x12;
    block[0x16] = 0x01;
    block[0x17] = 0x02;
    block[0x2C] = 0xCD;
    block[0x2D] = 0xAB;
    let text = b" /v file.bmp";
    block[0x80] = text.len() as u8;
    block[0x81..0x81 + text.len()].copy_from_slice(text);
    let psp = ProgramSegmentPrefix::from_bytes(&block).unwrap();
    assert_eq!(psp.next_free_segment(), 0x1234);
    assert_eq!(psp.parent_psp(), 0x0201);
    assert_eq!(psp.environment_segment(), 0xABCD);
    assert_eq!(psp.command_line_bytes(), &text[..]);
    assert_eq!(psp.command_line(), Some(" /v file.bmp"));
    assert!(ProgramSegmentPrefix::from_bytes(&block[..255]).is_none());
}

#[test]
fn program_segment_prefix_odd_command_lines() {
    let mut block = [b'x'; 256];
    block[0x80] = 200;
    let psp = ProgramSegmentPrefix::from_bytes(&block).unwrap();
    assert_eq!(psp.command_line_bytes().len(), 127);
    block[0x80] = 1;
    block[0x81] = 0xFF;
    let psp = ProgramSegmentPrefix::from_bytes(&block).unwrap();
    assert_eq!(psp.command_line_bytes(), &[0xFFu8][..]);
    assert_eq!(psp.command_line(), None);
}

#[test]
fn console_buffers() {
    assert_eq!(check_print("Hello$"), Ok(()));
    assert_eq!(check_print("Hello from print_test()!\n$$$$"), Ok(()));
    assert_eq!(check_print("Hello from print_test()!\n"), Err(ErrorCode::InvalidFormat));
    assert_eq!(prompt_buffer(6), vec![6, 0, 0, 0, 0, 0, 0, 0, 0]);
    assert_eq!(prompt_reply(&[6, 4, b'c', b'a', b't', b's', b'\r', 0, 0]), Some(b"cats".to_vec()));
    assert_eq!(prompt_reply(&[6, 9, b'c']), None);
    assert_eq!(prompt_reply(&[6]), None);
}

#[test]
fn transfer_sizes_and_timestamps() {
    assert_eq!(check_transfer_len(1024), Ok(()));
    assert_eq!(check_transfer_len(0xFFF0), Err(ErrorCode::InsufficientMemory));
    // 2023-06-15 and 13:45:30
    let date = (43 << 9) | (6 << 5) | 15;
    let time = (13 << 11) | (45 << 5) | 15;
    assert_eq!(decode_date(date), DosDate { year: 2023, month: 6, day: 15 });
    assert_eq!(decode_time(time), DosTime { hour: 13, minute: 45, second: 30 });
}

#[test]
fn mouse_button_bits() {
    let b = Buttons::from_bits_truncate(0xFF05);
    assert_eq!(b.bits(), 5);
    assert!(b.contains(BUTTON_LEFT));
    assert!(!b.contains(BUTTON_RIGHT));
    assert!(b.contains(BUTTON_CENTER));
}
