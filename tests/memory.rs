use dis_zero::mem_lib::{
    decode_u32, encode_u32, read_u32, Error, MemoryImage, ModuleEntry, ProcessEntry, ProcessInfo,
    TargetMemory,
};
use dis_zero::scan::{bytes_equal, contains, find_pattern, matches_at};
use dis_zero::scr::{from_hex, SCData};

#[test]
fn hex_offsets_parse() {
    assert_eq!(from_hex("0xB27208"), Some(0xB27208));
    assert_eq!(from_hex("0x103b3dc"), Some(0x103B3DC));
    assert_eq!(from_hex("0x+1f"), Some(31));
    assert_eq!(from_hex("0xFFFFFFFFFFFFFFFF"), Some(usize::MAX));
    assert_eq!(from_hex("0x10000000000000000"), None);
    assert_eq!(from_hex("0x"), None);
    assert_eq!(from_hex("0x+"), None);
    assert_eq!(from_hex("0xG1"), None);
    assert_eq!(from_hex("0x-1"), None);
    assert_eq!(from_hex("x"), None);
    assert_eq!(from_hex(""), None);
}

#[test]
fn profile_from_hex_fields() {
    let d = SCData::from_hex_fields("1.23.10".to_string(), "0xB27208", "0xD7ACE8", "0xDA1188", "0x103B3DC").unwrap();
    assert_eq!(d.version, "1.23.10");
    assert_eq!(d.version_offset_32, 0xB27208);
    assert_eq!(d.version_offset_64, 0xD7ACE8);
    assert_eq!(d.drop_timer_offset_32, 0xDA1188);
    assert_eq!(d.drop_timer_offset_64, 0x103B3DC);
    assert!(SCData::from_hex_fields("1".to_string(), "0x1", "0x2", "zz", "0x4").is_none());
}

#[test]
fn process_is_found_by_name_containment() {
    let ps = vec![
        None,
        Some(ProcessEntry { pid: 10, name: "explorer.exe".to_string() }),
        Some(ProcessEntry { pid: 20, name: "StarCraft.exe".to_string() }),
        Some(ProcessEntry { pid: 30, name: "StarCraft.exe".to_string() }),
    ];
    assert_eq!(ProcessInfo::find_pid(&ps, "StarCraft.exe"), Ok(20));
    assert_eq!(ProcessInfo::find_pid(&ps, "plorer"), Ok(10));
    assert_eq!(ProcessInfo::find_pid(&ps, "Warcraft"), Err(Error::NoProcessFound));
    assert_eq!(ProcessInfo::find_pid(&vec![], "x"), Err(Error::NoProcessFound));
}

#[test]
fn module_scan_skips_undecodable_names() {
    let ms = vec![
        ModuleEntry { name: None, base_addr: 1 },
        ModuleEntry { name: Some("ntdll.dll".to_string()), base_addr: 2 },
        ModuleEntry { name: Some("StarCraft.exe".to_string()), base_addr: 0x40_0000 },
    ];
    assert_eq!(ProcessInfo::select_module(&ms, "StarCraft.exe"), Ok(0x40_0000));
    assert_eq!(ProcessInfo::select_module(&ms, "kernel32"), Err(Error::UnknownModule));
    let p = ProcessInfo::attach(7, Ok(ms), "StarCraft.exe").unwrap();
    assert_eq!(p, ProcessInfo { pid: 7, base_addr: 0x40_0000 });
    assert_eq!(ProcessInfo::attach(7, Err(Error::InvalidHandleValue), "StarCraft.exe"), Err(Error::InvalidHandleValue));
}

#[test]
fn little_endian_round_trip() {
    assert_eq!(decode_u32(&[0xAC, 0xED, 0xAC, 0xED]), 0xEDACEDAC);
    assert_eq!(encode_u32(0xCADECADE), vec![0xDE, 0xCA, 0xDE, 0xCA]);
    assert_eq!(decode_u32(&encode_u32(123456789)), 123456789);
}

#[test]
fn image_reads_and_writes() {
    let mut image = MemoryImage { bytes: vec![1, 2, 3, 4, 5, 6] };
    assert_eq!(image.read_bytes(1, 3), Ok(vec![2, 3, 4]));
    assert_eq!(image.read_bytes(4, 3), Err(Error::ReadFailed(4)));
    assert_eq!(read_u32(&image, 2), Ok(0x06050403));
    assert_eq!(read_u32(&image, 2), read_u32(&image, 2));
    assert_eq!(image.write_bytes(5, &[9, 9]), Err(Error::WriteFailed(5)));
    assert_eq!(image.bytes, vec![1, 2, 3, 4, 5, 6]);
    assert_eq!(image.write_bytes(4, &[9, 9]), Ok(()));
    assert_eq!(image.bytes, vec![1, 2, 3, 4, 9, 9]);
}

#[test]
fn writing_zero_over_zero_changes_nothing() {
    let mut image = MemoryImage { bytes: vec![3, 0, 0, 0, 0, 3] };
    assert_eq!(image.write_bytes(1, &encode_u32(0)), Ok(()));
    assert_eq!(image.bytes, vec![3, 0, 0, 0, 0, 3]);
    assert_eq!(read_u32(&image, 1), Ok(0));
}

#[test]
fn live_read_of_a_missing_process_fails() {
    let p = ProcessInfo { pid: 0x7FFF_FFF0, base_addr: 0x1000 };
    assert_eq!(p.read_address(0x10, 4), Err(Error::ReadFailed(0x10)));
    assert_eq!(p.write_address(0x10, &[0, 0, 0, 0]), Err(Error::WriteFailed(0x10)));
    let high = ProcessInfo { pid: 0x7FFF_FFF0, base_addr: usize::MAX };
    assert_eq!(high.read_address(1, 4), Err(Error::ReadFailed(1)));
    assert_eq!(high.write_address(1, &[0]), Err(Error::WriteFailed(1)));
}

#[test]
fn byte_matching() {
    assert!(bytes_equal(b"abc", b"abc"));
    assert!(!bytes_equal(b"abc", b"abd"));
    assert!(!bytes_equal(b"abc", b"ab"));
    assert!(matches_at(b"xxabc", b"abc", 2));
    assert!(!matches_at(b"xxabc", b"abc", 3));
    assert!(contains(b"StarCraft.exe", b"Craft"));
    assert!(contains(b"abc", b""));
    assert!(!contains(b"ab", b"abc"));
    assert_eq!(find_pattern(b"abcabc", b"bc", 2, 6), Ok(4));
    assert_eq!(find_pattern(b"abcabc", b"bc", 2, 4), Err(Error::DiscoveryExhausted));
    assert_eq!(find_pattern(b"abcabc", b"bc", 0, 100), Ok(1));
}

#[test]
fn process_lookup_from_a_list() {
    let ps = vec![
        Some(ProcessEntry { pid: 3, name: "init".to_string() }),
        Some(ProcessEntry { pid: 12, name: "StarCraft.exe".to_string() }),
    ];
    let snapshot = |pid: u32| {
        if pid == 12 {
            Ok(vec![
                ModuleEntry { name: Some("ntdll.dll".to_string()), base_addr: 0x7FF0_0000 },
                ModuleEntry { name: Some("StarCraft.exe".to_string()), base_addr: 0x1_4000_0000 },
            ])
        } else {
            Err(Error::InvalidHandleValue)
        }
    };
    assert_eq!(ProcessInfo::get_pinfo_by_name(&ps, "StarCraft.exe", snapshot), Ok(ProcessInfo { pid: 12, base_addr: 0x1_4000_0000 }));
    assert_eq!(ProcessInfo::get_pinfo_by_name(&ps, "init", snapshot), Err(Error::InvalidHandleValue));
    assert_eq!(ProcessInfo::get_pinfo_by_name(&ps, "Diablo", snapshot), Err(Error::NoProcessFound));
}
