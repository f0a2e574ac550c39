use bntui::binary::{
    arch_tokens_for, detect_binary_target, fits_system, is_local_host, os_tokens_for,
    parse_elf_arch, parse_macho_arch, parse_pe_arch, score_for, select_embedded_daemon,
    BinaryArch, BinaryOs, EmbeddedBinary,
};

fn pe(machine: u16, pe_offset: u32) -> Vec<u8> {
    let mut bytes = vec![0u8; pe_offset as usize + 6];
    bytes[0] = b'M';
    bytes[1] = b'Z';
    bytes[0x3C..0x40].copy_from_slice(&pe_offset.to_le_bytes());
    let at = pe_offset as usize;
    bytes[at..at + 4].copy_from_slice(b"PE\0\0");
    bytes[at + 4..at + 6].copy_from_slice(&machine.to_le_bytes());
    bytes
}

fn elf(machine: u16, little_endian: bool) -> Vec<u8> {
    let mut bytes = vec![0u8; 20];
    bytes[0..4].copy_from_slice(b"\x7FELF");
    bytes[4] = 2;
    bytes[5] = if little_endian { 1 } else { 2 };
    let field = if little_endian { machine.to_le_bytes() } else { machine.to_be_bytes() };
    bytes[18..20].copy_from_slice(&field);
    bytes
}

fn macho(magic: [u8; 4], cpu: [u8; 4]) -> Vec<u8> {
    let mut bytes = magic.to_vec();
    bytes.extend_from_slice(&cpu);
    bytes
}

fn entry(name: &str, bytes: Vec<u8>) -> EmbeddedBinary {
    EmbeddedBinary { name: name.to_string(), bytes }
}

#[test]
fn pe_machine_field_names_the_architecture() {
    assert_eq!(parse_pe_arch(&pe(0x8664, 0x40)), Some(BinaryArch::X86_64));
    assert_eq!(parse_pe_arch(&pe(0xAA64, 0x80)), Some(BinaryArch::Aarch64));
    assert_eq!(parse_pe_arch(&pe(0x014C, 0x100)), Some(BinaryArch::X86));
    assert_eq!(parse_pe_arch(&pe(0x0200, 0x40)), Some(BinaryArch::Unknown));
}

#[test]
fn pe_needs_both_signatures_within_the_file() {
    assert_eq!(parse_pe_arch(&[]), None);
    assert_eq!(parse_pe_arch(b"MZ"), None);
    let mut short = pe(0x8664, 0x40);
    short.pop();
    assert_eq!(parse_pe_arch(&short), None);
    let mut wrong = pe(0x8664, 0x40);
    wrong[0x41] = b'F';
    assert_eq!(parse_pe_arch(&wrong), None);
    let mut not_mz = pe(0x8664, 0x40);
    not_mz[1] = b'X';
    assert_eq!(parse_pe_arch(&not_mz), None);
    let mut far = pe(0x8664, 0x40);
    far[0x3C..0x40].copy_from_slice(&u32::MAX.to_le_bytes());
    assert_eq!(parse_pe_arch(&far), None);
    let sixty_three = vec![b'M', b'Z'].into_iter().chain(vec![0u8; 61]).collect::<Vec<u8>>();
    assert_eq!(parse_pe_arch(&sixty_three), None);
}

#[test]
fn elf_machine_field_is_read_in_the_files_byte_order() {
    assert_eq!(parse_elf_arch(&elf(0x3E, true)), Some(BinaryArch::X86_64));
    assert_eq!(parse_elf_arch(&elf(0xB7, true)), Some(BinaryArch::Aarch64));
    assert_eq!(parse_elf_arch(&elf(0x03, true)), Some(BinaryArch::X86));
    assert_eq!(parse_elf_arch(&elf(0xB7, false)), Some(BinaryArch::Aarch64));
    assert_eq!(parse_elf_arch(&elf(0x3E00, false)), Some(BinaryArch::Unknown));
    // In the other byte order the same bytes name another machine.
    let mut swapped = elf(0x3E, true);
    swapped[5] = 2;
    assert_eq!(parse_elf_arch(&swapped), Some(BinaryArch::Unknown));
}

#[test]
fn elf_needs_its_magic_and_twenty_bytes() {
    assert_eq!(parse_elf_arch(&[]), None);
    assert_eq!(parse_elf_arch(&elf(0x3E, true)[..19]), None);
    let mut wrong = elf(0x3E, true);
    wrong[0] = 0x7E;
    assert_eq!(parse_elf_arch(&wrong), None);
}

#[test]
fn macho_magic_gives_the_byte_order() {
    let arm = [0x0C, 0x00, 0x00, 0x01];
    assert_eq!(parse_macho_arch(&macho([0xCF, 0xFA, 0xED, 0xFE], arm)), Some(BinaryArch::Aarch64));
    assert_eq!(
        parse_macho_arch(&macho([0xCE, 0xFA, 0xED, 0xFE], [0x07, 0, 0, 0])),
        Some(BinaryArch::X86)
    );
    assert_eq!(
        parse_macho_arch(&macho([0xFE, 0xED, 0xFA, 0xCF], [0x01, 0, 0, 0x07])),
        Some(BinaryArch::X86_64)
    );
    assert_eq!(
        parse_macho_arch(&macho([0xFE, 0xED, 0xFA, 0xCE], [0, 0, 0, 0x12])),
        Some(BinaryArch::Unknown)
    );
    // The processor type is read in the order that the magic names.
    assert_eq!(parse_macho_arch(&macho([0xFE, 0xED, 0xFA, 0xCF], arm)), Some(BinaryArch::Unknown));
}

#[test]
fn macho_needs_a_magic_and_eight_bytes() {
    assert_eq!(parse_macho_arch(&[0xCF, 0xFA, 0xED, 0xFE, 0x0C, 0, 0]), None);
    assert_eq!(parse_macho_arch(&[0xCA, 0xFE, 0xBA, 0xBE, 0, 0, 0, 2]), None);
    assert_eq!(parse_macho_arch(&[0u8; 8]), None);
}

#[test]
fn the_file_format_names_the_operating_system() {
    assert_eq!(detect_binary_target(&pe(0x8664, 0x40)), (BinaryOs::Windows, BinaryArch::X86_64));
    assert_eq!(detect_binary_target(&elf(0xB7, true)), (BinaryOs::Linux, BinaryArch::Aarch64));
    assert_eq!(
        detect_binary_target(&macho([0xCF, 0xFA, 0xED, 0xFE], [0x07, 0, 0, 0x01])),
        (BinaryOs::Macos, BinaryArch::X86_64)
    );
    assert_eq!(detect_binary_target(b"#!/bin/sh\n"), (BinaryOs::Unknown, BinaryArch::Unknown));
    assert_eq!(detect_binary_target(&[]), (BinaryOs::Unknown, BinaryArch::Unknown));
}

#[test]
fn local_hosts_are_told_in_any_case() {
    assert!(is_local_host("localhost"));
    assert!(is_local_host("LocalHost"));
    assert!(is_local_host("LOCALHOST"));
    assert!(is_local_host("127.0.0.1"));
    assert!(is_local_host("::1"));
    assert!(!is_local_host(""));
    assert!(!is_local_host("localhost "));
    assert!(!is_local_host("127.0.0.2"));
    assert!(!is_local_host("example.com"));
    assert!(!is_local_host("ｌocalhost"));
}

#[test]
fn tokens_of_each_system() {
    assert_eq!(os_tokens_for(BinaryOs::Linux), vec!["linux"]);
    assert_eq!(os_tokens_for(BinaryOs::Macos), vec!["darwin", "macos", "mac", "osx"]);
    assert_eq!(os_tokens_for(BinaryOs::Windows), vec!["windows", "win"]);
    assert!(os_tokens_for(BinaryOs::Unknown).is_empty());
    assert_eq!(arch_tokens_for(BinaryArch::X86_64), vec!["x86_64", "amd64"]);
    assert_eq!(arch_tokens_for(BinaryArch::Aarch64), vec!["aarch64", "arm64"]);
    assert_eq!(arch_tokens_for(BinaryArch::X86), vec!["x86", "386", "i686"]);
    assert!(arch_tokens_for(BinaryArch::Unknown).is_empty());
}

#[test]
fn scores_add_up() {
    let linux = BinaryOs::Linux;
    let x64 = BinaryArch::X86_64;
    assert_eq!(score_for(&entry("blocknet-linux-amd64", elf(0x3E, true)), linux, x64), 205);
    assert_eq!(score_for(&entry("tool", elf(0x3E, true)), linux, x64), 200);
    assert_eq!(score_for(&entry("tool", elf(0xB7, true)), linux, x64), 100);
    assert_eq!(score_for(&entry("Blocknet-Linux-AMD64", vec![]), linux, x64), 45);
    assert_eq!(score_for(&entry("daemon-linux", vec![]), linux, x64), 25);
    assert_eq!(score_for(&entry("readme.txt", vec![]), linux, x64), 0);
    // A name does not count where the file itself tells.
    assert_eq!(score_for(&entry("linux-amd64", pe(0x8664, 0x40)), linux, x64), 100);
    assert_eq!(
        score_for(&entry("blocknet.EXE", pe(0x8664, 0x40)), BinaryOs::Windows, x64),
        207
    );
    assert_eq!(score_for(&entry("blocknet.exe", elf(0x3E, true)), linux, x64), 205);
    // An unknown system agrees with an unknown file.
    assert_eq!(
        score_for(&entry("x", vec![]), BinaryOs::Unknown, BinaryArch::Unknown),
        200
    );
}

#[test]
fn a_binary_fits_by_file_or_by_name() {
    let linux = BinaryOs::Linux;
    let x64 = BinaryArch::X86_64;
    assert!(fits_system(&entry("a", elf(0x3E, true)), linux, x64));
    assert!(fits_system(&entry("a", elf(0x1234, true)), linux, x64));
    assert!(!fits_system(&entry("a", elf(0xB7, true)), linux, x64));
    assert!(!fits_system(&entry("linux", pe(0x8664, 0x40)), linux, x64));
    assert!(fits_system(&entry("blocknet-LINUX", vec![]), linux, x64));
    assert!(!fits_system(&entry("blocknet", vec![]), linux, x64));
    // "win" also stands in "darwin".
    assert!(fits_system(&entry("blocknet-darwin", vec![]), BinaryOs::Windows, x64));
}

#[test]
fn the_best_fitting_binary_is_chosen() {
    let entries = vec![
        entry("blocknet-darwin-arm64", macho([0xCF, 0xFA, 0xED, 0xFE], [0x0C, 0, 0, 0x01])),
        entry("blocknet-linux-amd64", elf(0x3E, true)),
        entry("blocknet-linux-arm64", elf(0xB7, true)),
        entry("blocknet-windows-amd64.exe", pe(0x8664, 0x40)),
    ];
    assert_eq!(select_embedded_daemon(&entries, BinaryOs::Linux, BinaryArch::X86_64), Some(1));
    assert_eq!(select_embedded_daemon(&entries, BinaryOs::Linux, BinaryArch::Aarch64), Some(2));
    assert_eq!(select_embedded_daemon(&entries, BinaryOs::Macos, BinaryArch::Aarch64), Some(0));
    assert_eq!(select_embedded_daemon(&entries, BinaryOs::Windows, BinaryArch::X86_64), Some(3));
}

#[test]
fn the_last_of_equally_good_binaries_wins() {
    let entries = vec![
        entry("blocknet-a", elf(0x3E, true)),
        entry("blocknet-b", elf(0x3E, true)),
        entry("other", elf(0x3E, true)),
    ];
    assert_eq!(select_embedded_daemon(&entries, BinaryOs::Linux, BinaryArch::X86_64), Some(1));
}

#[test]
fn a_best_binary_that_does_not_fit_is_not_chosen() {
    assert_eq!(select_embedded_daemon(&vec![], BinaryOs::Linux, BinaryArch::X86_64), None);
    // The best score belongs to a binary for another architecture.
    let entries = vec![
        entry("blocknet-linux-arm64", elf(0xB7, true)),
        entry("notes-linux.txt", vec![]),
    ];
    assert_eq!(select_embedded_daemon(&entries, BinaryOs::Linux, BinaryArch::X86_64), None);
    let entries = vec![entry("readme.txt", vec![])];
    assert_eq!(select_embedded_daemon(&entries, BinaryOs::Linux, BinaryArch::X86_64), None);
}
