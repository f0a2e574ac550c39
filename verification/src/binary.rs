//! Telling what system an executable file was built for, and choosing the
//! daemon binary that fits the running system.

use crate::text::{
    contains_text, ends_with_text, has_substring, has_suffix, is_text, lower, lower_chars,
};
use vstd::prelude::*;

verus! {

/// The operating system of an executable.
#[derive(Clone, Copy, Debug, PartialEq, Eq, Structural)]
pub enum BinaryOs {
    Linux,
    Macos,
    Windows,
    Unknown,
}

/// The processor architecture of an executable.
#[derive(Clone, Copy, Debug, PartialEq, Eq, Structural)]
pub enum BinaryArch {
    X86_64,
    Aarch64,
    X86,
    Unknown,
}

/// A daemon binary that ships with the dashboard.
#[derive(Debug)]
pub struct EmbeddedBinary {
    pub name: String,
    pub bytes: Vec<u8>,
}

/// The two bytes at `at`, read with the low byte first.
pub open spec fn le16(b: Seq<u8>, at: int) -> int {
    b[at] + 0x100 * b[at + 1]
}

/// The two bytes at `at`, read with the high byte first.
pub open spec fn be16(b: Seq<u8>, at: int) -> int {
    0x100 * b[at] + b[at + 1]
}

/// The four bytes at `at`, read with the low byte first.
pub open spec fn le32(b: Seq<u8>, at: int) -> int {
    b[at] + 0x100 * b[at + 1] + 0x1_0000 * b[at + 2] + 0x100_0000 * b[at + 3]
}

/// The four bytes at `at`, read with the high byte first.
pub open spec fn be32(b: Seq<u8>, at: int) -> int {
    0x100_0000 * b[at] + 0x1_0000 * b[at + 1] + 0x100 * b[at + 2] + b[at + 3]
}

/// The architecture that a PE machine field names.
pub open spec fn pe_machine(machine: int) -> BinaryArch {
    if machine == 0x8664 {
        BinaryArch::X86_64
    } else if machine == 0xAA64 {
        BinaryArch::Aarch64
    } else if machine == 0x014C {
        BinaryArch::X86
    } else {
        BinaryArch::Unknown
    }
}

/// The architecture that an ELF machine field names.
pub open spec fn elf_machine(machine: int) -> BinaryArch {
    if machine == 0x003E {
        BinaryArch::X86_64
    } else if machine == 0x00B7 {
        BinaryArch::Aarch64
    } else if machine == 0x0003 {
        BinaryArch::X86
    } else {
        BinaryArch::Unknown
    }
}

/// The architecture that a Mach-O processor type names.
pub open spec fn macho_cpu(cpu: int) -> BinaryArch {
    if cpu == 0x0100_0007 {
        BinaryArch::X86_64
    } else if cpu == 0x0100_000C {
        BinaryArch::Aarch64
    } else if cpu == 0x0000_0007 {
        BinaryArch::X86
    } else {
        BinaryArch::Unknown
    }
}

/// The architecture of a Windows executable: the file starts with `MZ`,
/// is at least 64 bytes long, holds at offset 0x3C the offset of a `PE`
/// signature followed by two zero bytes, and the machine field follows
/// the signature within the file. `None` for any other file.
pub open spec fn pe_arch(b: Seq<u8>) -> Option<BinaryArch> {
    if b.len() < 0x40 || b[0] != 0x4D || b[1] != 0x5A {
        None
    } else {
        let at = le32(b, 0x3C);
        if b.len() < at + 6 || b[at] != 0x50 || b[at + 1] != 0x45 || b[at + 2] != 0 || b[at + 3]
            != 0 {
            None
        } else {
            Some(pe_machine(le16(b, at + 4)))
        }
    }
}

/// The architecture of an ELF executable: the file starts with the ELF
/// magic and is at least 20 bytes long; the machine field at offset 18 is
/// read in the byte order that the sixth byte names. `None` for any
/// other file.
pub open spec fn elf_arch(b: Seq<u8>) -> Option<BinaryArch> {
    if b.len() < 20 || b[0] != 0x7F || b[1] != 0x45 || b[2] != 0x4C || b[3] != 0x46 {
        None
    } else if b[5] == 1 {
        Some(elf_machine(le16(b, 18)))
    } else {
        Some(elf_machine(be16(b, 18)))
    }
}

/// The architecture of a thin Mach-O executable: the file is at least
/// eight bytes long and starts with one of the four Mach-O magics, which
/// also gives the byte order of the processor type that follows. `None`
/// for any other file.
pub open spec fn macho_arch(b: Seq<u8>) -> Option<BinaryArch> {
    if b.len() < 8 {
        None
    } else {
        let magic = be32(b, 0);
        if magic == 0xFEED_FACE || magic == 0xFEED_FACF {
            Some(macho_cpu(be32(b, 4)))
        } else if magic == 0xCEFA_EDFE || magic == 0xCFFA_EDFE {
            Some(macho_cpu(le32(b, 4)))
        } else {
            None
        }
    }
}

/// The system that the bytes of an executable were built for. The file
/// formats are tried in the order PE, ELF, Mach-O.
pub open spec fn binary_target(b: Seq<u8>) -> (BinaryOs, BinaryArch) {
    match pe_arch(b) {
        Some(arch) => (BinaryOs::Windows, arch),
        None => match elf_arch(b) {
            Some(arch) => (BinaryOs::Linux, arch),
            None => match macho_arch(b) {
                Some(arch) => (BinaryOs::Macos, arch),
                None => (BinaryOs::Unknown, BinaryArch::Unknown),
            },
        },
    }
}

/// Reads two bytes, low byte first.
pub fn read_le16(b: &[u8], at: usize) -> (v: u16)
    requires
        at + 1 < b@.len(),
    ensures
        v == le16(b@, at as int),
{
    b[at] as u16 + 0x100 * (b[at + 1] as u16)
}

/// Reads two bytes, high byte first.
pub fn read_be16(b: &[u8], at: usize) -> (v: u16)
    requires
        at + 1 < b@.len(),
    ensures
        v == be16(b@, at as int),
{
    0x100 * (b[at] as u16) + b[at + 1] as u16
}

/// Reads four bytes, low byte first.
pub fn read_le32(b: &[u8], at: usize) -> (v: u32)
    requires
        at + 3 < b@.len(),
    ensures
        v == le32(b@, at as int),
{
    b[at] as u32 + 0x100 * (b[at + 1] as u32) + 0x1_0000 * (b[at + 2] as u32) + 0x100_0000 * (b[at
        + 3] as u32)
}

/// Reads four bytes, high byte first.
pub fn read_be32(b: &[u8], at: usize) -> (v: u32)
    requires
        at + 3 < b@.len(),
    ensures
        v == be32(b@, at as int),
{
    0x100_0000 * (b[at] as u32) + 0x1_0000 * (b[at + 1] as u32) + 0x100 * (b[at + 2] as u32) + b[at
        + 3] as u32
}

/// Reads the architecture of a Windows executable.
pub fn parse_pe_arch(bytes: &[u8]) -> (r: Option<BinaryArch>)
    ensures
        r == pe_arch(bytes@),
{
    if bytes.len() < 0x40 || bytes[0] != 0x4D || bytes[1] != 0x5A {
        return None;
    }
    let at = read_le32(bytes, 0x3C) as u64;
    if (bytes.len() as u64) < at + 6 {
        return None;
    }
    let at: usize = at as usize;
    if bytes[at] != 0x50 || bytes[at + 1] != 0x45 || bytes[at + 2] != 0 || bytes[at + 3] != 0 {
        return None;
    }
    let machine = read_le16(bytes, at + 4);
    Some(
        if machine == 0x8664 {
            BinaryArch::X86_64
        } else if machine == 0xAA64 {
            BinaryArch::Aarch64
        } else if machine == 0x014C {
            BinaryArch::X86
        } else {
            BinaryArch::Unknown
        },
    )
}

/// Reads the architecture of an ELF executable.
pub fn parse_elf_arch(bytes: &[u8]) -> (r: Option<BinaryArch>)
    ensures
        r == elf_arch(bytes@),
{
    if bytes.len() < 20 || bytes[0] != 0x7F || bytes[1] != 0x45 || bytes[2] != 0x4C || bytes[3]
        != 0x46 {
        return None;
    }
    let machine = if bytes[5] == 1 {
        read_le16(bytes, 18)
    } else {
        read_be16(bytes, 18)
    };
    Some(
        if machine == 0x003E {
            BinaryArch::X86_64
        } else if machine == 0x00B7 {
            BinaryArch::Aarch64
        } else if machine == 0x0003 {
            BinaryArch::X86
        } else {
            BinaryArch::Unknown
        },
    )
}

/// Reads the architecture of a thin Mach-O executable.
pub fn parse_macho_arch(bytes: &[u8]) -> (r: Option<BinaryArch>)
    ensures
        r == macho_arch(bytes@),
{
    if bytes.len() < 8 {
        return None;
    }
    let magic = read_be32(bytes, 0);
    let cpu = if magic == 0xFEED_FACE || magic == 0xFEED_FACF {
        read_be32(bytes, 4)
    } else if magic == 0xCEFA_EDFE || magic == 0xCFFA_EDFE {
        read_le32(bytes, 4)
    } else {
        return None;
    };
    Some(
        if cpu == 0x0100_0007 {
            BinaryArch::X86_64
        } else if cpu == 0x0100_000C {
            BinaryArch::Aarch64
        } else if cpu == 0x0000_0007 {
            BinaryArch::X86
        } else {
            BinaryArch::Unknown
        },
    )
}

/// Tells what system the bytes of an executable were built for.
pub fn detect_binary_target(bytes: &[u8]) -> (r: (BinaryOs, BinaryArch))
    ensures
        r == binary_target(bytes@),
{
    if let Some(arch) = parse_pe_arch(bytes) {
        return (BinaryOs::Windows, arch);
    }
    if let Some(arch) = parse_elf_arch(bytes) {
        return (BinaryOs::Linux, arch);
    }
    if let Some(arch) = parse_macho_arch(bytes) {
        return (BinaryOs::Macos, arch);
    }
    (BinaryOs::Unknown, BinaryArch::Unknown)
}

/// Whether `host` names this machine: `localhost`, `127.0.0.1` or `::1`,
/// in any case of letters.
pub open spec fn names_local_host(host: Seq<char>) -> bool {
    let h = lower(host);
    h == "localhost"@ || h == "127.0.0.1"@ || h == "::1"@
}

/// Whether `host` names this machine.
pub fn is_local_host(host: &str) -> (b: bool)
    ensures
        b == names_local_host(host@),
{
    let h = lower_chars(host);
    is_text(&h, "localhost") || is_text(&h, "127.0.0.1") || is_text(&h, "::1")
}

/// The words by which file names tell an operating system.
pub open spec fn os_tokens(os: BinaryOs) -> Seq<Seq<char>> {
    match os {
        BinaryOs::Linux => seq!["linux"@],
        BinaryOs::Macos => seq!["darwin"@, "macos"@, "mac"@, "osx"@],
        BinaryOs::Windows => seq!["windows"@, "win"@],
        BinaryOs::Unknown => Seq::empty(),
    }
}

/// The words by which file names tell an architecture.
pub open spec fn arch_tokens(arch: BinaryArch) -> Seq<Seq<char>> {
    match arch {
        BinaryArch::X86_64 => seq!["x86_64"@, "amd64"@],
        BinaryArch::Aarch64 => seq!["aarch64"@, "arm64"@],
        BinaryArch::X86 => seq!["x86"@, "386"@, "i686"@],
        BinaryArch::Unknown => Seq::empty(),
    }
}

/// The words that `texts` spells, in order.
pub open spec fn words_of(texts: Seq<&'static str>) -> Seq<Seq<char>> {
    Seq::new(texts.len(), |i: int| texts[i]@)
}

/// The words by which file names tell the operating system `os`.
pub fn os_tokens_for(os: BinaryOs) -> (tokens: Vec<&'static str>)
    ensures
        words_of(tokens@) == os_tokens(os),
{
    match os {
        BinaryOs::Linux => vec!["linux"],
        BinaryOs::Macos => vec!["darwin", "macos", "mac", "osx"],
        BinaryOs::Windows => vec!["windows", "win"],
        BinaryOs::Unknown => Vec::new(),
    }
}

/// The words by which file names tell the architecture `arch`.
pub fn arch_tokens_for(arch: BinaryArch) -> (tokens: Vec<&'static str>)
    ensures
        words_of(tokens@) == arch_tokens(arch),
{
    match arch {
        BinaryArch::X86_64 => vec!["x86_64", "amd64"],
        BinaryArch::Aarch64 => vec!["aarch64", "arm64"],
        BinaryArch::X86 => vec!["x86", "386", "i686"],
        BinaryArch::Unknown => Vec::new(),
    }
}

/// Whether one of `words` stands in `name`.
pub open spec fn names_any(name: Seq<char>, words: Seq<Seq<char>>) -> bool {
    exists|i: int| 0 <= i < words.len() && has_substring(name, #[trigger] words[i])
}

/// Whether one of `tokens` stands in `name`.
pub fn contains_any(name: &Vec<char>, tokens: &Vec<&'static str>) -> (b: bool)
    ensures
        b == names_any(name@, words_of(tokens@)),
{
    let ghost words = words_of(tokens@);
    let mut i: usize = 0;
    while i < tokens.len()
        invariant
            i <= tokens.len(),
            words == words_of(tokens@),
            forall|k: int| 0 <= k < i ==> !has_substring(name@, #[trigger] words[k]),
        decreases tokens.len() - i,
    {
        if contains_text(name, tokens[i]) {
            assert(has_substring(name@, words[i as int]));
            return true;
        }
        i += 1;
    }
    false
}

/// How well a binary fits a system.
///
/// A hundred for the operating system read from the file, a hundred for
/// the architecture read from it; twenty for either where the file does
/// not tell it but the name does; five for a name that speaks of the
/// daemon; two for `.exe` on Windows. The name counts in lower case.
pub open spec fn daemon_score(name: Seq<char>, bytes: Seq<u8>, os: BinaryOs, arch: BinaryArch) -> int {
    let target = binary_target(bytes);
    let n = lower(name);
    (if target.0 == os {
        100int
    } else {
        0
    }) + (if target.1 == arch {
        100int
    } else {
        0
    }) + (if target.0 == BinaryOs::Unknown && names_any(n, os_tokens(os)) {
        20int
    } else {
        0
    }) + (if target.1 == BinaryArch::Unknown && names_any(n, arch_tokens(arch)) {
        20int
    } else {
        0
    }) + (if has_substring(n, "blocknet"@) || has_substring(n, "daemon"@) {
        5int
    } else {
        0
    }) + (if os == BinaryOs::Windows && has_suffix(n, ".exe"@) {
        2int
    } else {
        0
    })
}

/// Whether a binary may run on a system: its operating system is the
/// system's, or the file does not tell and the name says so; and its
/// architecture is the system's, or the file does not tell.
pub open spec fn daemon_fits(name: Seq<char>, bytes: Seq<u8>, os: BinaryOs, arch: BinaryArch) -> bool {
    let target = binary_target(bytes);
    &&& target.0 == os || (target.0 == BinaryOs::Unknown && names_any(lower(name), os_tokens(os)))
    &&& target.1 == arch || target.1 == BinaryArch::Unknown
}

/// Whether the binary at `i` has the highest score of `entries`, and is
/// the last of those that have it.
pub open spec fn is_best(entries: Seq<EmbeddedBinary>, i: int, os: BinaryOs, arch: BinaryArch) -> bool {
    &&& 0 <= i < entries.len()
    &&& forall|j: int|
        0 <= j < entries.len() ==> {
            let mine = daemon_score(entries[i].name@, entries[i].bytes@, os, arch);
            let other = #[trigger] daemon_score(entries[j].name@, entries[j].bytes@, os, arch);
            other <= mine && (j > i ==> other < mine)
        }
}

/// Scores a binary for a system.
pub fn score_for(entry: &EmbeddedBinary, os: BinaryOs, arch: BinaryArch) -> (score: i32)
    ensures
        score == daemon_score(entry.name@, entry.bytes@, os, arch),
{
    let (detected_os, detected_arch) = detect_binary_target(entry.bytes.as_slice());
    let name = lower_chars(entry.name.as_str());
    let os_words = os_tokens_for(os);
    let arch_words = arch_tokens_for(arch);
    let mut score: i32 = 0;
    if detected_os == os {
        score += 100;
    }
    if detected_arch == arch {
        score += 100;
    }
    if detected_os == BinaryOs::Unknown && contains_any(&name, &os_words) {
        score += 20;
    }
    if detected_arch == BinaryArch::Unknown && contains_any(&name, &arch_words) {
        score += 20;
    }
    if contains_text(&name, "blocknet") || contains_text(&name, "daemon") {
        score += 5;
    }
    if os == BinaryOs::Windows && ends_with_text(&name, ".exe") {
        score += 2;
    }
    score
}

/// Tells whether a binary may run on a system.
pub fn fits_system(entry: &EmbeddedBinary, os: BinaryOs, arch: BinaryArch) -> (b: bool)
    ensures
        b == daemon_fits(entry.name@, entry.bytes@, os, arch),
{
    let (detected_os, detected_arch) = detect_binary_target(entry.bytes.as_slice());
    let os_ok = detected_os == os || (detected_os == BinaryOs::Unknown && {
        let name = lower_chars(entry.name.as_str());
        let os_words = os_tokens_for(os);
        contains_any(&name, &os_words)
    });
    os_ok && (detected_arch == arch || detected_arch == BinaryArch::Unknown)
}

/// Chooses the daemon binary for a system: the one with the highest
/// score, the last of them where several have it, and only if it may run
/// on the system. Returns its index.
pub fn select_embedded_daemon(entries: &Vec<EmbeddedBinary>, os: BinaryOs, arch: BinaryArch) -> (r:
    Option<usize>)
    ensures
        match r {
            Some(i) => is_best(entries@, i as int, os, arch) && daemon_fits(
                entries@[i as int].name@,
                entries@[i as int].bytes@,
                os,
                arch,
            ),
            None => entries.len() == 0 || exists|i: int|
                #[trigger] is_best(entries@, i, os, arch) && !daemon_fits(
                    entries@[i].name@,
                    entries@[i].bytes@,
                    os,
                    arch,
                ),
        },
{
    if entries.len() == 0 {
        return None;
    }
    let mut best: usize = 0;
    let mut best_score: i32 = score_for(&entries[0], os, arch);
    let mut i: usize = 1;
    while i < entries.len()
        invariant
            1 <= i <= entries.len(),
            best < i,
            best_score == daemon_score(entries@[best as int].name@, entries@[best as int].bytes@, os, arch),
            forall|j: int|
                0 <= j < i ==> {
                    let other = #[trigger] daemon_score(entries@[j].name@, entries@[j].bytes@, os, arch);
                    other <= best_score && (j > best ==> other < best_score)
                },
        decreases entries.len() - i,
    {
        let score = score_for(&entries[i], os, arch);
        if score >= best_score {
            best = i;
            best_score = score;
        }
        i += 1;
    }
    assert(is_best(entries@, best as int, os, arch));
    if fits_system(&entries[best], os, arch) {
        Some(best)
    } else {
        None
    }
}

} // verus!
