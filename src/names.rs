use vstd::prelude::*;

verus! {

/// Text returned for a code that the resolver's table does not list.
pub open spec fn unassigned() -> Seq<char> {
    "reserved/unassigned"@
}

/// Name of a class code.
pub open spec fn class_label(class: u8) -> Seq<char> {
    match class {
        0x01 => "32-bit"@,
        0x02 => "64-bit"@,
        _ => unassigned(),
    }
}

/// Resolves a class code to its name; unknown codes get the fallback text.
pub fn ei_class_name(class: u8) -> (r: &'static str)
    ensures
        r@ == class_label(class),
{
    match class {
        0x01 => "32-bit",
        0x02 => "64-bit",
        _ => "reserved/unassigned",
    }
}

/// Name of a data-encoding code.
pub open spec fn data_label(data: u8) -> Seq<char> {
    match data {
        0x01 => "little-endian"@,
        0x02 => "big-endian"@,
        _ => unassigned(),
    }
}

/// Resolves a data-encoding code to its name; unknown codes get the
/// fallback text.
pub fn ei_data_name(data: u8) -> (r: &'static str)
    ensures
        r@ == data_label(data),
{
    match data {
        0x01 => "little-endian",
        0x02 => "big-endian",
        _ => "reserved/unassigned",
    }
}

/// Name of an OS/ABI code.
pub open spec fn abi_label(abi: u8) -> Seq<char> {
    match abi {
        0x00 => "UNIX System V"@,
        0x01 => "HP-UX"@,
        0x02 => "NetBSD"@,
        0x03 => "GNU/Linux"@,
        0x04 => "GNU Hurd"@,
        0x06 => "Solaris"@,
        0x07 => "AIX"@,
        0x08 => "IRIX"@,
        0x09 => "FreeBSD"@,
        0x0A => "TRU64 UNIX"@,
        0x0B => "Novell Modesto"@,
        0x0C => "OpenBSD"@,
        0x0D => "OpenVMS"@,
        0x0E => "HP NonStop Kernel"@,
        0x0F => "AROS"@,
        0x10 => "FenixOS"@,
        0x11 => "Nuxi CloudABI"@,
        0x12 => "Stratus Technologies OpenVOS"@,
        _ => unassigned(),
    }
}

/// Resolves an OS/ABI code to its name; codes without an assigned name,
/// inside the accepted range or not, get the fallback text.
pub fn ei_abi_name(abi: u8) -> (r: &'static str)
    ensures
        r@ == abi_label(abi),
{
    match abi {
        0x00 => "UNIX System V",
        0x01 => "HP-UX",
        0x02 => "NetBSD",
        0x03 => "GNU/Linux",
        0x04 => "GNU Hurd",
        0x06 => "Solaris",
        0x07 => "AIX",
        0x08 => "IRIX",
        0x09 => "FreeBSD",
        0x0A => "TRU64 UNIX",
        0x0B => "Novell Modesto",
        0x0C => "OpenBSD",
        0x0D => "OpenVMS",
        0x0E => "HP NonStop Kernel",
        0x0F => "AROS",
        0x10 => "FenixOS",
        0x11 => "Nuxi CloudABI",
        0x12 => "Stratus Technologies OpenVOS",
        _ => "reserved/unassigned",
    }
}

/// Name of an object-file type code.
pub open spec fn type_label(kind: u16) -> Seq<char> {
    if kind == 0x0000 {
        "Unknown"@
    } else if kind == 0x0001 {
        "Relocatable file"@
    } else if kind == 0x0002 {
        "Executable file"@
    } else if kind == 0x0003 {
        "Shared object"@
    } else if kind == 0x0004 {
        "Core file"@
    } else if 0xFE00 <= kind <= 0xFEFF {
        "Reserved inclusive range. Operating system specific."@
    } else if 0xFF00 <= kind {
        "Reserved inclusive range. Processor specific."@
    } else {
        unassigned()
    }
}

/// Resolves an object-file type code to its name; unknown codes get the
/// fallback text.
pub fn object_type_name(kind: u16) -> (r: &'static str)
    ensures
        r@ == type_label(kind),
{
    if kind == 0x0000 {
        "Unknown"
    } else if kind == 0x0001 {
        "Relocatable file"
    } else if kind == 0x0002 {
        "Executable file"
    } else if kind == 0x0003 {
        "Shared object"
    } else if kind == 0x0004 {
        "Core file"
    } else if 0xFE00 <= kind && kind <= 0xFEFF {
        "Reserved inclusive range. Operating system specific."
    } else if 0xFF00 <= kind {
        "Reserved inclusive range. Processor specific."
    } else {
        "reserved/unassigned"
    }
}

/// Name of a machine (instruction set) code.
pub open spec fn machine_label(isa: u16) -> Seq<char> {
    match isa {
        0x0000 => "No specific instruction set"@,
        0x0001 => "AT&T WE 32100"@,
        0x0002 => "SPARC"@,
        0x0003 => "x86"@,
        0x0004 => "Motorola 68000 (M68k)"@,
        0x0005 => "Motorola 88000 (M88k)"@,
        0x0006 => "Intel MCU"@,
        0x0007 => "Intel 80860"@,
        0x0008 => "MIPS"@,
        0x0009 => "IBM System/370"@,
        0x000A => "MIPS RS3000 Little-endian"@,
        0x000F => "Hewlett-Packard PA-RISC"@,
        0x0013 => "Intel 80960"@,
        0x0014 => "PowerPC"@,
        0x0015 => "PowerPC (64-bit)"@,
        0x0016 => "S390, including S390x"@,
        0x0017 => "IBM SPU/SPC"@,
        0x0024 => "NEC V800"@,
        0x0025 => "Fujitsu FR20"@,
        0x0026 => "TRW RH-32"@,
        0x0027 => "Motorola RCE"@,
        0x0028 => "Arm (up to Armv7/AArch32)"@,
        0x0029 => "Digital Alpha"@,
        0x002A => "SuperH"@,
        0x002B => "SPARC Version 9"@,
        0x002C => "Siemens TriCore embedded processor"@,
        0x002D => "Argonaut RISC Core"@,
        0x002E => "Hitachi H8/300"@,
        0x002F => "Hitachi H8/300H"@,
        0x0030 => "Hitachi H8S"@,
        0x0031 => "Hitachi H8/500"@,
        0x0032 => "IA-64"@,
        0x0033 => "Stanford MIPS-X"@,
        0x0034 => "Motorola ColdFire"@,
        0x0035 => "Motorola M68HC12"@,
        0x0036 => "Fujitsu MMA Multimedia Accelerator"@,
        0x0037 => "Siemens PCP"@,
        0x0038 => "Sony nCPU embedded RISC processor"@,
        0x0039 => "Denso NDR1 microprocessor"@,
        0x003A => "Motorola Star*Core processor"@,
        0x003B => "Toyota ME16 processor"@,
        0x003C => "STMicroelectronics ST100 processor"@,
        0x003D => "Advanced Logic Corp. TinyJ embedded processor family"@,
        0x003E => "AMD x86-64"@,
        0x003F => "Sony DSP Processor"@,
        0x0040 => "Digital Equipment Corp. PDP-10"@,
        0x0041 => "Digital Equipment Corp. PDP-11"@,
        0x0042 => "Siemens FX66 microcontroller"@,
        0x0043 => "STMicroelectronics ST9+ 8/16 bit microcontroller"@,
        0x0044 => "STMicroelectronics ST7 8-bit microcontroller"@,
        0x0045 => "Motorola MC68HC16 Microcontroller"@,
        0x0046 => "Motorola MC68HC11 Microcontroller"@,
        0x0047 => "Motorola MC68HC08 Microcontroller"@,
        0x0048 => "Motorola MC68HC05 Microcontroller"@,
        0x0049 => "Silicon Graphics SVx"@,
        0x004A => "STMicroelectronics ST19 8-bit microcontroller"@,
        0x004B => "Digital VAX"@,
        0x004C => "Axis Communications 32-bit embedded processor"@,
        0x004D => "Infineon Technologies 32-bit embedded processor"@,
        0x004E => "Element 14 64-bit DSP Processor"@,
        0x004F => "LSI Logic 16-bit DSP Processor"@,
        0x008C => "TMS320C6000 Family"@,
        0x00AF => "MCST Elbrus e2k"@,
        0x00B7 => "Arm 64-bits (Armv8/AArch64)"@,
        0x00DC => "Zilog Z80"@,
        0x00F3 => "RISC-V"@,
        0x00F7 => "Berkeley Packet Filter"@,
        0x0101 => "WDC 65C816"@,
        _ => unassigned(),
    }
}

/// Resolves a machine code to the name of its instruction set; unknown
/// codes get the fallback text.
pub fn machine_name(isa: u16) -> (r: &'static str)
    ensures
        r@ == machine_label(isa),
{
    match isa {
        0x0000 => "No specific instruction set",
        0x0001 => "AT&T WE 32100",
        0x0002 => "SPARC",
        0x0003 => "x86",
        0x0004 => "Motorola 68000 (M68k)",
        0x0005 => "Motorola 88000 (M88k)",
        0x0006 => "Intel MCU",
        0x0007 => "Intel 80860",
        0x0008 => "MIPS",
        0x0009 => "IBM System/370",
        0x000A => "MIPS RS3000 Little-endian",
        0x000F => "Hewlett-Packard PA-RISC",
        0x0013 => "Intel 80960",
        0x0014 => "PowerPC",
        0x0015 => "PowerPC (64-bit)",
        0x0016 => "S390, including S390x",
        0x0017 => "IBM SPU/SPC",
        0x0024 => "NEC V800",
        0x0025 => "Fujitsu FR20",
        0x0026 => "TRW RH-32",
        0x0027 => "Motorola RCE",
        0x0028 => "Arm (up to Armv7/AArch32)",
        0x0029 => "Digital Alpha",
        0x002A => "SuperH",
        0x002B => "SPARC Version 9",
        0x002C => "Siemens TriCore embedded processor",
        0x002D => "Argonaut RISC Core",
        0x002E => "Hitachi H8/300",
        0x002F => "Hitachi H8/300H",
        0x0030 => "Hitachi H8S",
        0x0031 => "Hitachi H8/500",
        0x0032 => "IA-64",
        0x0033 => "Stanford MIPS-X",
        0x0034 => "Motorola ColdFire",
        0x0035 => "Motorola M68HC12",
        0x0036 => "Fujitsu MMA Multimedia Accelerator",
        0x0037 => "Siemens PCP",
        0x0038 => "Sony nCPU embedded RISC processor",
        0x0039 => "Denso NDR1 microprocessor",
        0x003A => "Motorola Star*Core processor",
        0x003B => "Toyota ME16 processor",
        0x003C => "STMicroelectronics ST100 processor",
        0x003D => "Advanced Logic Corp. TinyJ embedded processor family",
        0x003E => "AMD x86-64",
        0x003F => "Sony DSP Processor",
        0x0040 => "Digital Equipment Corp. PDP-10",
        0x0041 => "Digital Equipment Corp. PDP-11",
        0x0042 => "Siemens FX66 microcontroller",
        0x0043 => "STMicroelectronics ST9+ 8/16 bit microcontroller",
        0x0044 => "STMicroelectronics ST7 8-bit microcontroller",
        0x0045 => "Motorola MC68HC16 Microcontroller",
        0x0046 => "Motorola MC68HC11 Microcontroller",
        0x0047 => "Motorola MC68HC08 Microcontroller",
        0x0048 => "Motorola MC68HC05 Microcontroller",
        0x0049 => "Silicon Graphics SVx",
        0x004A => "STMicroelectronics ST19 8-bit microcontroller",
        0x004B => "Digital VAX",
        0x004C => "Axis Communications 32-bit embedded processor",
        0x004D => "Infineon Technologies 32-bit embedded processor",
        0x004E => "Element 14 64-bit DSP Processor",
        0x004F => "LSI Logic 16-bit DSP Processor",
        0x008C => "TMS320C6000 Family",
        0x00AF => "MCST Elbrus e2k",
        0x00B7 => "Arm 64-bits (Armv8/AArch64)",
        0x00DC => "Zilog Z80",
        0x00F3 => "RISC-V",
        0x00F7 => "Berkeley Packet Filter",
        0x0101 => "WDC 65C816",
        _ => "reserved/unassigned",
    }
}
} // verus!
