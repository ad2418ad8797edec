//! Information about various supported platforms

use vstd::prelude::*;

verus! {

/// 32-bit Windows MSVC (Windows 7+)
pub const TARGET_X86_WINDOWS: &'static str = "i686-pc-windows-msvc";

/// 64-bit Windows MSVC (Windows 7+)
pub const TARGET_X64_WINDOWS: &'static str = "x86_64-pc-windows-msvc";

/// ARM64 Windows MSVC
pub const TARGET_ARM64_WINDOWS: &'static str = "aarch64-pc-windows-msvc";

/// 32-bit MinGW (Windows 7+)
pub const TARGET_X86_MINGW: &'static str = "i686-pc-windows-gnu";

/// 64-bit MinGW (Windows 7+)
pub const TARGET_X64_MINGW: &'static str = "x86_64-pc-windows-gnu";

/// ARM64 MinGW (Windows 7+)
pub const TARGET_ARM64_MINGW: &'static str = "aarch64-pc-windows-gnu";

/// 32-bit Intel macOS (10.12+, Sierra+)
pub const TARGET_X86_MAC: &'static str = "i686-apple-darwin";

/// 64-bit Intel macOS (10.12+, Sierra+)
pub const TARGET_X64_MAC: &'static str = "x86_64-apple-darwin";

/// ARM64 macOS (11.0+, Big Sur+) -- AKA "Apple Silicon"
pub const TARGET_ARM64_MAC: &'static str = "aarch64-apple-darwin";

/// 32-bit Linux (kernel 3.2+, glibc 2.17+)
pub const TARGET_X86_LINUX_GNU: &'static str = "i686-unknown-linux-gnu";

/// 64-bit Linux (kernel 3.2+, glibc 2.17+)
pub const TARGET_X64_LINUX_GNU: &'static str = "x86_64-unknown-linux-gnu";

/// ARM64 Linux (kernel 4.1, glibc 2.17+)
pub const TARGET_ARM64_LINUX_GNU: &'static str = "aarch64-unknown-linux-gnu";

/// ARMv7-A Linux, hardfloat (kernel 3.2, glibc 2.17) -- AKA ARMv7-A Linux
pub const TARGET_ARMV7_LINUX_GNU: &'static str = "armv7-unknown-linux-gnueabihf";

/// ARMv6 Linux (kernel 3.2, glibc 2.17)
pub const TARGET_ARMV6_LINUX_GNU: &'static str = "arm-unknown-linux-gnueabi";

/// ARMv6 Linux, hardfloat (kernel 3.2, glibc 2.17)
pub const TARGET_ARMV6_LINUX_GNU_HARDFLOAT: &'static str = "arm-unknown-linux-gnueabihf";

/// PowerPC Linux (kernel 3.2, glibc 2.17)
pub const TARGET_PPC_LINUX_GNU: &'static str = "powerpc-unknown-linux-gnu";

/// PPC64 Linux (kernel 3.2, glibc 2.17)
pub const TARGET_PPC64_LINUX_GNU: &'static str = "powerpc64-unknown-linux-gnu";

/// PPC64LE Linux (kernel 3.10, glibc 2.17)
pub const TARGET_PPC64LE_LINUX_GNU: &'static str = "powerpc64le-unknown-linux-gnu";

/// S390x Linux (kernel 3.2, glibc 2.17)
pub const TARGET_S390X_LINUX_GNU: &'static str = "s390x-unknown-linux-gnu";

/// RISC-V Linux (kernel 4.20, glibc 2.29)
pub const TARGET_RISCV_LINUX_GNU: &'static str = "riscv64gc-unknown-linux-gnu";

/// LoongArch64 Linux, LP64D ABI (kernel 5.19, glibc 2.36)
pub const TARGET_LOONGARCH64_LINUX_GNU: &'static str = "loongarch64-unknown-linux-gnu";

/// SPARC Linux (kernel 4.4, glibc 2.23)
pub const TARGET_SPARC64_LINUX_GNU: &'static str = "sparc64-unknown-linux-gnu";

/// 32-bit Linux with MUSL
pub const TARGET_X86_LINUX_MUSL: &'static str = "i686-unknown-linux-musl";

/// 64-bit Linux with MUSL
pub const TARGET_X64_LINUX_MUSL: &'static str = "x86_64-unknown-linux-musl";

/// ARM64 Linux with MUSL
pub const TARGET_ARM64_LINUX_MUSL: &'static str = "aarch64-unknown-linux-musl";

/// ARMv7-A Linux with MUSL, hardfloat
pub const TARGET_ARMV7_LINUX_MUSL: &'static str = "armv7-unknown-linux-musleabihf";

/// ARMv6 Linux with MUSL
pub const TARGET_ARMV6_LINUX_MUSL: &'static str = "arm-unknown-linux-musleabi";

/// ARMv6 Linux with MUSL, hardfloat
pub const TARGET_ARMV6_LINUX_MUSL_HARDFLOAT: &'static str = "arm-unknown-linux-musleabihf";

/// PowerPC Linux with MUSL
pub const TARGET_PPC_LINUX_MUSL: &'static str = "powerpc-unknown-linux-musl";

/// PPC64 Linux with MUSL
pub const TARGET_PPC64_LINUX_MUSL: &'static str = "powerpc64-unknown-linux-musl";

/// PPC64LE Linux with MUSL
pub const TARGET_PPC64LE_LINUX_MUSL: &'static str = "powerpc64le-unknown-linux-musl";

/// S390x Linux with MUSL
pub const TARGET_S390X_LINUX_MUSL: &'static str = "s390x-unknown-linux-musl";

/// RISC-V Linux with MUSL
pub const TARGET_RISCV_LINUX_MUSL: &'static str = "riscv64gc-unknown-linux-musl";

/// LoongArch64 Linux with MUSL, LP64D ABI
pub const TARGET_LOONGARCH64_LINUX_MUSL: &'static str = "loongarch64-unknown-linux-musl";

/// SPARC Linux with MUSL
pub const TARGET_SPARC64_LINUX_MUSL: &'static str = "sparc64-unknown-linux-musl";

/// 64-bit FreeBSD
pub const TARGET_X64_FREEBSD: &'static str = "x86_64-unknown-freebsd";

/// illumos
pub const TARGET_X64_ILLUMOS: &'static str = "x86_64-unknown-illumos";

/// NetBSD/amd64
pub const TARGET_X64_NETBSD: &'static str = "x86_64-unknown-netbsd";

/// ARM64 iOS
pub const TARGET_ARM64_IOS: &'static str = "aarch64-apple-ios";

/// ARM64 Fuchsia
pub const TARGET_ARM64_FUCHSIA: &'static str = "aarch64-unknown-fuchsia";

/// ARM64 Android
pub const TARGET_ARM64_ANDROID: &'static str = "aarch64-linux-android";

/// 64-bit x86 Android
pub const TARGET_X64_ANDROID: &'static str = "x86_64-linux-android";

/// WebAssembly with WASI
pub const TARGET_WASM32_WASI: &'static str = "wasm32-wasi";

/// WebAssembly
pub const TARGET_WASM32: &'static str = "wasm32-unknown-unknown";

/// SPARC Solaris 10/11, illumos
pub const TARGET_SPARC_SOLARIS: &'static str = "sparcv9-sun-solaris";

/// 64-bit Solaris 10/11, illumos
pub const TARGET_X64_SOLARIS: &'static str = "x86_64-pc-solaris";

} // verus!
