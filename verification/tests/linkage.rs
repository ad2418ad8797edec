use cargo_dist::linkage::{
    homebrew_package, ldd_libraries, library_from_apt, library_from_homebrew, library_location,
    LibraryLocation,
};
use cargo_dist::schema::PackageManager;

#[test]
fn ldd_output_names_the_resolved_libraries() {
    let output = "\tlinux-vdso.so.1 (0x00007ffd5a5f1000)\n\
                  \tlibgcc_s.so.1 => /lib/x86_64-linux-gnu/libgcc_s.so.1 (0x00007f3c2a7e0000)\n\
                  \tlibc.so.6 => /lib/x86_64-linux-gnu/libc.so.6 (0x00007f3c2a400000)\n\
                  \t/lib64/ld-linux-x86-64.so.2 (0x00007f3c2a82c000)\n";
    assert_eq!(
        ldd_libraries(output),
        vec![
            "/lib/x86_64-linux-gnu/libgcc_s.so.1".to_string(),
            "/lib/x86_64-linux-gnu/libc.so.6".to_string(),
        ]
    );
}

#[test]
fn static_binaries_have_no_libraries() {
    assert!(ldd_libraries("\tnot a dynamic executable\n").is_empty());
    assert!(ldd_libraries("\tstatically linked\n\tlibc.so.6 => /lib/libc.so.6 (0x1)\n").is_empty());
    assert!(ldd_libraries("").is_empty());
}

#[test]
fn libraries_are_located_by_prefix() {
    assert_eq!(library_location("/opt/homebrew/opt/xz/lib/liblzma.5.dylib"), LibraryLocation::Homebrew);
    assert_eq!(library_location("/usr/lib/libSystem.B.dylib"), LibraryLocation::System);
    assert_eq!(library_location("/lib/x86_64-linux-gnu/libc.so.6"), LibraryLocation::System);
    assert_eq!(
        library_location("/System/Library/Frameworks/CoreFoundation.framework/CoreFoundation"),
        LibraryLocation::Framework
    );
    assert_eq!(library_location("/usr/local/lib/libfoo.so"), LibraryLocation::UsrLocal);
    assert_eq!(library_location("/home/me/libbar.so"), LibraryLocation::Other);
}

#[test]
fn homebrew_libraries_name_their_package() {
    assert_eq!(
        homebrew_package("/opt/homebrew/opt/openssl@3/lib/libssl.3.dylib"),
        Some("openssl@3".to_string())
    );
    assert_eq!(
        homebrew_package("/usr/local/opt/xz/lib/liblzma.5.dylib"),
        Some("xz".to_string())
    );
    assert_eq!(homebrew_package("/usr/lib/libz.dylib"), None);

    let core = library_from_homebrew(
        "/opt/homebrew/opt/xz/lib/liblzma.5.dylib".to_string(),
        Some("homebrew/core"),
    );
    assert_eq!(core.source.as_deref(), Some("xz"));
    assert_eq!(core.package_manager, Some(PackageManager::Homebrew));

    let tapped = library_from_homebrew(
        "/opt/homebrew/opt/foo/lib/libfoo.dylib".to_string(),
        Some("someone/tap"),
    );
    assert_eq!(tapped.source.as_deref(), Some("someone/tap/foo"));

    let elsewhere = library_from_homebrew("/usr/lib/libz.dylib".to_string(), None);
    assert!(elsewhere.source.is_none());
    assert!(elsewhere.package_manager.is_none());
}

#[test]
fn apt_packages_come_from_dpkg_output() {
    let lib = library_from_apt(
        "/lib/x86_64-linux-gnu/libc.so.6".to_string(),
        Some("libc6:amd64: /lib/x86_64-linux-gnu/libc.so.6\n"),
    );
    assert_eq!(lib.source.as_deref(), Some("libc6"));
    assert_eq!(lib.package_manager, Some(PackageManager::Apt));

    let unknown = library_from_apt("/opt/thing.so".to_string(), Some(""));
    assert!(unknown.source.is_none());
    assert!(unknown.package_manager.is_none());

    let not_linux = library_from_apt("/opt/thing.so".to_string(), None);
    assert!(not_linux.source.is_none());
}

#[test]
fn receipts_live_in_the_package_directory() {
    assert_eq!(
        cargo_dist::linkage::homebrew_receipt_path("/opt/homebrew/opt/libpng/lib/libpng16.16.dylib"),
        Some("/opt/homebrew/opt/libpng/INSTALL_RECEIPT.json".to_string())
    );
    assert_eq!(
        cargo_dist::linkage::homebrew_receipt_path("/usr/local/opt/xz/lib/liblzma.5.dylib"),
        Some("/usr/local/opt/xz/INSTALL_RECEIPT.json".to_string())
    );
    assert_eq!(cargo_dist::linkage::homebrew_receipt_path("/usr/lib/libc.so.6"), None);
}

#[test]
fn cellar_is_matched_by_path_components() {
    assert!(cargo_dist::linkage::in_homebrew_cellar("/usr/local/Cellar/xz/5.4.6/lib/liblzma.5.dylib"));
    assert!(cargo_dist::linkage::in_homebrew_cellar("/usr/local/Cellar"));
    assert!(!cargo_dist::linkage::in_homebrew_cellar("/usr/local/Cellarx/lib.so"));
    assert!(!cargo_dist::linkage::in_homebrew_cellar("/usr/local/lib/libfoo.so"));
}
