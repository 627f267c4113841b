use lsplus::utils::format::{human_readable_format, mode_to_rwx, shorten_filename, show_size};

#[test]
fn test_format_size() {
    let (size, unit) = human_readable_format(0);
    assert_eq!(format!("{} {}", size, unit), "0.0 B");

    let (size, unit) = human_readable_format(1023);
    assert_eq!(format!("{} {}", size, unit), "1023.0 B");

    let (size, unit) = human_readable_format(1024);
    assert_eq!(format!("{} {}", size, unit), "1.0 KB");

    let (size, unit) = human_readable_format(1024 * 1024);
    assert_eq!(format!("{} {}", size, unit), "1.0 MB");

    let (size, unit) = human_readable_format(1024 * 1024 * 1024);
    assert_eq!(format!("{} {}", size, unit), "1.0 GB");

    let (size, unit) = human_readable_format(1024 * 1024 * 1024 * 1024);
    assert_eq!(format!("{} {}", size, unit), "1.0 TB");
}

#[test]
fn test_format_size_partial() {
    let (size, unit) = human_readable_format(1536);
    assert_eq!(format!("{} {}", size, unit), "1.5 KB");

    let (size, unit) = human_readable_format(1024 * 1024 * 3 / 2);
    assert_eq!(format!("{} {}", size, unit), "1.5 MB");

    let (size, unit) = human_readable_format(1024 * 1024 * 1024 * 5 / 2);
    assert_eq!(format!("{} {}", size, unit), "2.5 GB");

    let (size, unit) = show_size(2560, true);
    assert_eq!(size, "2.5");
    assert_eq!(unit, "KB");

    let (size, unit) = show_size(1024, true);
    assert_eq!(size, "1");
    assert_eq!(unit, "KB");

    let (size, unit) = show_size(2560, false);
    assert_eq!(size, "2560");
    assert_eq!(unit, "");
}

#[test]
fn test_format_size_extreme() {
    let (size, unit) = human_readable_format(1024 * 1024 * 1024 * 1024);
    assert_eq!(format!("{} {}", size, unit), "1.0 TB");

    let (size, unit) = human_readable_format(1024 * 1024 * 1024 * 1024 * 1024);
    assert_eq!(format!("{} {}", size, unit), "1.0 PB");

    let (size, unit) = human_readable_format(1024);
    assert_eq!(format!("{} {}", size, unit), "1.0 KB");

    let (size, unit) = human_readable_format(1024 * 1024);
    assert_eq!(format!("{} {}", size, unit), "1.0 MB");

    let (size, unit) = human_readable_format(1023);
    assert_eq!(format!("{} {}", size, unit), "1023.0 B");

    let (size, unit) = human_readable_format(1024 * 1024 - 1);
    assert_eq!(format!("{} {}", size, unit), "1024.0 KB");
}

#[test]
fn size_stays_in_petabytes_beyond() {
    let (size, unit) = human_readable_format(1024 * 1024 * 1024 * 1024 * 1024 * 1024);
    assert_eq!(format!("{} {}", size, unit), "1024.0 PB");
    let (size, unit) = show_size(u64::MAX, true);
    assert_eq!(unit, "PB");
    assert_eq!(size, "16384.0");
}

#[test]
fn size_rounds_ties_to_even_tenth() {
    // 1280 bytes are 1.25 KB, 1331.2 bytes would be 1.3: ties go to the even tenth.
    let (size, unit) = human_readable_format(1280);
    assert_eq!(format!("{} {}", size, unit), "1.2 KB");
    let (size, _) = human_readable_format(1331);
    assert_eq!(size, "1.3");
    let (size, unit) = show_size(1280, true);
    assert_eq!(size, "1.2");
    assert_eq!(unit, "KB");
}

#[test]
fn size_raw_bytes_for_zero_and_max() {
    assert_eq!(show_size(0, false), (String::from("0"), String::new()));
    assert_eq!(show_size(0, true), (String::from("0"), String::from("B")));
    assert_eq!(show_size(u64::MAX, false).0, "18446744073709551615");
}

#[test]
fn test_format_mode() {
    assert_eq!(mode_to_rwx(0o755), "rwxr-xr-x");
    assert_eq!(mode_to_rwx(0o644), "rw-r--r--");
    assert_eq!(mode_to_rwx(0o777), "rwxrwxrwx");
}

#[test]
fn test_format_mode_permissions() {
    assert_eq!(mode_to_rwx(0o000), "---------");
    assert_eq!(mode_to_rwx(0o777), "rwxrwxrwx");
    assert_eq!(mode_to_rwx(0o750), "rwxr-x---");
}

#[test]
fn test_mode_to_rwx_edge_cases() {
    assert_eq!(mode_to_rwx(0o0000), "---------");
    assert_eq!(mode_to_rwx(0o0777), "rwxrwxrwx");
    assert_eq!(mode_to_rwx(0o0222), "-w--w--w-");
    assert_eq!(mode_to_rwx(0o0111), "--x--x--x");
}

#[test]
fn mode_ignores_type_and_special_bits() {
    assert_eq!(mode_to_rwx(0o40755), "rwxr-xr-x");
    assert_eq!(mode_to_rwx(0o104644), "rw-r--r--");
}

#[test]
fn test_shorten_filename() {
    assert_eq!(shorten_filename("short.txt", 20), "short.txt");

    assert_eq!(
        shorten_filename("verylongfilename.txt", 15),
        format!("very{}name.txt", "...")
    );

    // An odd split gives the extra character to the front.
    assert_eq!(
        shorten_filename("verylongfilename", 10),
        format!("very{}ame", "...")
    );

    assert_eq!(shorten_filename("long.txt", 5), "long.");

    assert_eq!(shorten_filename("exact.txt", 9), "exact.txt");

    assert_eq!(
        shorten_filename(".longconfigfile.conf", 15),
        format!(".lon{}ile.conf", "...")
    );
}

#[test]
fn shortened_names_fill_the_width_exactly() {
    let names = ["verylongfilename.txt", "a_rather_long_name_without_dot", "archive.tar.gz", ".bashrc_local_copy"];
    for name in names.iter() {
        for width in 0..name.len() {
            let s = shorten_filename(name, width);
            assert_eq!(s.chars().count(), width, "{} at {}", name, width);
        }
    }
    let s = shorten_filename("archive.tar.gz", 10);
    assert!(s.ends_with(".gz"));
    assert_eq!(s, "ar...ar.gz");
}

#[test]
fn shorten_falls_back_to_cutting() {
    assert_eq!(shorten_filename("document.markdown", 12), "document.mar");
    assert_eq!(shorten_filename("abc", 0), "");
}
