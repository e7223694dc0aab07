use sqruff_provision::naming::{compute_asset_name, compute_binary_path, compute_version_dir, Architecture, Platform};

#[test]
fn asset_names_for_all_platform_architecture_pairs() {
    let cases = [
        (Platform::Mac, Architecture::Aarch64, "sqruff-darwin-aarch64.tar.gz"),
        (Platform::Mac, Architecture::X86, "sqruff-darwin-x86.tar.gz"),
        (Platform::Mac, Architecture::X8664, "sqruff-darwin-x86_64.tar.gz"),
        (Platform::Linux, Architecture::Aarch64, "sqruff-linux-aarch64-musl.tar.gz"),
        (Platform::Linux, Architecture::X86, "sqruff-linux-x86.tar.gz"),
        (Platform::Linux, Architecture::X8664, "sqruff-linux-x86_64-musl.tar.gz"),
        (Platform::Windows, Architecture::Aarch64, "sqruff-windows-aarch64.zip"),
        (Platform::Windows, Architecture::X86, "sqruff-windows-x86.zip"),
        (Platform::Windows, Architecture::X8664, "sqruff-windows-x86_64.zip"),
    ];
    for (platform, architecture, expected) in cases {
        assert_eq!(compute_asset_name("sqruff", platform, architecture), expected);
    }
}

#[test]
fn asset_name_is_stable_across_repeated_calls() {
    let first = compute_asset_name("sqruff", Platform::Linux, Architecture::X8664);
    let second = compute_asset_name("sqruff", Platform::Linux, Architecture::X8664);
    assert_eq!(first, second);
}

#[test]
fn asset_names_differ_whenever_platform_or_architecture_differs() {
    let platforms = [Platform::Mac, Platform::Linux, Platform::Windows];
    let architectures = [Architecture::Aarch64, Architecture::X86, Architecture::X8664];
    let mut names: Vec<String> = Vec::new();
    for platform in platforms {
        for architecture in architectures {
            names.push(compute_asset_name("sqruff", platform, architecture));
        }
    }
    for i in 0..names.len() {
        for j in 0..names.len() {
            if i != j {
                assert_ne!(names[i], names[j]);
            }
        }
    }
}

#[test]
fn musl_suffix_appears_only_on_linux_asset_names() {
    let platforms = [Platform::Mac, Platform::Linux, Platform::Windows];
    let architectures = [Architecture::Aarch64, Architecture::X86, Architecture::X8664];
    for platform in platforms {
        for architecture in architectures {
            let name = compute_asset_name("sqruff", platform, architecture);
            let is_musl = name.contains("musl");
            let expected = matches!(platform, Platform::Linux)
                && !matches!(architecture, Architecture::X86);
            assert_eq!(is_musl, expected);
        }
    }
}

#[test]
fn version_dir_and_binary_path() {
    assert_eq!(compute_version_dir("sqruff", "v0.20.5"), "sqruff-v0.20.5");
    assert_eq!(compute_binary_path("sqruff", "v0.20.5"), "sqruff-v0.20.5/sqruff");
}
