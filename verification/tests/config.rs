use std::path::PathBuf;

use rust_languagetool::config::{default_jre_url, java_bin_name, Arch, Os, Platform, Span};
use rust_languagetool::layout::{server_jar_path, Asset, InstallPath};
use rust_languagetool::EngineConfig;

const LINUX: Platform = Platform { os: Os::Linux, arch: Arch::X86_64 };

#[test]
fn explicit_config() {
    let cfg = EngineConfig::new(InstallPath::new("/data"), "6.6", "https://example.com/lt.zip", "abc123", LINUX);
    assert_eq!(cfg.data_dir.parts, vec!["/data".to_string()]);
    assert_eq!(cfg.lt_version, "6.6");
    assert_eq!(cfg.lt_download_url, "https://example.com/lt.zip");
    assert_eq!(cfg.lt_sha256, "abc123");
    assert_eq!(cfg.startup_timeout, Span { secs: 30, nanos: 0 });
    assert!(cfg.jre_sha256.is_none());
    assert_eq!(
        cfg.jre_download_url.unwrap(),
        "https://github.com/adoptium/temurin17-binaries/releases/download/jdk-17.0.13%2B11/OpenJDK17U-jre_x64_linux_hotspot_17.0.13_11.tar.gz"
    );
}

#[test]
fn jre_url_of_each_platform() {
    let base = "https://github.com/adoptium/temurin17-binaries/releases/download/jdk-17.0.13%2B11";
    let cases = vec![
        (Os::Macos, Arch::Aarch64, Some("OpenJDK17U-jre_aarch64_mac_hotspot_17.0.13_11.tar.gz")),
        (Os::Macos, Arch::X86_64, Some("OpenJDK17U-jre_x64_mac_hotspot_17.0.13_11.tar.gz")),
        (Os::Linux, Arch::X86_64, Some("OpenJDK17U-jre_x64_linux_hotspot_17.0.13_11.tar.gz")),
        (Os::Linux, Arch::Aarch64, Some("OpenJDK17U-jre_aarch64_linux_hotspot_17.0.13_11.tar.gz")),
        (Os::Windows, Arch::X86_64, Some("OpenJDK17U-jre_x64_windows_hotspot_17.0.13_11.zip")),
        (Os::Windows, Arch::Aarch64, Some("OpenJDK17U-jre_x64_windows_hotspot_17.0.13_11.zip")),
        (Os::Linux, Arch::Other, None),
        (Os::Macos, Arch::Other, None),
        (Os::Other, Arch::X86_64, None),
    ];
    for (os, arch, file) in cases {
        let expected = file.map(|f| format!("{}/{}", base, f));
        assert_eq!(default_jre_url(Platform { os, arch }), expected);
    }
}

#[test]
fn name_of_the_java_binary() {
    assert_eq!(java_bin_name(Os::Windows), "java.exe");
    assert_eq!(java_bin_name(Os::Linux), "java");
    assert_eq!(java_bin_name(Os::Macos), "java");
    assert_eq!(java_bin_name(Os::Other), "java");
}

#[test]
fn default_config_below_a_directory() {
    let base = PathBuf::from("/home/a/.local/share");
    let cfg = EngineConfig::default_below(Some(base.clone()), "MyApp", "ab", LINUX).unwrap();
    assert_eq!(cfg.data_dir.base, Some(base));
    assert_eq!(cfg.data_dir.parts, vec!["MyApp", "languagetool"]);
    assert_eq!(cfg.lt_version, "6.6");
    assert_eq!(cfg.lt_download_url, "https://languagetool.org/download/LanguageTool-6.6.zip");
    assert_eq!(cfg.lt_sha256, "ab");
    assert!(EngineConfig::default_below(None, "MyApp", "ab", LINUX).is_none());
}

#[test]
fn default_config_of_this_user() {
    let cfg = EngineConfig::default_for_app("MyApp", "", LINUX);
    assert_eq!(cfg.is_some(), dirs::data_local_dir().is_some());
    if let Some(cfg) = cfg {
        assert_eq!(cfg.data_dir.base, dirs::data_local_dir());
        assert_eq!(cfg.data_dir.parts, vec!["MyApp", "languagetool"]);
    }
}

#[test]
fn a_clone_has_the_same_settings() {
    let mut cfg = EngineConfig::new(InstallPath::new("/data").join("x"), "6.6", "u", "s", LINUX);
    cfg.jre_sha256 = Some("j".to_string());
    let copy = cfg.clone();
    assert_eq!(copy.data_dir.parts, vec!["/data", "x"]);
    assert_eq!(copy.lt_version, "6.6");
    assert_eq!(copy.lt_download_url, "u");
    assert_eq!(copy.lt_sha256, "s");
    assert_eq!(copy.startup_timeout, cfg.startup_timeout);
    assert_eq!(copy.jre_download_url, cfg.jre_download_url);
    assert_eq!(copy.jre_sha256, Some("j".to_string()));
}

#[test]
fn spans_are_compared_by_length() {
    let second = Span { secs: 1, nanos: 0 };
    let more = Span { secs: 1, nanos: 1 };
    let less = Span { secs: 0, nanos: 999_999_999 };
    assert!(second.reaches(&second));
    assert!(more.reaches(&second));
    assert!(!second.reaches(&more));
    assert!(!less.reaches(&second));
    assert!(second.reaches(&less));
}

#[test]
fn server_jar_lies_in_the_dist_directory() {
    let jar = server_jar_path(&InstallPath::new("/data"), "6.6");
    assert_eq!(jar.parts, vec!["/data", "dist", "LanguageTool-6.6", "languagetool-server.jar"]);
}

#[test]
fn paths_of_the_platform_are_kept() {
    let base = PathBuf::from("/srv/data");
    let jar = server_jar_path(&InstallPath::from_base(base.clone()), "6.6").clone();
    assert_eq!(jar.base, Some(base));
    assert_eq!(jar.parts, vec!["dist", "LanguageTool-6.6", "languagetool-server.jar"]);
    assert_eq!(InstallPath::new("/srv/data").base, None);
}

#[test]
fn assets_lie_in_the_data_directory() {
    let dir = InstallPath::new("/data").join("app");
    let cases = vec![
        (Asset::Lock, ".lock"),
        (Asset::VersionFile, "version.json"),
        (Asset::LtPart, "LanguageTool.zip.part"),
        (Asset::LtZip, "LanguageTool.zip"),
        (Asset::Dist, "dist"),
        (Asset::JreArchive, "jre.part"),
        (Asset::Jre, "jre"),
    ];
    for (asset, name) in cases {
        assert_eq!(asset.path(&dir).parts, vec!["/data", "app", name]);
    }
    assert_eq!(Asset::DataDir.path(&dir).parts, vec!["/data", "app"]);
}
