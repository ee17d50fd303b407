//! Configuration of the engine.
use std::path::PathBuf;
use vstd::prelude::*;
use vstd::string::*;
use crate::layout::{InstallPath, PathView};
use crate::text;

verus! {

/// An operating system, as far as the engine tells them apart.
#[derive(Clone, Copy, Debug, PartialEq, Eq, Structural)]
pub enum Os {
    Macos,
    Linux,
    Windows,
    Other,
}

/// A processor architecture, as far as the engine tells them apart.
#[derive(Clone, Copy, Debug, PartialEq, Eq, Structural)]
pub enum Arch {
    X86_64,
    Aarch64,
    Other,
}

/// The platform that the engine runs on.
#[derive(Clone, Copy, Debug, PartialEq, Eq, Structural)]
pub struct Platform {
    pub os: Os,
    pub arch: Arch,
}

/// A length of time: whole seconds, and nanoseconds of the next one.
#[derive(Clone, Copy, Debug, PartialEq, Eq, Structural)]
pub struct Span {
    pub secs: u64,
    pub nanos: u32,
}

impl Span {
    /// The length of time in nanoseconds.
    pub open spec fn total_nanos(self) -> nat {
        self.secs as nat * 1_000_000_000 + self.nanos as nat
    }

    /// Whether the nanoseconds make less than a second.
    pub open spec fn valid(self) -> bool {
        self.nanos < 1_000_000_000
    }

    /// Whether this length of time is at least as long as `other`.
    pub fn reaches(&self, other: &Span) -> (res: bool)
        requires
            self.valid(),
            other.valid(),
        ensures
            res == (self.total_nanos() >= other.total_nanos()),
    {
        self.secs > other.secs || (self.secs == other.secs && self.nanos >= other.nanos)
    }
}

/// Configuration of the LanguageTool engine.
#[derive(Debug)]
pub struct EngineConfig {
    /// Directory where LanguageTool and the optional Java runtime are installed.
    pub data_dir: InstallPath,
    /// Pinned LanguageTool version (such as "6.6").
    pub lt_version: String,
    /// Full URL of the LanguageTool distribution zip.
    pub lt_download_url: String,
    /// Expected SHA-256 hex digest of the zip; empty to skip verification.
    pub lt_sha256: String,
    /// How long to wait for the server to become healthy after it was spawned.
    pub startup_timeout: Span,
    /// Where a Java runtime for this platform can be downloaded, if one may be.
    pub jre_download_url: Option<String>,
    /// Expected SHA-256 hex digest of the archive of the Java runtime; none to skip verification.
    pub jre_sha256: Option<String>,
}

/// The file of the Temurin 17 runtime that fits a platform.
pub open spec fn jre_file(platform: Platform) -> Option<Seq<char>> {
    match (platform.os, platform.arch) {
        (Os::Macos, Arch::Aarch64) => Some(
            "OpenJDK17U-jre_aarch64_mac_hotspot_17.0.13_11.tar.gz"@,
        ),
        (Os::Macos, Arch::X86_64) => Some("OpenJDK17U-jre_x64_mac_hotspot_17.0.13_11.tar.gz"@),
        (Os::Linux, Arch::X86_64) => Some("OpenJDK17U-jre_x64_linux_hotspot_17.0.13_11.tar.gz"@),
        (Os::Linux, Arch::Aarch64) => Some(
            "OpenJDK17U-jre_aarch64_linux_hotspot_17.0.13_11.tar.gz"@,
        ),
        (Os::Windows, _) => Some("OpenJDK17U-jre_x64_windows_hotspot_17.0.13_11.zip"@),
        _ => None,
    }
}

/// The release page that the files of the Temurin 17 runtime are downloaded from.
pub open spec fn jre_release() -> Seq<char> {
    "https://github.com/adoptium/temurin17-binaries/releases/download/jdk-17.0.13%2B11"@
}

/// The URL of a Temurin 17 runtime for a platform, if one is known.
pub open spec fn jre_url(platform: Platform) -> Option<Seq<char>> {
    match jre_file(platform) {
        Some(file) => Some(jre_release() + "/"@ + file),
        None => None,
    }
}

/// The text of an optional string.
pub open spec fn optional_text(s: Option<String>) -> Option<Seq<char>> {
    match s {
        Some(s) => Some(s@),
        None => None,
    }
}

/// The URL of a Temurin 17 runtime for the platform, if one is known.
pub fn default_jre_url(platform: Platform) -> (res: Option<String>)
    ensures
        optional_text(res) == jre_url(platform),
{
    let file: &'static str = match (platform.os, platform.arch) {
        (Os::Macos, Arch::Aarch64) => "OpenJDK17U-jre_aarch64_mac_hotspot_17.0.13_11.tar.gz",
        (Os::Macos, Arch::X86_64) => "OpenJDK17U-jre_x64_mac_hotspot_17.0.13_11.tar.gz",
        (Os::Linux, Arch::X86_64) => "OpenJDK17U-jre_x64_linux_hotspot_17.0.13_11.tar.gz",
        (Os::Linux, Arch::Aarch64) => "OpenJDK17U-jre_aarch64_linux_hotspot_17.0.13_11.tar.gz",
        (Os::Windows, _) => "OpenJDK17U-jre_x64_windows_hotspot_17.0.13_11.zip",
        _ => {
            return None;
        },
    };
    let mut url: String = text::concat(
        "https://github.com/adoptium/temurin17-binaries/releases/download/jdk-17.0.13%2B11",
        "/",
    );
    url.append(file);
    Some(url)
}

/// The name of the Java binary.
pub open spec fn java_binary(os: Os) -> Seq<char> {
    if os == Os::Windows {
        "java.exe"@
    } else {
        "java"@
    }
}

/// The name of the Java binary.
pub fn java_bin_name(os: Os) -> (res: &'static str)
    ensures
        res@ == java_binary(os),
{
    if os == Os::Windows {
        "java.exe"
    } else {
        "java"
    }
}

/// Calls `dirs::data_local_dir`: the directory for application data of the user that the process
/// runs as, or nothing where there is none. It depends on the environment, so nothing is said of the
/// result.
#[verifier::external_body]
fn data_local_dir() -> (res: Option<PathBuf>) {
    dirs::data_local_dir()
}

/// The same string, where there is one.
fn clone_optional(s: &Option<String>) -> (res: Option<String>)
    ensures
        res == *s,
{
    match s {
        Some(s) => Some(s.clone()),
        None => None,
    }
}

impl Clone for EngineConfig {
    fn clone(&self) -> (res: Self)
        ensures
            res.data_dir@ == self.data_dir@,
            res == (EngineConfig { data_dir: res.data_dir, ..*self }),
    {
        EngineConfig {
            data_dir: self.data_dir.clone(),
            lt_version: self.lt_version.clone(),
            lt_download_url: self.lt_download_url.clone(),
            lt_sha256: self.lt_sha256.clone(),
            startup_timeout: self.startup_timeout,
            jre_download_url: clone_optional(&self.jre_download_url),
            jre_sha256: clone_optional(&self.jre_sha256),
        }
    }
}

impl EngineConfig {
    /// Whether the startup timeout is a proper length of time.
    pub open spec fn valid(self) -> bool {
        self.startup_timeout.valid()
    }

    /// Whether every setting but the directory, the version, the URL and the digest has the value
    /// that it has unless it is set: 30 seconds to start, and the Java runtime for the platform,
    /// unverified.
    pub open spec fn has_defaults(self, platform: Platform) -> bool {
        &&& self.startup_timeout == Span { secs: 30, nanos: 0 }
        &&& optional_text(self.jre_download_url) == jre_url(platform)
        &&& self.jre_sha256 is None
    }

    /// Whether this is a configuration with those values, and the defaults for all others.
    pub open spec fn is_configured(
        self,
        data_dir: InstallPath,
        lt_version: Seq<char>,
        lt_download_url: Seq<char>,
        lt_sha256: Seq<char>,
        platform: Platform,
    ) -> bool {
        &&& self.data_dir == data_dir
        &&& self.lt_version@ == lt_version
        &&& self.lt_download_url@ == lt_download_url
        &&& self.lt_sha256@ == lt_sha256
        &&& self.has_defaults(platform)
        &&& self.valid()
    }

    /// A configuration with explicit values. Supply the SHA-256 digest for integrity checking.
    pub fn new(
        data_dir: InstallPath,
        lt_version: &str,
        lt_download_url: &str,
        lt_sha256: &str,
        platform: Platform,
    ) -> (res: Self)
        ensures
            res.is_configured(data_dir, lt_version@, lt_download_url@, lt_sha256@, platform),
    {
        EngineConfig {
            data_dir,
            lt_version: String::from_str(lt_version),
            lt_download_url: String::from_str(lt_download_url),
            lt_sha256: String::from_str(lt_sha256),
            startup_timeout: Span { secs: 30, nanos: 0 },
            jre_download_url: default_jre_url(platform),
            jre_sha256: None,
        }
    }

    /// Whether this is the configuration of the pinned LanguageTool 6.6 release for `app_name`,
    /// installed below `base`.
    pub open spec fn is_default_for(
        self,
        base: PathBuf,
        app_name: Seq<char>,
        lt_sha256: Seq<char>,
        platform: Platform,
    ) -> bool {
        &&& self.data_dir@ == PathView::of_base(base).below(seq![app_name, "languagetool"@])
        &&& self.lt_version@ == "6.6"@
        &&& self.lt_download_url@ == "https://languagetool.org/download/LanguageTool-6.6.zip"@
        &&& self.lt_sha256@ == lt_sha256
        &&& self.has_defaults(platform)
        &&& self.valid()
    }

    /// The configuration for an app whose data goes below `base`; none without such a directory.
    pub fn default_below(
        base: Option<PathBuf>,
        app_name: &str,
        lt_sha256: &str,
        platform: Platform,
    ) -> (res: Option<Self>)
        ensures
            is_default_below(res, base, app_name@, lt_sha256@, platform),
    {
        match base {
            None => None,
            Some(base) => {
                let data_dir: InstallPath = InstallPath::from_base(base).join(app_name).join(
                    "languagetool",
                );
                assert(data_dir@.parts =~= seq![app_name@, "languagetool"@]);
                Some(
                    EngineConfig::new(
                        data_dir,
                        "6.6",
                        "https://languagetool.org/download/LanguageTool-6.6.zip",
                        lt_sha256,
                        platform,
                    ),
                )
            },
        }
    }

    /// A configuration rooted in the local application data directory of the user, for the pinned
    /// LanguageTool 6.6 release; none where there is no such directory.
    pub fn default_for_app(app_name: &str, lt_sha256: &str, platform: Platform) -> (res: Option<
        Self,
    >)
        ensures
            res matches Some(config) ==> exists|base: PathBuf|
                config.is_default_for(base, app_name@, lt_sha256@, platform),
    {
        let base: Option<PathBuf> = data_local_dir();
        EngineConfig::default_below(base, app_name, lt_sha256, platform)
    }
}

/// Whether there is a configuration exactly where there is a directory, and then the default one.
pub open spec fn is_default_below(
    res: Option<EngineConfig>,
    base: Option<PathBuf>,
    app_name: Seq<char>,
    lt_sha256: Seq<char>,
    platform: Platform,
) -> bool {
    match (res, base) {
        (Some(config), Some(dir)) => config.is_default_for(dir, app_name, lt_sha256, platform),
        (None, None) => true,
        _ => false,
    }
}

/// Whatever the app is called, there is a default configuration wherever there is a directory for
/// its data, and it lies in that directory.
pub proof fn law_default_wherever_there_is_a_directory(
    res: Option<EngineConfig>,
    base: Option<PathBuf>,
    app_name: Seq<char>,
    lt_sha256: Seq<char>,
    platform: Platform,
)
    requires
        is_default_below(res, base, app_name, lt_sha256, platform),
    ensures
        res is Some <==> base is Some,
        res matches Some(config) ==> config.data_dir@.base == base && config.data_dir@.parts == seq![
            app_name,
            "languagetool"@,
        ] && config.lt_sha256@ == lt_sha256 && (config.jre_download_url matches Some(url)
            ==> jre_url(platform) == Some(url@)) && (config.jre_download_url is None ==> jre_url(
            platform,
        ) is None),
{
    if let Some(config) = res {
        assert(config.data_dir@.parts =~= seq![app_name, "languagetool"@]);
    }
}

/// Of two lengths of time with less than a second of nanoseconds, the longer one has more seconds,
/// or as many seconds and more nanoseconds.
pub proof fn law_span_order(a: Span, b: Span)
    requires
        a.nanos < 1_000_000_000,
        b.nanos < 1_000_000_000,
    ensures
        a.valid(),
        b.valid(),
        a.total_nanos() >= b.total_nanos() <==> (a.secs > b.secs || (a.secs == b.secs && a.nanos
            >= b.nanos)),
        a.total_nanos() == a.secs * 1_000_000_000 + a.nanos,
{
}

/// A Java runtime can be downloaded for Windows, and for macOS and Linux on either of the two
/// architectures: as a zip file for Windows alone, and a file of its own for each of the others.
pub proof fn law_jre_url_fits_platform(p: Platform, q: Platform)
    ensures
        jre_url(p) is Some <==> p.os == Os::Windows || ((p.os == Os::Macos || p.os == Os::Linux) && (
        p.arch == Arch::X86_64 || p.arch == Arch::Aarch64)),
        jre_url(p) matches Some(url) ==> (".zip"@.is_suffix_of(url) <==> p.os == Os::Windows),
        jre_url(p) matches Some(url) ==> (".tar.gz"@.is_suffix_of(url) <==> p.os != Os::Windows),
        jre_url(p) matches Some(url)
            ==> "https://github.com/adoptium/temurin17-binaries/releases/download/jdk-17.0.13%2B11/"@.is_prefix_of(
        url),
        jre_url(p) is Some && jre_url(p) == jre_url(q) ==> p.os == q.os && (p.os == Os::Windows
            || p.arch == q.arch),
{
    lemma_jre_url(p);
    lemma_jre_url(q);
}

proof fn lemma_jre_url(p: Platform)
    ensures
        jre_url(p) is Some <==> p.os == Os::Windows || ((p.os == Os::Macos || p.os == Os::Linux) && (
        p.arch == Arch::X86_64 || p.arch == Arch::Aarch64)),
        jre_url(p) matches Some(url) ==> {
            &&& (".zip"@.is_suffix_of(url) <==> p.os == Os::Windows)
            &&& (".tar.gz"@.is_suffix_of(url) <==> p.os != Os::Windows)
            &&& "https://github.com/adoptium/temurin17-binaries/releases/download/jdk-17.0.13%2B11/"@.is_prefix_of(
            url)
            &&& url.len() == 82 + (match (p.os, p.arch) {
                (Os::Macos, Arch::Aarch64) => 52int,
                (Os::Macos, _) => 48,
                (Os::Linux, Arch::Aarch64) => 54,
                (Os::Linux, _) => 50,
                _ => 49,
            })
        },
{
    let dir = "https://github.com/adoptium/temurin17-binaries/releases/download/jdk-17.0.13%2B11/"@;
    reveal_strlit(
        "https://github.com/adoptium/temurin17-binaries/releases/download/jdk-17.0.13%2B11/",
    );
    reveal_strlit(
        "https://github.com/adoptium/temurin17-binaries/releases/download/jdk-17.0.13%2B11",
    );
    reveal_strlit("/");
    reveal_strlit(".zip");
    reveal_strlit(".tar.gz");
    reveal_strlit("OpenJDK17U-jre_aarch64_mac_hotspot_17.0.13_11.tar.gz");
    reveal_strlit("OpenJDK17U-jre_x64_mac_hotspot_17.0.13_11.tar.gz");
    reveal_strlit("OpenJDK17U-jre_x64_linux_hotspot_17.0.13_11.tar.gz");
    reveal_strlit("OpenJDK17U-jre_aarch64_linux_hotspot_17.0.13_11.tar.gz");
    reveal_strlit("OpenJDK17U-jre_x64_windows_hotspot_17.0.13_11.zip");
    if let Some(url) = jre_url(p) {
        let file = jre_file(p)->0;
        let n = url.len();
        assert(jre_release() + "/"@ =~= dir);
        assert(url.take(dir.len() as int) =~= dir);
        assert(url == dir + file);
        if p.os == Os::Windows {
            assert(url.subrange(n - 4, n as int) =~= ".zip"@);
            assert(url[n - 1] == 'p');
            assert(".tar.gz"@[6] == 'z');
            if ".tar.gz"@.is_suffix_of(url) {
                assert(url.subrange(n - 7, n as int)[6] == url[n - 1]);
            }
        } else {
            assert(url.subrange(n - 7, n as int) =~= ".tar.gz"@);
            assert(url[n - 1] == 'z');
            assert(".zip"@[3] == 'p');
            if ".zip"@.is_suffix_of(url) {
                assert(url.subrange(n - 4, n as int)[3] == url[n - 1]);
            }
        }
    }
}

/// The default configuration keeps the name of the app and the digest as they are given, below the
/// directory that is given, and gives the server half a minute to start.
pub proof fn law_default_config(
    config: EngineConfig,
    base: PathBuf,
    app_name: Seq<char>,
    lt_sha256: Seq<char>,
    platform: Platform,
)
    requires
        config.is_default_for(base, app_name, lt_sha256, platform),
    ensures
        config.data_dir@.base == Some(base),
        config.data_dir@.parts.len() == 2,
        config.data_dir@.parts[0] == app_name,
        config.data_dir@.parts[1] == "languagetool"@,
        config.lt_sha256@ == lt_sha256,
        config.lt_version@ == "6.6"@,
        config.lt_download_url@ == "https://languagetool.org/download/LanguageTool-"@
            + config.lt_version@ + ".zip"@,
        config.startup_timeout.secs == 30,
        config.startup_timeout.nanos == 0,
        config.jre_sha256 is None,
{
    reveal_strlit("6.6");
    reveal_strlit(".zip");
    reveal_strlit("https://languagetool.org/download/LanguageTool-");
    reveal_strlit("https://languagetool.org/download/LanguageTool-6.6.zip");
    assert("https://languagetool.org/download/LanguageTool-6.6.zip"@
        =~= "https://languagetool.org/download/LanguageTool-"@ + "6.6"@ + ".zip"@);
}

/// A configuration keeps every value that it is given as it is, and gives the server half a minute
/// to start and the Java runtime of the platform, unverified, as a fallback.
pub proof fn law_config_keeps_values(
    config: EngineConfig,
    data_dir: InstallPath,
    lt_version: Seq<char>,
    lt_download_url: Seq<char>,
    lt_sha256: Seq<char>,
    platform: Platform,
)
    requires
        config.is_configured(data_dir, lt_version, lt_download_url, lt_sha256, platform),
    ensures
        config.data_dir@ == data_dir@,
        config.lt_version@ == lt_version,
        config.lt_download_url@ == lt_download_url,
        config.lt_sha256@ == lt_sha256,
        config.startup_timeout.secs == 30,
        config.startup_timeout.nanos == 0,
        config.jre_sha256 is None,
        config.jre_download_url matches Some(url) ==> jre_url(platform) == Some(url@),
        config.jre_download_url is Some <==> platform.os == Os::Windows || ((platform.os
            == Os::Macos || platform.os == Os::Linux) && (platform.arch == Arch::X86_64
            || platform.arch == Arch::Aarch64)),
{
    lemma_jre_url(platform);
}

} // verus!
