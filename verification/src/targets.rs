use vstd::prelude::*;
use vstd::string::StringExecFns;

use crate::transfer::SinkKind;
use crate::variant::Servers;
use crate::variant::binary_url_spec;
use crate::variant::config_url_spec;
use crate::InstallError;

verus! {

/// A named installable component, each with its own URL and extraction rule.
#[derive(Clone, Copy, Debug, PartialEq, Eq, Structural)]
pub enum Target {
    /// The game server's binary bundle; large, so downloaded to a temp file.
    ServerFiles,
    /// The game server's configuration bundle.
    ServerConfig,
    /// The admin panel, resolved through the releases API first.
    AdminPanel,
    /// The admin panel's configuration bundle.
    AdminPanelConfig,
    /// The log server, a platform-specific release asset.
    LogServer,
    /// The RCON client, a platform-specific release asset.
    RconClient,
    /// The launcher binary, written to the destination as-is.
    Launcher,
}

/// The platform family an asset is selected for.
#[derive(Clone, Copy, Debug, PartialEq, Eq, Structural)]
pub enum Platform {
    Unix,
    Windows,
}

/// The container format a downloaded body arrives in.
#[derive(Clone, Copy, Debug, PartialEq, Eq, Structural)]
pub enum Container {
    /// A zip archive.
    Zip,
    /// A gzip-compressed tar archive.
    TarGz,
    /// No container: the body is the file itself.
    Raw,
}

/// One target resolved into its linear pipeline: which URL to fetch, in what
/// container the body arrives, and how the pipeline is shaped around it.
pub struct InstallPlan {
    /// The URL to GET; for a plan with `needs_asset_lookup`, the releases-API
    /// endpoint whose first asset holds the real download URL.
    pub url: String,
    /// The container format of the downloaded body.
    pub container: Container,
    /// Whether extraction strips the first path component of every entry.
    pub strip_root: bool,
    /// Whether the body streams to a temp file on disk rather than memory.
    pub sink: SinkKind,
    /// Whether the URL is a JSON endpoint that must be queried for the
    /// asset's download URL before the real fetch.
    pub needs_asset_lookup: bool,
    /// Whether a temp file is deleted once extraction finishes.
    pub cleanup_temp: bool,
}

/// The releases-API endpoint through which the admin panel's newest asset is
/// discovered.
pub open spec fn panel_releases_api() -> Seq<char> {
    "https://api.github.com/repos/RaidMax/IW4M-Admin/releases/latest"@
}

/// The fixed third-party URL of the admin panel's configuration bundle.
pub open spec fn panel_config_url() -> Seq<char> {
    "https://cdn.discordapp.com/attachments/749611171216359474/1108504949836496996/Configuration.zip"@
}

/// The fixed direct URL of the launcher binary.
pub open spec fn launcher_url() -> Seq<char> {
    "https://cdn.plutonium.pw/updater/plutonium.exe"@
}

/// The release-download URL of a platform-specific asset, up to the platform
/// triple.
pub open spec fn asset_stem(t: Target) -> Seq<char>
    recommends
        t is LogServer || t is RconClient,
{
    if t is LogServer {
        "https://github.com/Stefanuk12/iw4m-log-server/releases/latest/download/iw4m-log-server-"@
    } else {
        "https://github.com/Stefanuk12/cod-rcon/releases/latest/download/cod-rcon-"@
    }
}

/// The target triple that names a platform's build of an asset.
pub open spec fn platform_triple(p: Platform) -> Seq<char> {
    match p {
        Platform::Unix => "x86_64-unknown-linux-gnu"@,
        Platform::Windows => "x86_64-pc-windows-msvc"@,
    }
}

/// The archive extension a platform's assets are published under.
pub open spec fn archive_ext(p: Platform) -> Seq<char> {
    match p {
        Platform::Unix => ".tar.gz"@,
        Platform::Windows => ".zip"@,
    }
}

/// The full URL of a platform-specific release asset.
pub open spec fn asset_url_spec(t: Target, p: Platform) -> Seq<char>
    recommends
        t is LogServer || t is RconClient,
{
    asset_stem(t) + platform_triple(p) + archive_ext(p)
}

/// Whether `s` ends with `suffix`.
pub open spec fn ends_with(s: Seq<char>, suffix: Seq<char>) -> bool {
    suffix.len() <= s.len() && s.subrange(s.len() - suffix.len(), s.len() as int) == suffix
}

impl Target {
    /// Whether this target's URL is derived from a product variant.
    pub open spec fn requires_variant(self) -> bool {
        self is ServerFiles || self is ServerConfig
    }

    /// The container format this target's body arrives in on a platform.
    pub open spec fn container_spec(self, p: Platform) -> Container {
        match self {
            Target::LogServer | Target::RconClient => if p is Unix {
                Container::TarGz
            } else {
                Container::Zip
            },
            Target::Launcher => Container::Raw,
            _ => Container::Zip,
        }
    }

    /// Whether extraction strips the leading path component: every zip in
    /// this system is wrapped in one top-level folder; the tar assets are
    /// not, and a raw body has no entries at all.
    pub open spec fn strip_spec(self, p: Platform) -> bool {
        self.container_spec(p) is Zip
    }

    /// Where this target's body streams to: the server files are too large
    /// to buffer, everything else stays in memory.
    pub open spec fn sink_spec(self) -> SinkKind {
        if self is ServerFiles {
            SinkKind::Disk
        } else {
            SinkKind::Memory
        }
    }

    /// The URL this target fetches first, given the variant and platform.
    pub open spec fn url_spec(self, v: Option<Servers>, p: Platform) -> Seq<char>
        recommends
            self.requires_variant() ==> v is Some,
    {
        match self {
            Target::ServerFiles => match v {
                Some(s) => binary_url_spec(s),
                None => Seq::empty(),
            },
            Target::ServerConfig => match v {
                Some(s) => config_url_spec(s),
                None => Seq::empty(),
            },
            Target::AdminPanel => panel_releases_api(),
            Target::AdminPanelConfig => panel_config_url(),
            Target::LogServer => asset_url_spec(self, p),
            Target::RconClient => asset_url_spec(self, p),
            Target::Launcher => launcher_url(),
        }
    }
}

/// The URL of a platform-specific release asset.
pub fn asset_url(t: Target, p: Platform) -> (r: String)
    requires
        t is LogServer || t is RconClient,
    ensures
        r@ == asset_url_spec(t, p),
{
    let stem = match t {
        Target::LogServer => "https://github.com/Stefanuk12/iw4m-log-server/releases/latest/download/iw4m-log-server-",
        _ => "https://github.com/Stefanuk12/cod-rcon/releases/latest/download/cod-rcon-",
    };
    let mut u = String::from_str(stem);
    match p {
        Platform::Unix => {
            u.append("x86_64-unknown-linux-gnu");
            u.append(".tar.gz");
        },
        Platform::Windows => {
            u.append("x86_64-pc-windows-msvc");
            u.append(".zip");
        },
    }
    u
}

/// Whether a request asks for the binary bundle of a variant that publishes
/// none.
pub open spec fn asks_missing_bundle(target: Target, variant: Option<Servers>) -> bool {
    target is ServerFiles && match variant {
        Some(s) => !s.has_binary_bundle(),
        None => false,
    }
}

/// Resolves one install request to its pipeline. Purely a lookup over the
/// target catalog: no network activity stands behind it, so a request that
/// lacks its required variant fails here, before anything is fetched. The
/// two variant-derived targets fail without a variant; server files further
/// fail on a variant that publishes no binary bundle.
pub fn plan(target: Target, variant: Option<Servers>, platform: Platform) -> (r: Result<
    InstallPlan,
    InstallError,
>)
    ensures
        r is Err <==> (target.requires_variant() && variant is None) || asks_missing_bundle(
            target,
            variant,
        ),
        target.requires_variant() && variant is None ==> r == Err::<InstallPlan, InstallError>(
            InstallError::MissingVariant,
        ),
        asks_missing_bundle(target, variant) ==> r == Err::<InstallPlan, InstallError>(
            InstallError::NoBinaryBundle,
        ),
        r matches Ok(pl) ==> {
            &&& pl.url@ == target.url_spec(variant, platform)
            &&& pl.container == target.container_spec(platform)
            &&& pl.strip_root == target.strip_spec(platform)
            &&& pl.sink == target.sink_spec()
            &&& pl.needs_asset_lookup == (target is AdminPanel)
            &&& pl.cleanup_temp == (target is ServerFiles)
        },
{
    match target {
        Target::ServerFiles => {
            let s = match variant {
                Some(s) => s,
                None => {
                    return Err(InstallError::MissingVariant);
                },
            };
            let url = match s.download_link() {
                Some(u) => u,
                None => {
                    return Err(InstallError::NoBinaryBundle);
                },
            };
            Ok(InstallPlan {
                url,
                container: Container::Zip,
                strip_root: true,
                sink: SinkKind::Disk,
                needs_asset_lookup: false,
                cleanup_temp: true,
            })
        },
        Target::ServerConfig => {
            let s = match variant {
                Some(s) => s,
                None => {
                    return Err(InstallError::MissingVariant);
                },
            };
            Ok(InstallPlan {
                url: s.download_link_config(),
                container: Container::Zip,
                strip_root: true,
                sink: SinkKind::Memory,
                needs_asset_lookup: false,
                cleanup_temp: false,
            })
        },
        Target::AdminPanel => Ok(InstallPlan {
            url: String::from_str("https://api.github.com/repos/RaidMax/IW4M-Admin/releases/latest"),
            container: Container::Zip,
            strip_root: true,
            sink: SinkKind::Memory,
            needs_asset_lookup: true,
            cleanup_temp: false,
        }),
        Target::AdminPanelConfig => Ok(InstallPlan {
            url: String::from_str(
                "https://cdn.discordapp.com/attachments/749611171216359474/1108504949836496996/Configuration.zip",
            ),
            container: Container::Zip,
            strip_root: true,
            sink: SinkKind::Memory,
            needs_asset_lookup: false,
            cleanup_temp: false,
        }),
        Target::LogServer => Ok(InstallPlan {
            url: asset_url(target, platform),
            container: match platform {
                Platform::Unix => Container::TarGz,
                Platform::Windows => Container::Zip,
            },
            strip_root: match platform {
                Platform::Unix => false,
                Platform::Windows => true,
            },
            sink: SinkKind::Memory,
            needs_asset_lookup: false,
            cleanup_temp: false,
        }),
        Target::RconClient => Ok(InstallPlan {
            url: asset_url(target, platform),
            container: match platform {
                Platform::Unix => Container::TarGz,
                Platform::Windows => Container::Zip,
            },
            strip_root: match platform {
                Platform::Unix => false,
                Platform::Windows => true,
            },
            sink: SinkKind::Memory,
            needs_asset_lookup: false,
            cleanup_temp: false,
        }),
        Target::Launcher => Ok(InstallPlan {
            url: String::from_str("https://cdn.plutonium.pw/updater/plutonium.exe"),
            container: Container::Raw,
            strip_root: false,
            sink: SinkKind::Memory,
            needs_asset_lookup: false,
            cleanup_temp: false,
        }),
    }
}

/// Picks the download URL out of a releases-API response's asset list: the
/// newest release's first asset, which must exist.
pub fn select_asset(urls: &Vec<String>) -> (r: Result<String, InstallError>)
    ensures
        r is Ok <==> urls@.len() > 0,
        r matches Ok(u) ==> u@ == urls@[0]@,
        r matches Err(e) ==> e == InstallError::NoAssets,
{
    if urls.len() == 0 {
        Err(InstallError::NoAssets)
    } else {
        Ok(urls[0].clone())
    }
}

/// The fixed identifying user-agent sent with every request.
pub fn user_agent() -> (r: &'static str)
    ensures
        r@ == "plutonium-manager"@,
{
    "plutonium-manager"
}

/// The transfer encodings every request declares it accepts.
pub fn accept_encoding() -> (r: &'static str)
    ensures
        r@ == "compress, deflate, gzip"@,
{
    "compress, deflate, gzip"
}

/// The temp file the server-files bundle streams to before extraction, and
/// that is deleted once extraction finishes.
pub fn temp_archive_path() -> (r: &'static str)
    ensures
        r@ == "./server_files.zip"@,
{
    "./server_files.zip"
}

/// Law: platform dispatch for the platform-specific assets. On a unix-like
/// platform the log server and the RCON client fetch the `.tar.gz` asset as
/// a gzip-compressed tar; on a windows-like platform the `.zip` asset as a
/// zip archive; the two URLs differ, so no platform ever requests both.
pub proof fn lemma_platform_dispatch(t: Target)
    requires
        t is LogServer || t is RconClient,
    ensures
        ends_with(asset_url_spec(t, Platform::Unix), ".tar.gz"@),
        ends_with(asset_url_spec(t, Platform::Windows), ".zip"@),
        t.container_spec(Platform::Unix) is TarGz,
        t.container_spec(Platform::Windows) is Zip,
        asset_url_spec(t, Platform::Unix) != asset_url_spec(t, Platform::Windows),
{
    reveal_strlit(".tar.gz");
    reveal_strlit(".zip");
    reveal_strlit("x86_64-unknown-linux-gnu");
    reveal_strlit("x86_64-pc-windows-msvc");
    let u = asset_url_spec(t, Platform::Unix);
    let w = asset_url_spec(t, Platform::Windows);
    assert(u.subrange(u.len() - 7, u.len() as int) =~= ".tar.gz"@);
    assert(w.subrange(w.len() - 4, w.len() as int) =~= ".zip"@);
    assert(u.len() != w.len());
}

} // verus!
