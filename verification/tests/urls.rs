use plutonium_manager::targets::plan;
use plutonium_manager::targets::select_asset;
use plutonium_manager::targets::user_agent;
use plutonium_manager::targets::accept_encoding;
use plutonium_manager::targets::temp_archive_path;
use plutonium_manager::targets::Container;
use plutonium_manager::targets::Platform;
use plutonium_manager::targets::Target;
use plutonium_manager::transfer::SinkKind;
use plutonium_manager::variant::Servers;
use plutonium_manager::InstallError;

#[test]
fn config_urls_substitute_each_variant_name() {
    assert_eq!(
        Servers::T6.download_link_config(),
        "https://api.github.com/repos/xerxes-at/T6ServerConfigs/zipball/master"
    );
    assert_eq!(
        Servers::T5.download_link_config(),
        "https://api.github.com/repos/xerxes-at/T5ServerConfigs/zipball/master"
    );
    assert_eq!(
        Servers::T4.download_link_config(),
        "https://api.github.com/repos/xerxes-at/T4ServerConfigs/zipball/master"
    );
    assert_eq!(
        Servers::IW5.download_link_config(),
        "https://api.github.com/repos/xerxes-at/IW5ServerConfigs/zipball/master"
    );
}

#[test]
fn variant_names() {
    assert_eq!(Servers::T6.name(), "T6");
    assert_eq!(Servers::T5.name(), "T5");
    assert_eq!(Servers::T4.name(), "T4");
    assert_eq!(Servers::IW5.name(), "IW5");
}

#[test]
fn binary_links_carry_the_file_host_id() {
    assert_eq!(
        Servers::T6.download_link().unwrap(),
        "https://drive.google.com/uc?export=download&id=1RCqhm_1oMEDSk-VoeQy_tWTE-9jZ6Exd&confirm=t"
    );
    assert_eq!(
        Servers::T5.download_link().unwrap(),
        "https://drive.google.com/uc?export=download&id=1bDArK1W2kVse753C0Ht_n0hRYiaQ8ZfE&confirm=t"
    );
    assert_eq!(
        Servers::T4.download_link().unwrap(),
        "https://drive.google.com/uc?export=download&id=1AqTkGMXj2B2UTnm6hg_WFfQLVxXJDn3K&confirm=t"
    );
}

#[test]
fn no_binary_link_for_iw5() {
    assert!(Servers::IW5.download_link().is_none());
}

#[test]
fn server_files_without_variant_fails_before_any_fetch() {
    let r = plan(Target::ServerFiles, None, Platform::Unix);
    assert_eq!(r.err(), Some(InstallError::MissingVariant));
}

#[test]
fn server_config_without_variant_fails_before_any_fetch() {
    let r = plan(Target::ServerConfig, None, Platform::Unix);
    assert_eq!(r.err(), Some(InstallError::MissingVariant));
}

#[test]
fn server_files_for_iw5_reports_the_missing_bundle() {
    let r = plan(Target::ServerFiles, Some(Servers::IW5), Platform::Unix);
    assert_eq!(r.err(), Some(InstallError::NoBinaryBundle));
}

#[test]
fn server_files_plan_streams_to_a_temp_file() {
    let p = plan(Target::ServerFiles, Some(Servers::T6), Platform::Unix).unwrap();
    assert_eq!(
        p.url,
        "https://drive.google.com/uc?export=download&id=1RCqhm_1oMEDSk-VoeQy_tWTE-9jZ6Exd&confirm=t"
    );
    assert_eq!(p.container, Container::Zip);
    assert!(p.strip_root);
    assert_eq!(p.sink, SinkKind::Disk);
    assert!(!p.needs_asset_lookup);
    assert!(p.cleanup_temp);
}

#[test]
fn server_config_plan_is_an_in_memory_zip() {
    let p = plan(Target::ServerConfig, Some(Servers::T4), Platform::Windows).unwrap();
    assert_eq!(
        p.url,
        "https://api.github.com/repos/xerxes-at/T4ServerConfigs/zipball/master"
    );
    assert_eq!(p.container, Container::Zip);
    assert!(p.strip_root);
    assert_eq!(p.sink, SinkKind::Memory);
    assert!(!p.needs_asset_lookup);
    assert!(!p.cleanup_temp);
}

#[test]
fn admin_panel_plan_goes_through_the_releases_api() {
    let p = plan(Target::AdminPanel, None, Platform::Unix).unwrap();
    assert_eq!(
        p.url,
        "https://api.github.com/repos/RaidMax/IW4M-Admin/releases/latest"
    );
    assert!(p.needs_asset_lookup);
    assert_eq!(p.container, Container::Zip);
    assert!(p.strip_root);
    assert_eq!(p.sink, SinkKind::Memory);
}

#[test]
fn admin_panel_config_plan_is_the_fixed_bundle() {
    let p = plan(Target::AdminPanelConfig, None, Platform::Unix).unwrap();
    assert_eq!(
        p.url,
        "https://cdn.discordapp.com/attachments/749611171216359474/1108504949836496996/Configuration.zip"
    );
    assert_eq!(p.container, Container::Zip);
    assert!(!p.needs_asset_lookup);
}

#[test]
fn launcher_plan_is_a_raw_write() {
    let p = plan(Target::Launcher, None, Platform::Windows).unwrap();
    assert_eq!(p.url, "https://cdn.plutonium.pw/updater/plutonium.exe");
    assert_eq!(p.container, Container::Raw);
    assert!(!p.strip_root);
    assert_eq!(p.sink, SinkKind::Memory);
}

#[test]
fn unix_assets_are_tarballs() {
    let log = plan(Target::LogServer, None, Platform::Unix).unwrap();
    assert_eq!(
        log.url,
        "https://github.com/Stefanuk12/iw4m-log-server/releases/latest/download/iw4m-log-server-x86_64-unknown-linux-gnu.tar.gz"
    );
    assert_eq!(log.container, Container::TarGz);
    assert!(!log.strip_root);
    let rcon = plan(Target::RconClient, None, Platform::Unix).unwrap();
    assert_eq!(
        rcon.url,
        "https://github.com/Stefanuk12/cod-rcon/releases/latest/download/cod-rcon-x86_64-unknown-linux-gnu.tar.gz"
    );
    assert_eq!(rcon.container, Container::TarGz);
}

#[test]
fn windows_assets_are_zips() {
    let log = plan(Target::LogServer, None, Platform::Windows).unwrap();
    assert_eq!(
        log.url,
        "https://github.com/Stefanuk12/iw4m-log-server/releases/latest/download/iw4m-log-server-x86_64-pc-windows-msvc.zip"
    );
    assert_eq!(log.container, Container::Zip);
    assert!(log.strip_root);
    let rcon = plan(Target::RconClient, None, Platform::Windows).unwrap();
    assert_eq!(
        rcon.url,
        "https://github.com/Stefanuk12/cod-rcon/releases/latest/download/cod-rcon-x86_64-pc-windows-msvc.zip"
    );
    assert_eq!(rcon.container, Container::Zip);
}

#[test]
fn no_platform_requests_both_assets() {
    for t in [Target::LogServer, Target::RconClient] {
        let unix = plan(t, None, Platform::Unix).unwrap().url;
        let win = plan(t, None, Platform::Windows).unwrap().url;
        assert_ne!(unix, win);
        assert!(unix.ends_with(".tar.gz"));
        assert!(win.ends_with(".zip"));
        assert!(!unix.ends_with(".zip"));
        assert!(!win.ends_with(".tar.gz"));
    }
}

#[test]
fn first_asset_is_selected() {
    let urls = vec![
        String::from("https://example.invalid/one.zip"),
        String::from("https://example.invalid/two.zip"),
    ];
    assert_eq!(
        select_asset(&urls).unwrap(),
        "https://example.invalid/one.zip"
    );
}

#[test]
fn empty_asset_list_is_an_error() {
    let urls: Vec<String> = Vec::new();
    assert_eq!(select_asset(&urls).err(), Some(InstallError::NoAssets));
}

#[test]
fn fixed_request_values() {
    assert_eq!(user_agent(), "plutonium-manager");
    assert_eq!(accept_encoding(), "compress, deflate, gzip");
    assert_eq!(temp_archive_path(), "./server_files.zip");
}

#[test]
fn error_descriptions() {
    assert_eq!(InstallError::MissingVariant.describe(), "specify the engine");
    assert_eq!(
        InstallError::NoBinaryBundle.describe(),
        "download link not implemented for this game type"
    );
    assert_eq!(
        InstallError::MissingContentLength.describe(),
        "failed to get content length"
    );
    assert_eq!(InstallError::BadArchive.describe(), "unable to extract archive");
    assert_eq!(
        InstallError::NoAssets.describe(),
        "release lists no downloadable assets"
    );
}
