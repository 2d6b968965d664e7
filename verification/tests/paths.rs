use fluxer_desktop_dev::bundle::bundle_paths;
use fluxer_desktop_dev::paths::desktop_dir;
use fluxer_desktop_dev::paths::dev_electron_app_bundle_path;
use fluxer_desktop_dev::paths::dev_electron_binary_path;
use fluxer_desktop_dev::paths::dev_electron_framework_link_path;
use fluxer_desktop_dev::paths::dev_electron_framework_path;
use fluxer_desktop_dev::paths::join_path;
use fluxer_desktop_dev::replay::BundlePaths;
use std::path::Path;

const DIST: &str = "/work/fluxer/fluxer_desktop/node_modules/electron/dist";

#[test]
fn joining_agrees_with_the_standard_library() {
    for base in ["", "/", "a", "a/", "/work/fluxer", "/work/fluxer/", "a//", "."] {
        for part in ["", "b", "b/c", "/abs", "b/", "./b", "Electron Framework.framework"] {
            let want = Path::new(base).join(part);
            assert_eq!(join_path(base, part), want.to_str().unwrap());
        }
    }
}

#[test]
fn a_part_goes_below_the_last_components() {
    assert_eq!(join_path("/work/fluxer", "a/b"), "/work/fluxer/a/b");
    assert!(Path::new(&join_path("/work/fluxer", "a/b")).ends_with("fluxer/a/b"));
}

#[test]
fn the_desktop_package_lies_in_the_root() {
    assert_eq!(desktop_dir("/work/fluxer"), "/work/fluxer/fluxer_desktop");
    assert_eq!(desktop_dir("/work/fluxer/"), "/work/fluxer/fluxer_desktop");
    assert_eq!(desktop_dir(""), "fluxer_desktop");
}

#[test]
fn the_bundle_and_its_executable_lie_in_the_distribution() {
    assert_eq!(
        dev_electron_app_bundle_path("/work/fluxer"),
        format!("{DIST}/Electron.app")
    );
    assert_eq!(
        dev_electron_binary_path("/work/fluxer"),
        format!("{DIST}/Electron.app/Contents/MacOS/Electron")
    );
}

#[test]
fn links_lie_in_the_framework() {
    let framework = format!("{DIST}/Electron.app/Contents/Frameworks/Electron Framework.framework");
    assert_eq!(dev_electron_framework_path("/work/fluxer"), framework);
    assert_eq!(
        dev_electron_framework_link_path("/work/fluxer", "Helpers"),
        format!("{framework}/Helpers")
    );
}

#[test]
fn the_bundle_is_looked_at_in_seven_places() {
    let contents = format!("{DIST}/Electron.app/Contents");
    let framework = format!("{contents}/Frameworks/Electron Framework.framework");
    assert_eq!(
        bundle_paths("/work/fluxer"),
        BundlePaths {
            info_plist: format!("{contents}/Info.plist"),
            binary: format!("{contents}/MacOS/Electron"),
            versions: format!("{framework}/Versions/Current"),
            framework: format!("{framework}/Electron Framework"),
            helpers: format!("{framework}/Helpers"),
            libraries: format!("{framework}/Libraries"),
            resources: format!("{framework}/Resources"),
        }
    );
}
