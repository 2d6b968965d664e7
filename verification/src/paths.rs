//! Where the desktop package and its development Electron live, as `/`-separated paths.

use vstd::prelude::*;
use vstd::string::StrSliceExecFns;
use vstd::string::StringExecFns;

verus! {

/// The directory of the desktop package below the workspace root.
pub const DESKTOP_DIR_NAME: &'static str = "fluxer_desktop";

/// `part` as seen from `base`: an absolute `part` replaces `base`, any other is put below it.
pub open spec fn joined_path(base: Seq<char>, part: Seq<char>) -> Seq<char> {
    if part.len() > 0 && part[0] == '/' {
        part
    } else if base.len() == 0 || base.last() == '/' {
        base + part
    } else {
        base.push('/') + part
    }
}

/// Puts `part` below `base`, or takes `part` alone where it is absolute.
pub fn join_path(base: &str, part: &str) -> (res: String)
    ensures
        res@ == joined_path(base@, part@),
{
    if part.unicode_len() > 0 && part.get_char(0) == '/' {
        return part.to_owned();
    }
    let len: usize = base.unicode_len();
    let mut res = base.to_owned();
    if len > 0 && base.get_char(len - 1) != '/' {
        proof {
            reveal_strlit("/");
        }
        res.append("/");
        assert(res@ =~= base@.push('/'));
    }
    res.append(part);
    res
}

/// The path of the desktop package.
pub open spec fn desktop_dir_view(root: Seq<char>) -> Seq<char> {
    joined_path(root, DESKTOP_DIR_NAME@)
}

/// The directory of the desktop package.
pub fn desktop_dir(root: &str) -> (res: String)
    ensures
        res@ == desktop_dir_view(root@),
{
    join_path(root, DESKTOP_DIR_NAME)
}

/// The path of the distribution.
pub open spec fn dev_electron_dist_view(root: Seq<char>) -> Seq<char> {
    joined_path(desktop_dir_view(root), "node_modules/electron/dist"@)
}

/// The directory into which the `electron` package unpacks its distribution.
pub fn dev_electron_dist_path(root: &str) -> (res: String)
    ensures
        res@ == dev_electron_dist_view(root@),
{
    join_path(desktop_dir(root).as_str(), "node_modules/electron/dist")
}

/// The path of the distribution's application bundle.
pub open spec fn dev_electron_app_bundle_view(root: Seq<char>) -> Seq<char> {
    joined_path(dev_electron_dist_view(root), "Electron.app"@)
}

/// The macOS application bundle of the development Electron.
pub fn dev_electron_app_bundle_path(root: &str) -> (res: String)
    ensures
        res@ == dev_electron_app_bundle_view(root@),
{
    join_path(dev_electron_dist_path(root).as_str(), "Electron.app")
}

/// The path of the bundle's property list.
pub open spec fn dev_electron_info_plist_view(root: Seq<char>) -> Seq<char> {
    joined_path(dev_electron_app_bundle_view(root), "Contents/Info.plist"@)
}

/// The property list of the bundle.
pub fn dev_electron_info_plist_path(root: &str) -> (res: String)
    ensures
        res@ == dev_electron_info_plist_view(root@),
{
    join_path(dev_electron_app_bundle_path(root).as_str(), "Contents/Info.plist")
}

/// The path of the bundle's executable.
pub open spec fn dev_electron_binary_view(root: Seq<char>) -> Seq<char> {
    joined_path(dev_electron_app_bundle_view(root), "Contents/MacOS/Electron"@)
}

/// The executable of the bundle.
pub fn dev_electron_binary_path(root: &str) -> (res: String)
    ensures
        res@ == dev_electron_binary_view(root@),
{
    join_path(dev_electron_app_bundle_path(root).as_str(), "Contents/MacOS/Electron")
}

/// The path of the script that unpacks the distribution.
pub open spec fn dev_electron_install_script_view(root: Seq<char>) -> Seq<char> {
    joined_path(desktop_dir_view(root), "node_modules/electron/install.js"@)
}

/// The script with which the `electron` package downloads its distribution.
pub fn dev_electron_install_script_path(root: &str) -> (res: String)
    ensures
        res@ == dev_electron_install_script_view(root@),
{
    join_path(desktop_dir(root).as_str(), "node_modules/electron/install.js")
}

/// The path of the bundle's Electron framework.
pub open spec fn dev_electron_framework_view(root: Seq<char>) -> Seq<char> {
    joined_path(
        dev_electron_app_bundle_view(root),
        "Contents/Frameworks/Electron Framework.framework"@,
    )
}

/// The Electron framework inside the bundle.
pub fn dev_electron_framework_path(root: &str) -> (res: String)
    ensures
        res@ == dev_electron_framework_view(root@),
{
    join_path(
        dev_electron_app_bundle_path(root).as_str(),
        "Contents/Frameworks/Electron Framework.framework",
    )
}

/// The path of the link to the framework's current version.
pub open spec fn dev_electron_framework_versions_view(root: Seq<char>) -> Seq<char> {
    joined_path(dev_electron_framework_view(root), "Versions/Current"@)
}

/// The link to the framework's current version.
pub fn dev_electron_framework_versions_path(root: &str) -> (res: String)
    ensures
        res@ == dev_electron_framework_versions_view(root@),
{
    join_path(dev_electron_framework_path(root).as_str(), "Versions/Current")
}

/// The path of the link called `name` at the top of the framework.
pub open spec fn dev_electron_framework_link_view(root: Seq<char>, name: Seq<char>) -> Seq<char> {
    joined_path(dev_electron_framework_view(root), name)
}

/// The link called `name` at the top of the framework.
pub fn dev_electron_framework_link_path(root: &str, name: &str) -> (res: String)
    ensures
        res@ == dev_electron_framework_link_view(root@, name@),
{
    join_path(dev_electron_framework_path(root).as_str(), name)
}

/// Whether `path` ends with the whole components of `suffix`.
pub open spec fn ends_with_components(path: Seq<char>, suffix: Seq<char>) -> bool {
    ||| path == suffix
    ||| {
        let rest = path.len() - suffix.len();
        &&& rest > 0
        &&& path[rest - 1] == '/'
        &&& path.skip(rest) == suffix
    }
}

/// Putting a relative, non-empty `part` below a path puts it below that path's last components.
pub proof fn law_join_extends_components(base: Seq<char>, suffix: Seq<char>, part: Seq<char>)
    requires
        ends_with_components(base, suffix),
        suffix.len() > 0,
        suffix.last() != '/',
        part.len() > 0,
        part[0] != '/',
    ensures
        ends_with_components(joined_path(base, part), suffix.push('/') + part),
        joined_path(base, part).last() == part.last(),
{
    let whole = joined_path(base, part);
    let rest = base.len() - suffix.len();
    if base != suffix {
        assert(base.last() == base.skip(rest).last());
        assert(whole.skip(rest) =~= suffix.push('/') + part);
    }
}

/// Whatever the workspace root is, the desktop package is the root's `fluxer_desktop`.
pub proof fn law_desktop_dir_is_the_desktop_package(root: Seq<char>)
    ensures
        ends_with_components(desktop_dir_view(root), "fluxer_desktop"@),
{
    reveal_strlit("fluxer_desktop");
    let whole = desktop_dir_view(root);
    assert(whole.skip(whole.len() - DESKTOP_DIR_NAME@.len()) =~= DESKTOP_DIR_NAME@);
}

/// Whatever the workspace root is, the distribution and the install script of the development
/// Electron belong to the `electron` package of the desktop package.
pub proof fn law_electron_package_paths(root: Seq<char>)
    ensures
        ends_with_components(
            dev_electron_dist_view(root),
            "fluxer_desktop/node_modules/electron/dist"@,
        ),
        ends_with_components(
            dev_electron_install_script_view(root),
            "fluxer_desktop/node_modules/electron/install.js"@,
        ),
{
    reveal_strlit("fluxer_desktop");
    reveal_strlit("node_modules/electron/dist");
    reveal_strlit("node_modules/electron/install.js");
    reveal_strlit("fluxer_desktop/node_modules/electron/dist");
    reveal_strlit("fluxer_desktop/node_modules/electron/install.js");
    law_desktop_dir_is_the_desktop_package(root);
    law_join_extends_components(
        desktop_dir_view(root),
        "fluxer_desktop"@,
        "node_modules/electron/dist"@,
    );
    law_join_extends_components(
        desktop_dir_view(root),
        "fluxer_desktop"@,
        "node_modules/electron/install.js"@,
    );
    assert("fluxer_desktop"@.push('/') + "node_modules/electron/dist"@
        =~= "fluxer_desktop/node_modules/electron/dist"@);
    assert("fluxer_desktop"@.push('/') + "node_modules/electron/install.js"@
        =~= "fluxer_desktop/node_modules/electron/install.js"@);
}

/// Whatever the workspace root is, the property list and the executable lie inside the
/// distribution's `Electron.app`.
pub proof fn law_bundle_paths(root: Seq<char>)
    ensures
        ends_with_components(
            dev_electron_app_bundle_view(root),
            "fluxer_desktop/node_modules/electron/dist/Electron.app"@,
        ),
        ends_with_components(
            dev_electron_info_plist_view(root),
            "fluxer_desktop/node_modules/electron/dist/Electron.app/Contents/Info.plist"@,
        ),
        ends_with_components(
            dev_electron_binary_view(root),
            "fluxer_desktop/node_modules/electron/dist/Electron.app/Contents/MacOS/Electron"@,
        ),
{
    let dist = "fluxer_desktop/node_modules/electron/dist"@;
    let app = "fluxer_desktop/node_modules/electron/dist/Electron.app"@;
    reveal_strlit("fluxer_desktop/node_modules/electron/dist");
    reveal_strlit("Electron.app");
    reveal_strlit("fluxer_desktop/node_modules/electron/dist/Electron.app");
    reveal_strlit("Contents/Info.plist");
    reveal_strlit("Contents/MacOS/Electron");
    reveal_strlit("fluxer_desktop/node_modules/electron/dist/Electron.app/Contents/Info.plist");
    reveal_strlit("fluxer_desktop/node_modules/electron/dist/Electron.app/Contents/MacOS/Electron");
    law_electron_package_paths(root);
    law_join_extends_components(dev_electron_dist_view(root), dist, "Electron.app"@);
    assert(dist.push('/') + "Electron.app"@ =~= app);
    let bundle = dev_electron_app_bundle_view(root);
    law_join_extends_components(bundle, app, "Contents/Info.plist"@);
    law_join_extends_components(bundle, app, "Contents/MacOS/Electron"@);
    assert(app.push('/') + "Contents/Info.plist"@
        =~= "fluxer_desktop/node_modules/electron/dist/Electron.app/Contents/Info.plist"@);
    assert(app.push('/') + "Contents/MacOS/Electron"@
        =~= "fluxer_desktop/node_modules/electron/dist/Electron.app/Contents/MacOS/Electron"@);
}

/// The tail of the framework's path, for every workspace root.
pub open spec fn framework_tail() -> Seq<char> {
    "fluxer_desktop/node_modules/electron/dist/Electron.app"@.push('/')
        + "Contents/Frameworks/Electron Framework.framework"@
}

/// Whatever the workspace root is, the version link and every named link lie inside the Electron
/// framework of the distribution's `Electron.app`.
pub proof fn law_framework_paths(root: Seq<char>, name: Seq<char>)
    requires
        name.len() > 0,
        name[0] != '/',
    ensures
        ends_with_components(dev_electron_framework_view(root), framework_tail()),
        ends_with_components(
            dev_electron_framework_versions_view(root),
            framework_tail().push('/') + "Versions/Current"@,
        ),
        ends_with_components(
            dev_electron_framework_link_view(root, name),
            framework_tail().push('/') + name,
        ),
{
    let app = "fluxer_desktop/node_modules/electron/dist/Electron.app"@;
    reveal_strlit("fluxer_desktop/node_modules/electron/dist/Electron.app");
    reveal_strlit("Contents/Frameworks/Electron Framework.framework");
    reveal_strlit("Versions/Current");
    law_bundle_paths(root);
    law_join_extends_components(
        dev_electron_app_bundle_view(root),
        app,
        "Contents/Frameworks/Electron Framework.framework"@,
    );
    law_join_extends_components(
        dev_electron_framework_view(root),
        framework_tail(),
        "Versions/Current"@,
    );
    law_join_extends_components(dev_electron_framework_view(root), framework_tail(), name);
}

/// A relative part comes behind the base, with a slash between them where the base is not empty and
/// has none at its end; an absolute part stands alone.
pub proof fn law_join(base: Seq<char>, part: Seq<char>)
    ensures
        part.len() > 0 && part[0] == '/' ==> joined_path(base, part) == part,
        !(part.len() > 0 && part[0] == '/') ==> {
            &&& base.is_prefix_of(joined_path(base, part))
            &&& part.is_suffix_of(joined_path(base, part))
            &&& base.len() == 0 || base.last() == '/' ==> joined_path(base, part).len()
                == base.len() + part.len()
            &&& base.len() > 0 && base.last() != '/' ==> joined_path(base, part).len()
                == base.len() + 1 + part.len() && joined_path(base, part)[base.len() as int] == '/'
        },
{
    let whole = joined_path(base, part);
    if !(part.len() > 0 && part[0] == '/') {
        assert(whole.subrange(whole.len() - part.len(), whole.len() as int) =~= part);
    }
}

/// Every path lies below the workspace root, at the place that the `electron` package gives it.
pub proof fn law_paths_below_the_root(root: Seq<char>, below: Seq<char>, name: Seq<char>)
    requires
        root.len() == 0 || root.last() == '/' ==> below == root,
        root.len() > 0 && root.last() != '/' ==> below == root.push('/'),
    ensures
        desktop_dir_view(root) == below + "fluxer_desktop"@,
        dev_electron_install_script_view(root) == below
            + "fluxer_desktop/node_modules/electron/install.js"@,
        dev_electron_dist_view(root) == below + "fluxer_desktop/node_modules/electron/dist"@,
        dev_electron_app_bundle_view(root) == below
            + "fluxer_desktop/node_modules/electron/dist/Electron.app"@,
        dev_electron_info_plist_view(root) == below
            + "fluxer_desktop/node_modules/electron/dist/Electron.app/Contents/Info.plist"@,
        dev_electron_binary_view(root) == below
            + "fluxer_desktop/node_modules/electron/dist/Electron.app/Contents/MacOS/Electron"@,
        dev_electron_framework_view(root) == below
            + "fluxer_desktop/node_modules/electron/dist/Electron.app"@
            + "/Contents/Frameworks/Electron Framework.framework"@,
        dev_electron_framework_versions_view(root) == dev_electron_framework_view(root)
            + "/Versions/Current"@,
        !(name.len() > 0 && name[0] == '/') ==> dev_electron_framework_link_view(root, name)
            == dev_electron_framework_view(root) + "/"@ + name,
{
    reveal_strlit("/");
    reveal_strlit("fluxer_desktop");
    reveal_strlit("node_modules/electron/install.js");
    reveal_strlit("fluxer_desktop/node_modules/electron/install.js");
    reveal_strlit("node_modules/electron/dist");
    reveal_strlit("fluxer_desktop/node_modules/electron/dist");
    reveal_strlit("Electron.app");
    reveal_strlit("fluxer_desktop/node_modules/electron/dist/Electron.app");
    reveal_strlit("Contents/Info.plist");
    reveal_strlit("fluxer_desktop/node_modules/electron/dist/Electron.app/Contents/Info.plist");
    reveal_strlit("Contents/MacOS/Electron");
    reveal_strlit("fluxer_desktop/node_modules/electron/dist/Electron.app/Contents/MacOS/Electron");
    reveal_strlit("Contents/Frameworks/Electron Framework.framework");
    reveal_strlit("/Contents/Frameworks/Electron Framework.framework");
    reveal_strlit("Versions/Current");
    reveal_strlit("/Versions/Current");
    assert(desktop_dir_view(root) =~= below + "fluxer_desktop"@);
    assert(dev_electron_install_script_view(root) =~= below
        + "fluxer_desktop/node_modules/electron/install.js"@);
    assert(dev_electron_dist_view(root) =~= below + "fluxer_desktop/node_modules/electron/dist"@);
    assert(dev_electron_app_bundle_view(root) =~= below
        + "fluxer_desktop/node_modules/electron/dist/Electron.app"@);
    assert(dev_electron_info_plist_view(root) =~= below
        + "fluxer_desktop/node_modules/electron/dist/Electron.app/Contents/Info.plist"@);
    assert(dev_electron_binary_view(root) =~= below
        + "fluxer_desktop/node_modules/electron/dist/Electron.app/Contents/MacOS/Electron"@);
    assert(dev_electron_framework_view(root) =~= below
        + "fluxer_desktop/node_modules/electron/dist/Electron.app"@
        + "/Contents/Frameworks/Electron Framework.framework"@);
    assert(dev_electron_framework_versions_view(root) =~= dev_electron_framework_view(root)
        + "/Versions/Current"@);
    if !(name.len() > 0 && name[0] == '/') {
        assert(dev_electron_framework_link_view(root, name) =~= dev_electron_framework_view(root)
            + "/"@ + name);
    }
}

} // verus!
