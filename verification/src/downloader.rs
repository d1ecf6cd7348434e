//! Installing the sing-box core: where it goes and which release asset to fetch.
use vstd::prelude::*;
use vstd::string::StringExecFns;
use crate::doc::{
    as_str, get, get_list, get_spec, json_document, opt_list, opt_str, parse_json, DocValue,
    DocView,
};
use crate::text::{chars_of, push_char, ends_with_chars, ends_with_spec, str_ends_with};

verus! {

/// The GitHub API URL of the latest sing-box release.
pub const SINGBOX_RELEASE_API: &'static str = "https://api.github.com/repos/SagerNet/sing-box/releases/latest";

/// Why the release could not be used.
#[derive(Clone, Debug, PartialEq, Eq)]
pub enum CoreError {
    /// The release description is not JSON; the parser's message.
    InvalidJson(String),
    /// The release has no `assets` array.
    NoAssets,
    /// No asset is a Windows ARM64 archive with a download URL.
    NoArm64Asset,
}

impl CoreError {
    /// The message shown for this error.
    pub fn message(&self) -> (res: String)
        ensures
            res@ == (match self {
                CoreError::InvalidJson(m) => m@,
                CoreError::NoAssets => "No assets in release"@,
                CoreError::NoArm64Asset => "No windows-arm64 asset found"@,
            }),
    {
        match self {
            CoreError::InvalidJson(m) => m.clone(),
            CoreError::NoAssets => "No assets in release".to_owned(),
            CoreError::NoArm64Asset => "No windows-arm64 asset found".to_owned(),
        }
    }
}

/// `dir` joined with the relative name `name` on a system whose path
/// separator is `sep` (as `Path::join` does): `sep` is put between them
/// unless `dir` is empty or already ends with `sep` or `/`.
pub open spec fn path_join_spec(dir: Seq<char>, name: Seq<char>, sep: char) -> Seq<char> {
    if dir.len() == 0 || dir.last() == sep || dir.last() == '/' {
        dir + name
    } else {
        dir + seq![sep] + name
    }
}

/// `dir` joined with the relative name `name`, with the path separator `sep`.
pub fn path_join(dir: &str, name: &str, sep: char) -> (res: String)
    ensures
        res@ == path_join_spec(dir@, name@, sep),
{
    let cs = chars_of(dir);
    let mut res = dir.to_owned();
    if cs.len() == 0 || cs[cs.len() - 1] == sep || cs[cs.len() - 1] == '/' {
        res.append(name);
    } else {
        push_char(&mut res, sep);
        res.append(name);
    }
    res
}

/// Where the sing-box core is installed and found.
pub struct CoreDownloader;

impl CoreDownloader {
    /// The directory of the core inside the install directory `install_dir`,
    /// with the system's path separator `sep`.
    pub fn core_dir(install_dir: &str, sep: char) -> (res: String)
        ensures
            res@ == path_join_spec(install_dir@, "sing-box-core"@, sep),
    {
        path_join(install_dir, "sing-box-core", sep)
    }

    /// The path of the core executable inside the install directory
    /// `install_dir`, with the system's path separator `sep`.
    pub fn core_path(install_dir: &str, sep: char) -> (res: String)
        ensures
            res@ == path_join_spec(path_join_spec(install_dir@, "sing-box-core"@, sep), "sing-box.exe"@, sep),
    {
        let dir = Self::core_dir(install_dir, sep);
        path_join(dir.as_str(), "sing-box.exe", sep)
    }
}

/// The download URL of a release asset, if it is the Windows ARM64 archive.
pub open spec fn asset_url(a: DocView) -> Option<Seq<char>> {
    match opt_str(get_spec(a, "name"@)) {
        Some(n) => if ends_with_spec(n, "windows-arm64.zip"@) {
            opt_str(get_spec(a, "browser_download_url"@))
        } else {
            None
        },
        None => None,
    }
}

/// The download URL of the first asset that has one.
pub open spec fn first_asset_url(assets: Seq<DocView>) -> Option<Seq<char>>
    decreases assets.len(),
{
    if assets.len() == 0 {
        None
    } else {
        match asset_url(assets[0]) {
            Some(u) => Some(u),
            None => first_asset_url(assets.drop_first()),
        }
    }
}

/// The download URL of the Windows ARM64 archive of a release document.
pub open spec fn release_url_spec(release: DocView) -> Result<Seq<char>, CoreError> {
    match opt_list(get_spec(release, "assets"@)) {
        None => Err(CoreError::NoAssets),
        Some(assets) => match first_asset_url(assets) {
            Some(u) => Ok(u),
            None => Err(CoreError::NoArm64Asset),
        },
    }
}

/// The download URL of one asset, if it is the Windows ARM64 archive.
fn asset_download_url(a: &DocValue) -> (res: Option<String>)
    ensures
        match asset_url(a@) {
            Some(u) => res matches Some(s) && s@ == u,
            None => res is None,
        },
{
    let name = match get(a, "name") {
        Some(n) => match as_str(n) {
            Some(s) => s,
            None => {
                return None;
            },
        },
        None => {
            return None;
        },
    };
    if !str_ends_with(name.as_str(), "windows-arm64.zip") {
        return None;
    }
    match get(a, "browser_download_url") {
        Some(u) => match as_str(u) {
            Some(s) => Some(s.clone()),
            None => None,
        },
        None => None,
    }
}

/// The download URL of the Windows ARM64 archive of a release document.
pub fn release_download_url(release: &DocValue) -> (res: Result<String, CoreError>)
    ensures
        match release_url_spec(release@) {
            Ok(u) => res matches Ok(s) && s@ == u,
            Err(e) => res == Err::<String, CoreError>(e),
        },
{
    let assets = match get_list(release, "assets") {
        Some(a) => a,
        None => {
            return Err(CoreError::NoAssets);
        },
    };
    let ghost av = assets@.map_values(|x: DocValue| x@);
    let mut i: usize = 0;
    assert(av.skip(0) =~= av);
    while i < assets.len()
        invariant
            i <= assets@.len(),
            av == assets@.map_values(|x: DocValue| x@),
            opt_list(get_spec(release@, "assets"@)) == Some(av),
            first_asset_url(av) == first_asset_url(av.skip(i as int)),
        decreases assets@.len() - i,
    {
        assert(av.skip(i as int).drop_first() =~= av.skip(i + 1));
        assert(av.skip(i as int)[0] == assets@[i as int]@);
        match asset_download_url(&assets[i]) {
            Some(u) => {
                return Ok(u);
            },
            None => {},
        }
        i += 1;
    }
    assert(av.skip(i as int).len() == 0);
    Err(CoreError::NoArm64Asset)
}

/// The download URL of the Windows ARM64 archive of a release description.
pub fn parse_release(body: &str) -> (res: Result<String, CoreError>)
    ensures
        match json_document(body@) {
            Err(m) => res matches Err(CoreError::InvalidJson(x)) && x@ == m,
            Ok(release) => match release_url_spec(release) {
                Ok(u) => res matches Ok(s) && s@ == u,
                Err(e) => res == Err::<String, CoreError>(e),
            },
        },
{
    match parse_json(body) {
        Err(m) => Err(CoreError::InvalidJson(m)),
        Ok(release) => release_download_url(&release),
    }
}

/// The index of the first archive entry whose name ends with `sing-box.exe`.
pub fn find_core_entry(names: &Vec<String>) -> (res: Option<usize>)
    ensures
        match res {
            Some(i) => i < names@.len() && ends_with_spec(names@[i as int]@, "sing-box.exe"@)
                && forall|j: int| 0 <= j < i ==> !ends_with_spec(names@[j]@, "sing-box.exe"@),
            None => forall|j: int|
                0 <= j < names@.len() ==> !ends_with_spec(names@[j]@, "sing-box.exe"@),
        },
{
    let mut i: usize = 0;
    while i < names.len()
        invariant
            i <= names@.len(),
            forall|j: int| 0 <= j < i ==> !ends_with_spec(names@[j]@, "sing-box.exe"@),
        decreases names@.len() - i,
    {
        if str_ends_with(names[i].as_str(), "sing-box.exe") {
            return Some(i);
        }
        i += 1;
    }
    None
}

}
