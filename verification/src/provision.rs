//! Installing an interpreter: which archive to fetch for which machine, the
//! steps from nothing to the interpreter at its configured place, and what
//! is decided after each of the host's answers.

use vstd::prelude::*;
use vstd::string::*;
use crate::agent_config::{copy_text, ScriptConfig, ScriptConfigView};
use crate::failure::{Arch, Failure, FailureView, Platform, Runtime};
use crate::paths::{join, joined, parent, parent_of};
use crate::plan::{Step, StepView};
use crate::text::{chain, chain3};

verus! {

/// An archive that holds an interpreter.
#[derive(Debug, Clone, PartialEq, Eq)]
pub struct Asset {
    pub version: String,
    pub file_name: String,
    pub url: String,
    /// The directory that the archive unpacks into, where it does not hold
    /// the interpreter's files at its top.
    pub top_dir: Option<String>,
}

/// `Asset` as contracts see it.
pub struct AssetView {
    pub version: Seq<char>,
    pub file_name: Seq<char>,
    pub url: Seq<char>,
    pub top_dir: Option<Seq<char>>,
}

impl View for Asset {
    type V = AssetView;

    open spec fn view(&self) -> AssetView {
        AssetView {
            version: self.version@,
            file_name: self.file_name@,
            url: self.url@,
            top_dir: match self.top_dir {
                Some(d) => Some(d@),
                None => None,
            },
        }
    }
}

impl DeepView for Asset {
    type V = AssetView;

    open spec fn deep_view(&self) -> AssetView {
        self@
    }
}

/// Where the releases of an interpreter are published.
pub open spec fn release_base(runtime: Runtime) -> Seq<char> {
    match runtime {
        Runtime::Python => "https://github.com/amidaware/rmmagent/releases/download/"@,
        Runtime::Nushell => "https://github.com/nushell/nushell/releases/download/"@,
        Runtime::Deno => "https://github.com/denoland/deno/releases/download/"@,
    }
}

/// The release that is installed.
pub open spec fn release_of(runtime: Runtime) -> Seq<char> {
    match runtime {
        Runtime::Python => "v2.8.0"@,
        Runtime::Nushell => "0.87.0"@,
        Runtime::Deno => "v2.1.3"@,
    }
}

/// The archive of that release for a machine, where there is one.
pub open spec fn file_name_of(runtime: Runtime, platform: Platform, arch: Arch) -> Option<
    Seq<char>,
> {
    if platform != Platform::Windows {
        None
    } else {
        match runtime {
            Runtime::Python => if arch == Arch::X86_64 {
                Some("py3.11.9_amd64.zip"@)
            } else {
                None
            },
            Runtime::Nushell => if arch == Arch::X86_64 {
                Some("nu-0.87.0-x86_64-windows-msvc-full.zip"@)
            } else if arch == Arch::Aarch64 {
                Some("nu-0.87.0-arm64-windows-msvc-full.zip"@)
            } else {
                None
            },
            Runtime::Deno => if arch == Arch::X86_64 {
                Some("deno-x86_64-pc-windows-msvc.zip"@)
            } else {
                None
            },
        }
    }
}

/// The directory that the archive of an interpreter unpacks into.
pub open spec fn top_dir_of(runtime: Runtime) -> Option<Seq<char>> {
    match runtime {
        Runtime::Python => Some("py3.11.9_amd64"@),
        Runtime::Nushell => None,
        Runtime::Deno => None,
    }
}

/// What to fetch to install an interpreter on a machine; nothing where no
/// archive is published for it.
pub open spec fn asset_of(runtime: Runtime, platform: Platform, arch: Arch) -> Option<AssetView> {
    match file_name_of(runtime, platform, arch) {
        Some(file_name) => Some(
            AssetView {
                version: release_of(runtime),
                file_name,
                url: release_base(runtime) + release_of(runtime) + "/"@ + file_name,
                top_dir: top_dir_of(runtime),
            },
        ),
        None => None,
    }
}

fn release_base_text(runtime: Runtime) -> (r: &'static str)
    ensures
        r@ == release_base(runtime),
{
    match runtime {
        Runtime::Python => "https://github.com/amidaware/rmmagent/releases/download/",
        Runtime::Nushell => "https://github.com/nushell/nushell/releases/download/",
        Runtime::Deno => "https://github.com/denoland/deno/releases/download/",
    }
}

fn release_text(runtime: Runtime) -> (r: &'static str)
    ensures
        r@ == release_of(runtime),
{
    match runtime {
        Runtime::Python => "v2.8.0",
        Runtime::Nushell => "0.87.0",
        Runtime::Deno => "v2.1.3",
    }
}

fn file_name_text(runtime: Runtime, platform: Platform, arch: Arch) -> (r: Option<&'static str>)
    ensures
        r.deep_view() == file_name_of(runtime, platform, arch),
{
    match platform {
        Platform::Windows => match runtime {
            Runtime::Python => match arch {
                Arch::X86_64 => Some("py3.11.9_amd64.zip"),
                _ => None,
            },
            Runtime::Nushell => match arch {
                Arch::X86_64 => Some("nu-0.87.0-x86_64-windows-msvc-full.zip"),
                Arch::Aarch64 => Some("nu-0.87.0-arm64-windows-msvc-full.zip"),
                _ => None,
            },
            Runtime::Deno => match arch {
                Arch::X86_64 => Some("deno-x86_64-pc-windows-msvc.zip"),
                _ => None,
            },
        },
        _ => None,
    }
}

pub fn asset_for(runtime: Runtime, platform: Platform, arch: Arch) -> (r: Option<Asset>)
    ensures
        r.deep_view() == asset_of(runtime, platform, arch),
{
    match file_name_text(runtime, platform, arch) {
        Some(file_name) => {
            let mut url = chain3(release_base_text(runtime), release_text(runtime), "/");
            url.append(file_name);
            Some(
                Asset {
                    version: String::from_str(release_text(runtime)),
                    file_name: String::from_str(file_name),
                    url,
                    top_dir: match runtime {
                        Runtime::Python => Some(String::from_str("py3.11.9_amd64")),
                        _ => None,
                    },
                },
            )
        },
        None => None,
    }
}

/// Where the configuration says the interpreter is.
pub open spec fn binary_path(runtime: Runtime, config: ScriptConfigView) -> Seq<char> {
    match runtime {
        Runtime::Python => config.py_bin,
        Runtime::Nushell => config.nu_bin,
        Runtime::Deno => config.deno_bin,
    }
}

pub fn binary_of(runtime: Runtime, config: &ScriptConfig) -> (r: &String)
    ensures
        r@ == binary_path(runtime, config@),
{
    match runtime {
        Runtime::Python => &config.py_bin,
        Runtime::Nushell => &config.nu_bin,
        Runtime::Deno => &config.deno_bin,
    }
}

/// The directory of Nushell's configuration files.
pub open spec fn nushell_config_dir(config: ScriptConfigView) -> Seq<char> {
    joined(joined(config.program_dir, "etc"@), "nushell"@)
}

/// What an interpreter needs beside its own files: for Nushell, the
/// directory of its configuration files and the two files, empty where they
/// are not there yet.
pub open spec fn support_steps(runtime: Runtime, config: ScriptConfigView) -> Seq<StepView> {
    match runtime {
        Runtime::Nushell => seq![
            StepView::EnsureDirs { path: nushell_config_dir(config) },
            StepView::EnsureFile { path: joined(nushell_config_dir(config), "config.nu"@) },
            StepView::EnsureFile { path: joined(nushell_config_dir(config), "env.nu"@) },
        ],
        _ => Seq::empty(),
    }
}

/// The steps before the download. An archive that unpacks into a directory
/// of its own is unpacked beside the interpreter's directory, so the
/// directory above is made; a forced installation first clears what an
/// earlier one may have left where the archive unpacks to. Any other archive
/// is unpacked in the interpreter's directory, which is made.
pub open spec fn preparation(
    runtime: Runtime,
    config: ScriptConfigView,
    force: bool,
    install_dir: Seq<char>,
    runtime_dir: Seq<char>,
    asset: AssetView,
) -> Seq<StepView> {
    match asset.top_dir {
        Some(top) => {
            let clearing = if force {
                seq![StepView::ClearTree { path: joined(runtime_dir, top) }]
            } else {
                Seq::empty()
            };
            clearing.push(StepView::CreateDirs { path: runtime_dir })
        },
        None => seq![StepView::CreateDirs { path: install_dir }] + support_steps(runtime, config),
    }
}

/// The directory in which the archive is stored and unpacked.
pub open spec fn unpack_dir(install_dir: Seq<char>, runtime_dir: Seq<char>, asset: AssetView) -> Seq<
    char,
> {
    if asset.top_dir is Some {
        runtime_dir
    } else {
        install_dir
    }
}

/// The download: through the proxy where there is one, what is at `url` is
/// fetched and stored in `dest_dir` under the name `asset_name`, unpacked
/// there, and removed. The proxy is looked at before anything is sent.
pub open spec fn fetching(
    url: Seq<char>,
    proxy: Option<Seq<char>>,
    dest_dir: Seq<char>,
    asset_name: Seq<char>,
) -> Seq<StepView> {
    let archive = joined(dest_dir, asset_name);
    seq![
        StepView::Connect { proxy },
        StepView::Request { url },
        StepView::SaveBody { path: archive },
        StepView::Unpack { archive, dest: dest_dir },
        StepView::Discard { path: archive },
    ]
}

/// The steps after the download. What an archive unpacked into a directory
/// of its own is moved to the interpreter's directory, after whatever is in
/// the way there has been removed.
pub open spec fn settling(install_dir: Seq<char>, runtime_dir: Seq<char>, asset: AssetView) -> Seq<
    StepView,
> {
    match asset.top_dir {
        Some(top) => seq![
            StepView::ClearTree { path: install_dir },
            StepView::Require { path: joined(runtime_dir, top) },
            StepView::Rename { from: joined(runtime_dir, top), to: install_dir },
        ],
        None => Seq::empty(),
    }
}

/// The failure of a plan for a path with no directory above it.
pub open spec fn no_directory_above(path: Seq<char>) -> StepView {
    StepView::Fail {
        failure: FailureView::Configuration { message: "No directory above "@ + path },
    }
}

/// The steps that install an interpreter which is not there, or whose
/// installation is forced.
///
/// The interpreter's directory is the one that holds its configured path.
/// A forced installation begins by removing that directory where it is
/// there. Then, where no archive is published for the machine, the
/// installation fails before anything is created or fetched. Otherwise it
/// waits `delay` seconds, prepares the directories, downloads and unpacks
/// the archive, and moves what was unpacked into place. It has succeeded
/// only where the interpreter is at its configured path in the end.
pub open spec fn plan_of(
    runtime: Runtime,
    config: ScriptConfigView,
    force: bool,
    platform: Platform,
    arch: Arch,
    delay: u64,
) -> Seq<StepView> {
    let binary = binary_path(runtime, config);
    match parent_of(binary) {
        None => seq![no_directory_above(binary)],
        Some(install_dir) => {
            let removal = if force {
                seq![StepView::ClearTree { path: install_dir }]
            } else {
                Seq::empty()
            };
            match parent_of(install_dir) {
                None => removal.push(no_directory_above(install_dir)),
                Some(runtime_dir) => match asset_of(runtime, platform, arch) {
                    None => removal.push(
                        StepView::Fail {
                            failure: FailureView::UnsupportedPlatform { runtime, platform, arch },
                        },
                    ),
                    Some(asset) => removal + seq![StepView::Pause { seconds: delay }]
                        + preparation(runtime, config, force, install_dir, runtime_dir, asset)
                        + fetching(
                        asset.url,
                        config.proxy,
                        unpack_dir(install_dir, runtime_dir, asset),
                        asset.file_name,
                    ) + settling(install_dir, runtime_dir, asset) + seq![
                        StepView::Require { path: binary },
                    ],
                },
            }
        },
    }
}

/// Appends the steps of `more` to `steps`.
pub fn append_steps(steps: &mut Vec<Step>, more: Vec<Step>)
    ensures
        final(steps).deep_view() == old(steps).deep_view() + more.deep_view(),
{
    let mut rest = more;
    let ghost a = steps.deep_view();
    let ghost b = rest.deep_view();
    steps.append(&mut rest);
    assert(steps.deep_view() =~= a + b);
}

fn support(runtime: Runtime, config: &ScriptConfig) -> (r: Vec<Step>)
    ensures
        r.deep_view() == support_steps(runtime, config@),
{
    let mut steps: Vec<Step> = Vec::new();
    match runtime {
        Runtime::Nushell => {
            let etc = join(config.program_dir.as_str(), "etc");
            let dir = join(etc.as_str(), "nushell");
            let config_file = join(dir.as_str(), "config.nu");
            let env_file = join(dir.as_str(), "env.nu");
            steps.push(Step::EnsureDirs { path: dir });
            steps.push(Step::EnsureFile { path: config_file });
            steps.push(Step::EnsureFile { path: env_file });
        },
        _ => {},
    }
    assert(steps.deep_view() =~= support_steps(runtime, config@));
    steps
}

fn prepare(
    runtime: Runtime,
    config: &ScriptConfig,
    force: bool,
    install_dir: &str,
    runtime_dir: &str,
    asset: &Asset,
) -> (r: Vec<Step>)
    ensures
        r.deep_view() == preparation(runtime, config@, force, install_dir@, runtime_dir@, asset@),
{
    let mut steps: Vec<Step> = Vec::new();
    match &asset.top_dir {
        Some(top) => {
            if force {
                steps.push(Step::ClearTree { path: join(runtime_dir, top.as_str()) });
            }
            steps.push(Step::CreateDirs { path: String::from_str(runtime_dir) });
            assert(steps.deep_view() =~= preparation(
                runtime,
                config@,
                force,
                install_dir@,
                runtime_dir@,
                asset@,
            ));
        },
        None => {
            steps.push(Step::CreateDirs { path: String::from_str(install_dir) });
            assert(steps.deep_view() =~= seq![StepView::CreateDirs { path: install_dir@ }]);
            append_steps(&mut steps, support(runtime, config));
        },
    }
    steps
}

/// The steps that fetch the archive at `url` and unpack it in `dest_dir`.
pub fn fetch_and_extract(url: &str, proxy: &Option<String>, dest_dir: &str, asset_name: &str) -> (r:
    Vec<Step>)
    ensures
        r.deep_view() == fetching(url@, proxy.deep_view(), dest_dir@, asset_name@),
{
    let archive = join(dest_dir, asset_name);
    let mut steps: Vec<Step> = Vec::new();
    steps.push(Step::Connect { proxy: copy_text(proxy) });
    steps.push(Step::Request { url: String::from_str(url) });
    steps.push(Step::SaveBody { path: archive.clone() });
    steps.push(Step::Unpack { archive: archive.clone(), dest: String::from_str(dest_dir) });
    steps.push(Step::Discard { path: archive });
    assert(steps.deep_view() =~= fetching(url@, proxy.deep_view(), dest_dir@, asset_name@));
    steps
}

fn settle(install_dir: &str, runtime_dir: &str, asset: &Asset) -> (r: Vec<Step>)
    ensures
        r.deep_view() == settling(install_dir@, runtime_dir@, asset@),
{
    let mut steps: Vec<Step> = Vec::new();
    match &asset.top_dir {
        Some(top) => {
            let staged = join(runtime_dir, top.as_str());
            steps.push(Step::ClearTree { path: String::from_str(install_dir) });
            steps.push(Step::Require { path: staged.clone() });
            steps.push(Step::Rename { from: staged, to: String::from_str(install_dir) });
        },
        None => {},
    }
    assert(steps.deep_view() =~= settling(install_dir@, runtime_dir@, asset@));
    steps
}

fn fail_without_directory(path: &str) -> (r: Step)
    ensures
        r@ == no_directory_above(path@),
{
    Step::Fail { failure: Failure::Configuration { message: chain("No directory above ", path) } }
}

/// The steps that install `runtime`.
pub fn plan(
    runtime: Runtime,
    config: &ScriptConfig,
    force: bool,
    platform: Platform,
    arch: Arch,
    delay: u64,
) -> (r: Vec<Step>)
    ensures
        r.deep_view() == plan_of(runtime, config@, force, platform, arch, delay),
{
    let binary = binary_of(runtime, config);
    let mut steps: Vec<Step> = Vec::new();
    let install_dir = match parent(binary.as_str()) {
        Some(dir) => dir,
        None => {
            steps.push(fail_without_directory(binary.as_str()));
            assert(steps.deep_view() =~= seq![no_directory_above(binary@)]);
            return steps;
        },
    };
    if force {
        steps.push(Step::ClearTree { path: install_dir.clone() });
    }
    let ghost removal = steps.deep_view();
    assert(removal =~= if force {
        seq![StepView::ClearTree { path: install_dir@ }]
    } else {
        Seq::<StepView>::empty()
    });
    let runtime_dir = match parent(install_dir.as_str()) {
        Some(dir) => dir,
        None => {
            steps.push(fail_without_directory(install_dir.as_str()));
            assert(steps.deep_view() =~= removal.push(no_directory_above(install_dir@)));
            return steps;
        },
    };
    let asset = match asset_for(runtime, platform, arch) {
        Some(asset) => asset,
        None => {
            steps.push(Step::Fail { failure: Failure::UnsupportedPlatform { runtime, platform, arch } });
            assert(steps.deep_view() =~= removal.push(
                StepView::Fail {
                    failure: FailureView::UnsupportedPlatform { runtime, platform, arch },
                },
            ));
            return steps;
        },
    };
    steps.push(Step::Pause { seconds: delay });
    assert(steps.deep_view() =~= removal + seq![StepView::Pause { seconds: delay }]);
    append_steps(
        &mut steps,
        prepare(runtime, config, force, install_dir.as_str(), runtime_dir.as_str(), &asset),
    );
    let dir = if asset.top_dir.is_some() {
        runtime_dir.clone()
    } else {
        install_dir.clone()
    };
    append_steps(
        &mut steps,
        fetch_and_extract(
            asset.url.as_str(),
            &config.proxy,
            dir.as_str(),
            asset.file_name.as_str(),
        ),
    );
    append_steps(&mut steps, settle(install_dir.as_str(), runtime_dir.as_str(), &asset));
    let ghost before = steps.deep_view();
    steps.push(Step::Require { path: binary.clone() });
    assert(steps.deep_view() =~= before + seq![StepView::Require { path: binary@ }]);
    steps
}

} // verus!
