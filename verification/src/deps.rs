//! Locating the iroh command line tool and reporting what is installed.
use vstd::prelude::*;
use crate::text::{text_of, trim_text, trimmed};

verus! {

/// The operating system the application was built for.
#[derive(Debug, Clone, Copy, PartialEq, Eq, Structural)]
pub enum TargetOs {
    MacOs,
    Windows,
    Other,
}

pub open spec fn guide_text(os: TargetOs, cargo_found: bool) -> Seq<char> {
    if cargo_found {
        "在终端运行: cargo install iroh-cli"@
    } else {
        match os {
            TargetOs::MacOs => "1. 安装Rust: curl --proto '=https' --tlsv1.2 -sSf https://sh.rustup.rs | sh\n2. 安装iroh: cargo install iroh-cli"@,
            TargetOs::Windows => "1. 安装Rust: 访问 https://rustup.rs 下载安装\n2. 安装iroh: cargo install iroh-cli"@,
            TargetOs::Other => "1. 安装Rust: curl --proto '=https' --tlsv1.2 -sSf https://sh.rustup.rs | sh\n2. 安装iroh: cargo install iroh-cli\n3. 安装依赖: sudo apt install build-essential pkg-config libssl-dev"@,
        }
    }
}

/// Installation instructions for the iroh tool: one command where cargo is present,
/// else the steps to install Rust first, for the given system.
pub fn install_guide(os: TargetOs, cargo_found: bool) -> (g: &'static str)
    ensures
        g@ == guide_text(os, cargo_found),
{
    if cargo_found {
        "在终端运行: cargo install iroh-cli"
    } else {
        match os {
            TargetOs::MacOs => "1. 安装Rust: curl --proto '=https' --tlsv1.2 -sSf https://sh.rustup.rs | sh\n2. 安装iroh: cargo install iroh-cli",
            TargetOs::Windows => "1. 安装Rust: 访问 https://rustup.rs 下载安装\n2. 安装iroh: cargo install iroh-cli",
            TargetOs::Other => "1. 安装Rust: curl --proto '=https' --tlsv1.2 -sSf https://sh.rustup.rs | sh\n2. 安装iroh: cargo install iroh-cli\n3. 安装依赖: sudo apt install build-essential pkg-config libssl-dev",
        }
    }
}

/// What the dependency check reports.
#[derive(Debug, Clone, PartialEq, Eq)]
pub struct DependencyReport {
    pub iroh_found: bool,
    pub iroh_path: String,
    pub iroh_version: String,
    pub cargo_found: bool,
    pub install_guide: String,
}

/// The mathematical content of a [`DependencyReport`].
pub struct DependencyView {
    pub iroh_found: bool,
    pub iroh_path: Seq<char>,
    pub iroh_version: Seq<char>,
    pub cargo_found: bool,
    pub install_guide: Seq<char>,
}

impl View for DependencyReport {
    type V = DependencyView;

    open spec fn view(&self) -> DependencyView {
        DependencyView {
            iroh_found: self.iroh_found,
            iroh_path: self.iroh_path@,
            iroh_version: self.iroh_version@,
            cargo_found: self.cargo_found,
            install_guide: self.install_guide@,
        }
    }
}

/// The report for a located tool (if any), its `--version` output (where it ran),
/// whether cargo answered, and the system.
pub open spec fn report_view(
    iroh_path: Option<Seq<char>>,
    version_output: Option<Seq<char>>,
    cargo_found: bool,
    os: TargetOs,
) -> DependencyView {
    DependencyView {
        iroh_found: iroh_path is Some,
        iroh_path: match iroh_path {
            Some(p) => p,
            None => seq![],
        },
        iroh_version: match version_output {
            Some(o) => trimmed(o),
            None => seq![],
        },
        cargo_found: cargo_found,
        install_guide: guide_text(os, cargo_found),
    }
}

/// Assembles the dependency report from the located tool (if any), the output of its
/// `--version` (where it ran), whether cargo answered, and the system.
pub fn dependency_report(
    iroh_path: Option<String>,
    version_output: Option<String>,
    cargo_found: bool,
    os: TargetOs,
) -> (r: DependencyReport)
    ensures
        r.iroh_found == iroh_path is Some,
        r.iroh_path@ == (match iroh_path {
            Some(p) => p@,
            None => Seq::<char>::empty(),
        }),
        r.iroh_version@ == (match version_output {
            Some(o) => trimmed(o@),
            None => Seq::<char>::empty(),
        }),
        r.cargo_found == cargo_found,
        r.install_guide@ == guide_text(os, cargo_found),
        r@ == report_view(text_of(iroh_path), text_of(version_output), cargo_found, os),
{
    let iroh_found = iroh_path.is_some();
    let path = match iroh_path {
        Some(p) => p,
        None => String::new(),
    };
    let version = match version_output {
        Some(o) => trim_text(o.as_str()),
        None => String::new(),
    };
    DependencyReport {
        iroh_found,
        iroh_path: path,
        iroh_version: version,
        cargo_found,
        install_guide: String::from_str(install_guide(os, cargo_found)),
    }
}

/// One place looked at for the iroh tool, in the order they are tried.
#[derive(Debug, Clone, PartialEq, Eq)]
pub enum IrohProbe {
    /// A file path, and whether something exists there.
    Candidate { path: String, exists: bool },
    /// The `which iroh` lookup could not be run; rendered error.
    LookupFailed { reason: String },
    /// The `which iroh` lookup ran; whether it succeeded, and what it printed.
    LookupRan { success: bool, stdout: String },
}

/// The error when the tool was found nowhere.
pub open spec fn not_found_message() -> Seq<char> {
    "未找到iroh，请先安装: cargo install iroh-cli"@
}

/// The outcome of looking for the tool at the probes, in order: the first candidate path
/// that exists, or the trimmed output of a successful lookup that printed something;
/// a lookup that could not run ends the search with an error.
pub open spec fn resolve(probes: Seq<IrohProbe>) -> Result<Seq<char>, Seq<char>>
    decreases probes.len(),
{
    if probes.len() == 0 {
        Err(not_found_message())
    } else {
        match probes[0] {
            IrohProbe::Candidate { path, exists } => if exists {
                Ok(path@)
            } else {
                resolve(probes.drop_first())
            },
            IrohProbe::LookupFailed { reason } => Err("查找iroh失败: "@ + reason@),
            IrohProbe::LookupRan { success, stdout } => if success && trimmed(stdout@).len() > 0 {
                Ok(trimmed(stdout@))
            } else {
                resolve(probes.drop_first())
            },
        }
    }
}

pub open spec fn result_text(r: Result<String, String>) -> Result<Seq<char>, Seq<char>> {
    match r {
        Ok(s) => Ok(s@),
        Err(e) => Err(e@),
    }
}

/// Decides where the iroh tool is from what was found at each probe (see [`resolve`]).
pub fn choose_iroh_path(probes: &Vec<IrohProbe>) -> (res: Result<String, String>)
    ensures
        result_text(res) == resolve(probes@),
{
    let n = probes.len();
    let mut i: usize = 0;
    assert(probes@.subrange(0, n as int) =~= probes@);
    while i < n
        invariant
            n == probes@.len(),
            i <= n,
            resolve(probes@) == resolve(probes@.subrange(i as int, n as int)),
        decreases n - i,
    {
        let ghost rest = probes@.subrange(i as int, n as int);
        assert(rest[0] == probes@[i as int]);
        assert(rest.drop_first() =~= probes@.subrange(i + 1, n as int));
        match &probes[i] {
            IrohProbe::Candidate { path, exists } => {
                if *exists {
                    return Ok(path.clone());
                }
            },
            IrohProbe::LookupFailed { reason } => {
                let mut m = String::from_str("查找iroh失败: ");
                m.append(reason.as_str());
                return Err(m);
            },
            IrohProbe::LookupRan { success, stdout } => {
                if *success {
                    let t = trim_text(stdout.as_str());
                    if !t.as_str().is_empty() {
                        return Ok(t);
                    }
                }
            },
        }
        i = i + 1;
    }
    assert(probes@.subrange(n as int, n as int) =~= Seq::<IrohProbe>::empty());
    Err(String::from_str("未找到iroh，请先安装: cargo install iroh-cli"))
}

/// Where cargo is present, the guide is the same single command on every system.
pub proof fn law_guide_with_cargo(a: TargetOs, b: TargetOs)
    ensures
        guide_text(a, true) == guide_text(b, true),
{
}

/// Probes are tried in order: when every probe before the `k`-th is a path with nothing
/// there and the `k`-th is a path with something there, that path is the answer.
pub proof fn law_first_existing_candidate(probes: Seq<IrohProbe>, k: int)
    requires
        0 <= k < probes.len(),
        forall|j: int| 0 <= j < k ==> (#[trigger] probes[j] matches IrohProbe::Candidate { exists, .. } && !exists),
        probes[k] matches IrohProbe::Candidate { exists, .. } && exists,
    ensures
        resolve(probes) == Ok::<Seq<char>, Seq<char>>(probes[k]->Candidate_path@),
    decreases k,
{
    if k > 0 {
        let rest = probes.drop_first();
        assert(probes[0] matches IrohProbe::Candidate { exists, .. } && !exists);
        assert forall|j: int| 0 <= j < k - 1 implies (#[trigger] rest[j] matches IrohProbe::Candidate { exists, .. } && !exists) by {
            assert(rest[j] == probes[j + 1]);
        }
        assert(rest[k - 1] == probes[k]);
        law_first_existing_candidate(rest, k - 1);
    }
}

/// A lookup that cannot be run ends the search with its error, unless a path probed
/// before it already had the tool.
pub proof fn law_failed_lookup_ends_search(probes: Seq<IrohProbe>, reason: String)
    requires
        forall|j: int| 0 <= j < probes.len() ==> (#[trigger] probes[j] matches IrohProbe::Candidate { exists, .. } && !exists),
    ensures
        resolve(probes.push(IrohProbe::LookupFailed { reason })) == Err::<Seq<char>, Seq<char>>("查找iroh失败: "@ + reason@),
    decreases probes.len(),
{
    let full = probes.push(IrohProbe::LookupFailed { reason });
    if probes.len() > 0 {
        let rest = probes.drop_first();
        assert(full[0] == probes[0]);
        assert(full.drop_first() =~= rest.push(IrohProbe::LookupFailed { reason }));
        assert forall|j: int| 0 <= j < rest.len() implies (#[trigger] rest[j] matches IrohProbe::Candidate { exists, .. } && !exists) by {
            assert(rest[j] == probes[j + 1]);
        }
        law_failed_lookup_ends_search(rest, reason);
    } else {
        assert(full[0] == IrohProbe::LookupFailed { reason });
    }
}


/// The located path, where the search found one.
pub open spec fn found_path(r: Result<Seq<char>, Seq<char>>) -> Option<Seq<char>> {
    match r {
        Ok(p) => Some(p),
        Err(_) => None,
    }
}

/// The dependency report follows the tool search: the tool is reported found exactly
/// when the search found it, with the path it found (else an empty path), and with an
/// empty version when it was not found (its `--version` is only run on a found tool).
pub proof fn law_report_follows_search(
    probes: Seq<IrohProbe>,
    version_output: Option<Seq<char>>,
    cargo_found: bool,
    os: TargetOs,
)
    requires
        resolve(probes) is Err ==> version_output is None,
    ensures
        ({
            let r = report_view(found_path(resolve(probes)), version_output, cargo_found, os);
            &&& r.iroh_found == resolve(probes) is Ok
            &&& r.iroh_path == (match resolve(probes) {
                Ok(p) => p,
                Err(_) => Seq::<char>::empty(),
            })
            &&& !r.iroh_found ==> r.iroh_version == Seq::<char>::empty()
            &&& r.cargo_found == cargo_found
            &&& r.install_guide == guide_text(os, cargo_found)
        }),
{
}

/// The install guides: with cargo present, the single command on every system; without
/// it, on macOS the two steps (Rust by rustup through curl, then the tool), on Windows
/// the same two steps with rustup's download page, and only on other systems the two
/// curl steps followed by a third, apt-based step, so that the macOS guide differs from
/// that one and holds no apt step.
pub proof fn law_install_guides(os: TargetOs)
    ensures
        guide_text(os, true) == "在终端运行: cargo install iroh-cli"@,
        guide_text(TargetOs::MacOs, false)
            == "1. 安装Rust: curl --proto '=https' --tlsv1.2 -sSf https://sh.rustup.rs | sh\n2. 安装iroh: cargo install iroh-cli"@,
        guide_text(TargetOs::Windows, false)
            == "1. 安装Rust: 访问 https://rustup.rs 下载安装\n2. 安装iroh: cargo install iroh-cli"@,
        guide_text(TargetOs::Other, false) == guide_text(TargetOs::MacOs, false)
            + "\n3. 安装依赖: sudo apt install build-essential pkg-config libssl-dev"@,
        guide_text(TargetOs::MacOs, false) != guide_text(TargetOs::Other, false),
        guide_text(TargetOs::MacOs, false).len() < guide_text(TargetOs::Other, false).len(),
{
    reveal_strlit("1. 安装Rust: curl --proto '=https' --tlsv1.2 -sSf https://sh.rustup.rs | sh\n2. 安装iroh: cargo install iroh-cli");
    reveal_strlit("1. 安装Rust: curl --proto '=https' --tlsv1.2 -sSf https://sh.rustup.rs | sh\n2. 安装iroh: cargo install iroh-cli\n3. 安装依赖: sudo apt install build-essential pkg-config libssl-dev");
    reveal_strlit("\n3. 安装依赖: sudo apt install build-essential pkg-config libssl-dev");
    assert(guide_text(TargetOs::Other, false) =~= guide_text(TargetOs::MacOs, false)
        + "\n3. 安装依赖: sudo apt install build-essential pkg-config libssl-dev"@);
}

/// When every path probed first had nothing there, a lookup that ran decides: the
/// tool is where it printed (trimmed), if it succeeded and printed something; otherwise
/// the search ends with "未找到iroh，请先安装: cargo install iroh-cli". With nothing
/// probed at all, the search ends with that error too.
pub proof fn law_lookup_after_misses(probes: Seq<IrohProbe>, success: bool, stdout: String)
    requires
        forall|j: int| 0 <= j < probes.len() ==> (#[trigger] probes[j] matches IrohProbe::Candidate { exists, .. } && !exists),
    ensures
        resolve(probes.push(IrohProbe::LookupRan { success, stdout })) == (if success && trimmed(
            stdout@,
        ).len() > 0 {
            Ok::<Seq<char>, Seq<char>>(trimmed(stdout@))
        } else {
            Err::<Seq<char>, Seq<char>>("未找到iroh，请先安装: cargo install iroh-cli"@)
        }),
        resolve(Seq::<IrohProbe>::empty()) == Err::<Seq<char>, Seq<char>>(
            "未找到iroh，请先安装: cargo install iroh-cli"@,
        ),
    decreases probes.len(),
{
    let full = probes.push(IrohProbe::LookupRan { success, stdout });
    if probes.len() > 0 {
        let rest = probes.drop_first();
        assert(full[0] == probes[0]);
        assert(full.drop_first() =~= rest.push(IrohProbe::LookupRan { success, stdout }));
        assert forall|j: int| 0 <= j < rest.len() implies (#[trigger] rest[j] matches IrohProbe::Candidate { exists, .. } && !exists) by {
            assert(rest[j] == probes[j + 1]);
        }
        law_lookup_after_misses(rest, success, stdout);
    } else {
        assert(full[0] == IrohProbe::LookupRan { success, stdout });
        assert(full.drop_first() =~= Seq::<IrohProbe>::empty());
    }
}

} // verus!
