use vstd::prelude::*;
use vstd::string::StringExecFns;
use crate::error::{RpcError, RpcErrorView};
use crate::text::{joined, push_text, str_eq, string_views};
use crate::types::ChainConfig;

verus! {

/// The desktop operating systems whose directory conventions are known, and the rest.
#[derive(Debug, Clone, Copy, PartialEq, Eq, Structural)]
pub enum Platform {
    Windows,
    MacOs,
    Linux,
    Unsupported,
}

/// The directory of the user's that a root is found under.
#[derive(Debug, Clone, Copy, PartialEq, Eq, Structural)]
pub enum BaseDir {
    /// The home directory.
    Home,
    /// The directory for application data.
    Data,
}

/// A directory named by the base it hangs from and the path components below it.
#[derive(Debug)]
pub struct RootLayout {
    pub base: BaseDir,
    pub segments: Vec<String>,
}

/// Where the main chain's configuration directories lie on a platform.
pub open spec fn main_root_of(p: Platform) -> Option<(BaseDir, Seq<Seq<char>>)> {
    match p {
        Platform::Windows => Some((BaseDir::Data, seq!["Komodo"@])),
        Platform::MacOs => Some(
            (BaseDir::Home, seq!["Library"@, "Application Support"@, "Komodo"@]),
        ),
        Platform::Linux => Some((BaseDir::Home, seq![".komodo"@])),
        Platform::Unsupported => None,
    }
}

/// Where the sibling chains' configuration directories lie on a platform.
pub open spec fn sibling_root_of(p: Platform) -> Option<(BaseDir, Seq<Seq<char>>)> {
    match p {
        Platform::Windows => Some((BaseDir::Data, seq!["Verus"@, "pbaas"@])),
        Platform::MacOs => Some(
            (BaseDir::Home, seq!["Library"@, "Application Support"@, "Verus"@, "pbaas"@]),
        ),
        Platform::Linux => Some((BaseDir::Home, seq![".verus"@, "pbaas"@])),
        Platform::Unsupported => None,
    }
}

/// The failure reported when a platform's base directory cannot be found.
pub open spec fn missing_base_of(p: Platform) -> RpcErrorView {
    match p {
        Platform::Windows => RpcErrorView::Configuration(
            "Could not determine Windows AppData directory"@,
        ),
        Platform::MacOs => RpcErrorView::Configuration(
            "Could not determine macOS Application Support directory"@,
        ),
        Platform::Linux => RpcErrorView::Configuration("Could not determine Linux home directory"@),
        Platform::Unsupported => RpcErrorView::Configuration("Unsupported operating system"@),
    }
}

/// The name of the configuration file inside a chain's directory.
pub open spec fn config_file_name_of(dir_name: Seq<char>) -> Seq<char> {
    dir_name + ".conf"@
}

/// Whether a layout result agrees with what a platform table gives, or with the failure.
pub open spec fn layout_matches(
    r: Result<RootLayout, RpcError>,
    expected: Option<(BaseDir, Seq<Seq<char>>)>,
    p: Platform,
) -> bool {
    match expected {
        Some((base, segments)) => r matches Ok(l) && l.base == base && string_views(l.segments@)
            == segments,
        None => r matches Err(e) && e@ == missing_base_of(p),
    }
}

/// Picks the directory conventions of one platform.
pub struct PathResolver {
    pub platform: Platform,
}

fn layout(base: BaseDir, parts: &[&str]) -> (r: RootLayout)
    ensures
        r.base == base,
        string_views(r.segments@) == parts@.map_values(|s: &str| s@),
{
    let mut segments: Vec<String> = Vec::new();
    let mut i: usize = 0;
    while i < parts.len()
        invariant
            i <= parts@.len(),
            string_views(segments@) == parts@.subrange(0, i as int).map_values(|s: &str| s@),
        decreases parts@.len() - i,
    {
        push_text(&mut segments, parts[i]);
        assert(parts@.subrange(0, i + 1).map_values(|s: &str| s@) =~= parts@.subrange(
            0,
            i as int,
        ).map_values(|s: &str| s@).push(parts@[i as int]@));
        i = i + 1;
    }
    assert(parts@.subrange(0, i as int) =~= parts@);
    RootLayout { base, segments }
}

impl PathResolver {
    pub fn new(platform: Platform) -> (r: PathResolver)
        ensures
            r.platform == platform,
    {
        PathResolver { platform }
    }

    /// The failure reported when this platform's base directory cannot be found.
    pub fn missing_base_error(&self) -> (r: RpcError)
        ensures
            r@ == missing_base_of(self.platform),
    {
        match self.platform {
            Platform::Windows => RpcError::configuration(
                "Could not determine Windows AppData directory",
            ),
            Platform::MacOs => RpcError::configuration(
                "Could not determine macOS Application Support directory",
            ),
            Platform::Linux => RpcError::configuration("Could not determine Linux home directory"),
            Platform::Unsupported => RpcError::configuration("Unsupported operating system"),
        }
    }

    /// The directory that holds the main chain's and the test network's configuration
    /// directories.
    pub fn main_chain_root(&self) -> (r: Result<RootLayout, RpcError>)
        ensures
            layout_matches(r, main_root_of(self.platform), self.platform),
    {
        let r = match self.platform {
            Platform::Windows => Ok(layout(BaseDir::Data, &["Komodo"])),
            Platform::MacOs => Ok(
                layout(BaseDir::Home, &["Library", "Application Support", "Komodo"]),
            ),
            Platform::Linux => Ok(layout(BaseDir::Home, &[".komodo"])),
            Platform::Unsupported => Err(self.missing_base_error()),
        };
        proof {
            if let Ok(l) = &r {
                let expected = main_root_of(self.platform).unwrap();
                assert(string_views(l.segments@) =~= expected.1);
            }
        }
        r
    }

    /// The directory that holds one directory per sibling chain.
    pub fn sibling_chain_root(&self) -> (r: Result<RootLayout, RpcError>)
        ensures
            layout_matches(r, sibling_root_of(self.platform), self.platform),
    {
        let r = match self.platform {
            Platform::Windows => Ok(layout(BaseDir::Data, &["Verus", "pbaas"])),
            Platform::MacOs => Ok(
                layout(BaseDir::Home, &["Library", "Application Support", "Verus", "pbaas"]),
            ),
            Platform::Linux => Ok(layout(BaseDir::Home, &[".verus", "pbaas"])),
            Platform::Unsupported => Err(self.missing_base_error()),
        };
        proof {
            if let Ok(l) = &r {
                let expected = sibling_root_of(self.platform).unwrap();
                assert(string_views(l.segments@) =~= expected.1);
            }
        }
        r
    }
}

/// The name of the configuration file inside a chain's directory: `<dir>.conf`.
pub fn config_file_name(dir_name: &str) -> (r: String)
    ensures
        r@ == config_file_name_of(dir_name@),
{
    joined(dir_name, ".conf")
}

/// The configuration directory of a chain: the main chain and the test network under the main
/// root, any other chain under the sibling root, in a directory named after it.
pub open spec fn config_directory_of(chain_name: Seq<char>, p: Platform) -> Option<
    (BaseDir, Seq<Seq<char>>),
> {
    let (root, dir) = if chain_name == "vrsc"@ {
        (main_root_of(p), "VRSC"@)
    } else if chain_name == "vrsctest"@ {
        (main_root_of(p), "vrsctest"@)
    } else {
        (sibling_root_of(p), chain_name)
    };
    match root {
        Some((base, segments)) => Some((base, segments.push(dir))),
        None => None,
    }
}

/// How a hint writes the base directory of a platform.
pub open spec fn base_hint_of(p: Platform) -> Seq<char> {
    match p {
        Platform::Windows => "%AppData%"@,
        _ => "~"@,
    }
}

/// The path separator a hint uses on a platform.
pub open spec fn separator_of(p: Platform) -> Seq<char> {
    match p {
        Platform::Windows => "\\"@,
        _ => "/"@,
    }
}

/// The path components, each preceded by `sep`.
pub open spec fn path_tail(sep: Seq<char>, segments: Seq<Seq<char>>) -> Seq<char>
    decreases segments.len(),
{
    if segments.len() == 0 {
        Seq::empty()
    } else {
        path_tail(sep, segments.drop_last()) + sep + segments.last()
    }
}

/// The hint for the configuration file of the chain directory `dir` under `root`.
pub open spec fn hint_line_of(p: Platform, root: Seq<Seq<char>>, dir: Seq<char>) -> Seq<char> {
    base_hint_of(p) + path_tail(separator_of(p), root.push(dir).push(config_file_name_of(dir)))
}

/// The paths a user is told to look at, one per line, for a platform: the main chain's and
/// the test network's files under the main root, and the pattern of a sibling chain's file
/// under the sibling root, the same roots that discovery reads.
pub open spec fn expected_paths_of(p: Platform) -> Seq<char> {
    match (main_root_of(p), sibling_root_of(p)) {
        (Some((_, m)), Some((_, s))) => hint_line_of(p, m, "VRSC"@) + "\n"@ + hint_line_of(
            p,
            m,
            "vrsctest"@,
        ) + "\n"@ + hint_line_of(p, s, "{currencyidhex}"@),
        _ => "Unsupported operating system"@,
    }
}

fn base_hint(p: Platform) -> (r: &'static str)
    ensures
        r@ == base_hint_of(p),
{
    match p {
        Platform::Windows => "%AppData%",
        _ => "~",
    }
}

fn separator(p: Platform) -> (r: &'static str)
    ensures
        r@ == separator_of(p),
{
    match p {
        Platform::Windows => "\\",
        _ => "/",
    }
}

fn path_text(base: &str, sep: &str, segments: &Vec<String>) -> (r: String)
    ensures
        r@ == base@ + path_tail(sep@, string_views(segments@)),
{
    let mut out = String::from_str(base);
    let mut i: usize = 0;
    while i < segments.len()
        invariant
            i <= segments.len(),
            out@ == base@ + path_tail(sep@, string_views(segments@.subrange(0, i as int))),
        decreases segments.len() - i,
    {
        let ghost before = string_views(segments@.subrange(0, i as int));
        let ghost after = string_views(segments@.subrange(0, i + 1));
        assert(after.drop_last() =~= before);
        assert(after.last() == segments@[i as int]@);
        out.append(sep);
        out.append(segments[i].as_str());
        assert(out@ =~= base@ + path_tail(sep@, after));
        i = i + 1;
    }
    assert(segments@.subrange(0, i as int) =~= segments@);
    out
}

fn hint_line(p: Platform, root: Vec<String>, dir: &str) -> (r: String)
    ensures
        r@ == hint_line_of(p, string_views(root@), dir@),
{
    let mut segments = root;
    push_text(&mut segments, dir);
    let file = config_file_name(dir);
    push_text(&mut segments, file.as_str());
    path_text(base_hint(p), separator(p), &segments)
}

impl ChainConfig {
    /// The configuration directory of a chain on a platform.
    pub fn config_directory(chain_name: &str, platform: Platform) -> (r: Result<
        RootLayout,
        RpcError,
    >)
        ensures
            layout_matches(r, config_directory_of(chain_name@, platform), platform),
    {
        let resolver = PathResolver::new(platform);
        let (root, dir) = if str_eq(chain_name, "vrsc") {
            (resolver.main_chain_root(), String::from_str("VRSC"))
        } else if str_eq(chain_name, "vrsctest") {
            (resolver.main_chain_root(), String::from_str("vrsctest"))
        } else {
            (resolver.sibling_chain_root(), String::from_str(chain_name))
        };
        match root {
            Ok(l) => {
                let mut segments = l.segments;
                push_text(&mut segments, dir.as_str());
                Ok(RootLayout { base: l.base, segments })
            },
            Err(e) => Err(e),
        }
    }

    /// The paths a user is told to look at, one per line: built from the same roots that
    /// discovery reads.
    pub fn get_expected_paths(platform: Platform) -> (r: String)
        ensures
            r@ == expected_paths_of(platform),
    {
        let resolver = PathResolver::new(platform);
        match (resolver.main_chain_root(), resolver.main_chain_root(), resolver.sibling_chain_root()) {
            (Ok(main), Ok(test), Ok(sibling)) => {
                let first = hint_line(platform, main.segments, "VRSC");
                let second = hint_line(platform, test.segments, "vrsctest");
                let third = hint_line(platform, sibling.segments, "{currencyidhex}");
                first.concat("\n").concat(second.as_str()).concat("\n").concat(third.as_str())
            },
            _ => String::from_str("Unsupported operating system"),
        }
    }
}

} // verus!
