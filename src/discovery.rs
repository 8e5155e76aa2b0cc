use vstd::prelude::*;
use vstd::string::StringExecFns;
use crate::config::{config_credentials, parse_config};
use crate::error::{RpcError, RpcErrorView};
use crate::paths::{config_file_name, config_file_name_of};
use crate::text::str_eq;
use crate::types::{ChainConfig, ChainView, CredentialsView, RpcCredentials};

verus! {

/// A sibling chain's directory name and the text of the configuration file inside it.
#[derive(Debug)]
pub struct SiblingConfig {
    pub dir_name: String,
    pub content: String,
}

/// What a discovery pass read from disk: the main chain's and the test network's configuration
/// text where those files exist, and one entry per sibling directory whose file exists.
#[derive(Debug)]
pub struct DiscoveryScan {
    pub main: Option<String>,
    pub test: Option<String>,
    pub siblings: Vec<SiblingConfig>,
}

/// One currency of the main chain's currency list: its hex identifier and its name, where the
/// listing gives them.
#[derive(Debug)]
pub struct CurrencyEntry {
    pub currencyidhex: Option<String>,
    pub name: Option<String>,
}

/// The chains found by a scan, before any display name is looked up.
#[derive(Debug)]
pub struct DiscoveryDraft {
    pub main_chains: Vec<ChainConfig>,
    pub sibling_chains: Vec<ChainConfig>,
}

/// Keeps the list of chains that the last discovery pass found.
#[derive(Debug)]
pub struct ChainDiscovery {
    pub discovered_chains: Vec<ChainConfig>,
}

/// The views of a sequence of chains.
pub open spec fn chain_views(s: Seq<ChainConfig>) -> Seq<ChainView> {
    s.map_values(|c: ChainConfig| c@)
}

/// A chain found in a configuration file, not yet probed.
pub open spec fn fresh_chain(
    name: Seq<char>,
    display_name: Seq<char>,
    credentials: CredentialsView,
) -> ChainView {
    ChainView { name, display_name, credentials, is_active: false }
}

/// The chain that one optional fixed configuration file gives.
pub open spec fn fixed_chain_views(
    content: Option<String>,
    file_name: Seq<char>,
    name: Seq<char>,
    display_name: Seq<char>,
) -> Seq<ChainView> {
    match content {
        Some(text) => match config_credentials(text@, file_name) {
            Some(c) => seq![fresh_chain(name, display_name, c)],
            None => Seq::empty(),
        },
        None => Seq::empty(),
    }
}

/// The main chain, then the test network, for those whose file exists and names a user and
/// a password.
pub open spec fn main_chain_views(scan: DiscoveryScan) -> Seq<ChainView> {
    fixed_chain_views(scan.main, "VRSC.conf"@, "vrsc"@, "VRSC"@) + fixed_chain_views(
        scan.test,
        "vrsctest.conf"@,
        "vrsctest"@,
        "VRSCTEST"@,
    )
}

/// The sibling chains whose file names a user and a password, in the order read, each named
/// and shown by its directory name.
pub open spec fn sibling_views(s: Seq<SiblingConfig>) -> Seq<ChainView>
    decreases s.len(),
{
    if s.len() == 0 {
        Seq::empty()
    } else {
        let rest = sibling_views(s.drop_last());
        let last = s.last();
        match config_credentials(last.content@, config_file_name_of(last.dir_name@)) {
            Some(c) => rest.push(fresh_chain(last.dir_name@, last.dir_name@, c)),
            None => rest,
        }
    }
}

/// The built-in names of the known sibling chains of the main network.
pub open spec fn fallback_name(id: Seq<char>) -> Option<Seq<char>> {
    if id == "e9e10955b7d16031e3d6f55d9c908a038e3ae47d"@ {
        Some("VARRR"@)
    } else if id == "53fe39eea8c06bba32f1a4e20db67e5524f0309d"@ {
        Some("VDEX"@)
    } else if id == "f315367528394674d45277e369629605a1c3ce9f"@ {
        Some("CHIPS"@)
    } else {
        None
    }
}

/// The name that the last complete entry for `id` in a currency list gives.
pub open spec fn resolved_name(entries: Seq<CurrencyEntry>, id: Seq<char>) -> Option<Seq<char>>
    decreases entries.len(),
{
    if entries.len() == 0 {
        None
    } else {
        let e = entries.last();
        match (e.currencyidhex, e.name) {
            (Some(h), Some(n)) => if h@ == id {
                Some(n@)
            } else {
                resolved_name(entries.drop_last(), id)
            },
            _ => resolved_name(entries.drop_last(), id),
        }
    }
}

/// The display name a chain gets: the listed name when the currency list came and names it,
/// else the built-in name, else the one it had.
pub open spec fn enriched_name(
    names: Option<Seq<CurrencyEntry>>,
    id: Seq<char>,
    current: Seq<char>,
) -> Seq<char> {
    let listed = match names {
        Some(es) => resolved_name(es, id),
        None => None,
    };
    match listed {
        Some(n) => n,
        None => match fallback_name(id) {
            Some(f) => f,
            None => current,
        },
    }
}

/// A chain with the display name that `names` gives it.
pub open spec fn enriched_chain(names: Option<Seq<CurrencyEntry>>, c: ChainView) -> ChainView {
    ChainView { display_name: enriched_name(names, c.name, c.display_name), ..c }
}

/// Chains with the display names that `names` gives them.
pub open spec fn enrich(s: Seq<ChainView>, names: Option<Seq<CurrencyEntry>>) -> Seq<ChainView> {
    s.map_values(|c: ChainView| enriched_chain(names, c))
}

/// The list a discovery pass yields for what it read and the currency list it got, if any.
pub open spec fn discovered_views(
    scan: DiscoveryScan,
    names: Option<Seq<CurrencyEntry>>,
) -> Seq<ChainView> {
    main_chain_views(scan) + enrich(sibling_views(scan.siblings@), names)
}

/// The credentials of the first chain named `vrsc`.
pub open spec fn vrsc_credentials_of(s: Seq<ChainView>) -> Option<CredentialsView>
    decreases s.len(),
{
    if s.len() == 0 {
        None
    } else if s[0].name == "vrsc"@ {
        Some(s[0].credentials)
    } else {
        vrsc_credentials_of(s.drop_first())
    }
}

/// The chains that the last probe reached, in order.
pub open spec fn active_views(s: Seq<ChainView>) -> Seq<ChainView>
    decreases s.len(),
{
    if s.len() == 0 {
        Seq::empty()
    } else if s.last().is_active {
        active_views(s.drop_last()).push(s.last())
    } else {
        active_views(s.drop_last())
    }
}

/// A chain with its reachability flag set to `active`.
pub open spec fn with_activity(c: ChainView, active: bool) -> ChainView {
    ChainView { is_active: active, ..c }
}

/// Whether two lists hold the same chains with the same credentials, in the same order, with
/// display names and reachability left aside.
pub open spec fn same_up_to_enrichment(a: Seq<ChainView>, b: Seq<ChainView>) -> bool {
    &&& a.len() == b.len()
    &&& forall|i: int|
        0 <= i < a.len() ==> (#[trigger] a[i]).name == b[i].name && a[i].credentials
            == b[i].credentials
}

/// Unicode lower case of `s`, as `str::to_lowercase` gives it.
pub uninterp spec fn lowercase_of(s: Seq<char>) -> Seq<char>;

/// Relies on `str::to_lowercase`: the lower-case form, which depends on the characters alone.
#[verifier::external_body]
fn lowercase(s: &str) -> (r: String)
    ensures
        r@ == lowercase_of(s@),
{
    s.to_lowercase()
}

/// Why a requested chain cannot be connected to.
#[derive(Debug)]
pub enum ConnectRefusal {
    /// No held chain has the name; the held names are given, in order.
    NotFound(Vec<String>),
    /// The chain is held, but the last probe did not reach it.
    NotActive,
}

/// The index of the first chain named `name`.
pub open spec fn first_named(s: Seq<ChainView>, name: Seq<char>) -> Option<int>
    decreases s.len(),
{
    if s.len() == 0 {
        None
    } else if s[0].name == name {
        Some(0)
    } else {
        match first_named(s.drop_first(), name) {
            Some(i) => Some(i + 1),
            None => None,
        }
    }
}

/// What connecting to the chain named `name` gives: the index of the first chain of that
/// name if the last probe reached it, else a refusal.
pub open spec fn selection_of(s: Seq<ChainView>, name: Seq<char>, r: Result<usize, ConnectRefusal>) -> bool {
    match first_named(s, name) {
        Some(i) => if s[i].is_active {
            r == Ok::<usize, ConnectRefusal>(i as usize)
        } else {
            r matches Err(ConnectRefusal::NotActive)
        },
        None => r matches Err(ConnectRefusal::NotFound(names)) && names@.map_values(
            |n: String| n@,
        ) == s.map_values(|c: ChainView| c.name),
    }
}

fn fixed_chain(content: &Option<String>, file_name: &str, name: &str, display_name: &str) -> (r:
    Vec<ChainConfig>)
    ensures
        chain_views(r@) == fixed_chain_views(*content, file_name@, name@, display_name@),
{
    let mut out: Vec<ChainConfig> = Vec::new();
    match content {
        Some(text) => match parse_config(text.as_str(), file_name) {
            Ok(credentials) => {
                out.push(
                    ChainConfig {
                        name: String::from_str(name),
                        display_name: String::from_str(display_name),
                        credentials,
                        is_active: false,
                    },
                );
            },
            Err(_) => {},
        },
        None => {},
    }
    assert(chain_views(out@) =~= fixed_chain_views(*content, file_name@, name@, display_name@));
    out
}

/// The built-in display name of a known sibling chain of the main network.
pub fn get_fallback_display_name(currencyidhex: &str) -> (r: Option<&'static str>)
    ensures
        match fallback_name(currencyidhex@) {
            Some(n) => r matches Some(s) && s@ == n,
            None => r is None,
        },
{
    if str_eq(currencyidhex, "e9e10955b7d16031e3d6f55d9c908a038e3ae47d") {
        Some("VARRR")
    } else if str_eq(currencyidhex, "53fe39eea8c06bba32f1a4e20db67e5524f0309d") {
        Some("VDEX")
    } else if str_eq(currencyidhex, "f315367528394674d45277e369629605a1c3ce9f") {
        Some("CHIPS")
    } else {
        None
    }
}

fn listed_name(entries: &Vec<CurrencyEntry>, id: &str) -> (r: Option<String>)
    ensures
        match resolved_name(entries@, id@) {
            Some(n) => r matches Some(s) && s@ == n,
            None => r is None,
        },
{
    let mut j = entries.len();
    assert(entries@.subrange(0, j as int) =~= entries@);
    while j > 0
        invariant
            j <= entries.len(),
            resolved_name(entries@, id@) == resolved_name(entries@.subrange(0, j as int), id@),
        decreases j,
    {
        let ghost prefix = entries@.subrange(0, j as int);
        assert(prefix.drop_last() =~= entries@.subrange(0, j - 1));
        let e = &entries[j - 1];
        match (&e.currencyidhex, &e.name) {
            (Some(h), Some(n)) => {
                if str_eq(h.as_str(), id) {
                    return Some(n.clone());
                }
            },
            _ => {},
        }
        j = j - 1;
    }
    None
}

fn enriched_display(names: Option<&Vec<CurrencyEntry>>, id: &str, current: &String) -> (r: String)
    ensures
        r@ == enriched_name(
            match names {
                Some(es) => Some(es@),
                None => None,
            },
            id@,
            current@,
        ),
{
    let listed = match names {
        Some(es) => listed_name(es, id),
        None => None,
    };
    match listed {
        Some(n) => n,
        None => match get_fallback_display_name(id) {
            Some(f) => String::from_str(f),
            None => current.clone(),
        },
    }
}

/// Gives each chain the display name that the currency list, or failing it the built-in
/// table, has for its identifier; a chain named in neither keeps its display name.
pub fn apply_names(chains: &mut Vec<ChainConfig>, names: Option<&Vec<CurrencyEntry>>)
    ensures
        chain_views(final(chains)@) == enrich(
            chain_views(old(chains)@),
            match names {
                Some(es) => Some(es@),
                None => None,
            },
        ),
{
    let ghost ns = match names {
        Some(es) => Some(es@),
        None => None,
    };
    let mut i: usize = 0;
    while i < chains.len()
        invariant
            i <= chains.len(),
            chains.len() == old(chains).len(),
            ns == match names {
                Some(es) => Some(es@),
                None => None,
            },
            forall|k: int|
                0 <= k < i ==> (#[trigger] chains@[k])@ == enriched_chain(ns, old(chains)@[k]@),
            forall|k: int| i <= k < chains.len() ==> #[trigger] chains@[k] == old(chains)@[k],
        decreases chains.len() - i,
    {
        let display = enriched_display(names, chains[i].name.as_str(), &chains[i].display_name);
        chains[i].display_name = display;
        i = i + 1;
    }
    assert(chain_views(chains@) =~= enrich(chain_views(old(chains)@), ns));
}

/// Gives each chain the built-in display name of its identifier, where the table has one.
pub fn apply_fallback_names(chains: &mut Vec<ChainConfig>)
    ensures
        chain_views(final(chains)@) == enrich(chain_views(old(chains)@), None),
{
    apply_names(chains, None);
}

/// The chains for the sibling directories that were read, each named after its directory.
pub fn sibling_chains(siblings: &Vec<SiblingConfig>) -> (r: Vec<ChainConfig>)
    ensures
        chain_views(r@) == sibling_views(siblings@),
{
    let mut out: Vec<ChainConfig> = Vec::new();
    let mut i: usize = 0;
    while i < siblings.len()
        invariant
            i <= siblings.len(),
            chain_views(out@) == sibling_views(siblings@.subrange(0, i as int)),
        decreases siblings.len() - i,
    {
        let s = &siblings[i];
        let file_name = config_file_name(s.dir_name.as_str());
        let ghost prefix = siblings@.subrange(0, i + 1);
        assert(prefix.drop_last() =~= siblings@.subrange(0, i as int));
        match parse_config(s.content.as_str(), file_name.as_str()) {
            Ok(credentials) => {
                out.push(
                    ChainConfig {
                        name: s.dir_name.clone(),
                        display_name: s.dir_name.clone(),
                        credentials,
                        is_active: false,
                    },
                );
            },
            Err(_) => {},
        }
        assert(chain_views(out@) =~= sibling_views(prefix));
        i = i + 1;
    }
    assert(siblings@.subrange(0, i as int) =~= siblings@);
    out
}

fn first_vrsc_credentials(chains: &Vec<ChainConfig>) -> (r: Option<RpcCredentials>)
    ensures
        match vrsc_credentials_of(chain_views(chains@)) {
            Some(c) => r matches Some(x) && x@ == c,
            None => r is None,
        },
{
    let mut i: usize = 0;
    assert(chain_views(chains@).subrange(0, chains@.len() as int) =~= chain_views(chains@));
    while i < chains.len()
        invariant
            i <= chains.len(),
            vrsc_credentials_of(chain_views(chains@)) == vrsc_credentials_of(
                chain_views(chains@).subrange(i as int, chains@.len() as int),
            ),
        decreases chains.len() - i,
    {
        let ghost rest = chain_views(chains@).subrange(i as int, chains@.len() as int);
        assert(rest.drop_first() =~= chain_views(chains@).subrange(i + 1, chains@.len() as int));
        if str_eq(chains[i].name.as_str(), "vrsc") {
            return Some(chains[i].credentials.clone());
        }
        i = i + 1;
    }
    None
}

impl ChainDiscovery {
    pub fn new() -> (r: ChainDiscovery)
        ensures
            r.discovered_chains@.len() == 0,
    {
        ChainDiscovery { discovered_chains: Vec::new() }
    }

    /// Steps one and two of a pass: the main chain and the test network from their fixed
    /// files, then the sibling chains; a file without a user or a password is skipped.
    pub fn scan(scan: &DiscoveryScan) -> (r: DiscoveryDraft)
        ensures
            chain_views(r.main_chains@) == main_chain_views(*scan),
            chain_views(r.sibling_chains@) == sibling_views(scan.siblings@),
    {
        let mut main_chains = fixed_chain(&scan.main, "VRSC.conf", "vrsc", "VRSC");
        let mut test = fixed_chain(&scan.test, "vrsctest.conf", "vrsctest", "VRSCTEST");
        main_chains.append(&mut test);
        assert(chain_views(main_chains@) =~= main_chain_views(*scan));
        DiscoveryDraft { main_chains, sibling_chains: sibling_chains(&scan.siblings) }
    }

    /// The credentials to look sibling names up with: those of the main chain, if the scan
    /// found it.
    pub fn naming_credentials(draft: &DiscoveryDraft) -> (r: Option<RpcCredentials>)
        ensures
            match vrsc_credentials_of(chain_views(draft.main_chains@)) {
                Some(c) => r matches Some(x) && x@ == c,
                None => r is None,
            },
    {
        first_vrsc_credentials(&draft.main_chains)
    }

    /// Step three of a pass: the sibling chains get their display names, from the currency
    /// list when the lookup gave one and from the built-in table otherwise; the result
    /// replaces the held list in full.
    pub fn discover_chains(&mut self, draft: DiscoveryDraft, names: Option<&Vec<CurrencyEntry>>) -> (r:
        Vec<ChainConfig>)
        ensures
            chain_views(r@) == chain_views(draft.main_chains@) + enrich(
                chain_views(draft.sibling_chains@),
                match names {
                    Some(es) => Some(es@),
                    None => None,
                },
            ),
            chain_views(final(self).discovered_chains@) == chain_views(r@),
    {
        let DiscoveryDraft { main_chains, sibling_chains } = draft;
        let mut chains = main_chains;
        let mut siblings = sibling_chains;
        apply_names(&mut siblings, names);
        let ghost first = chains@;
        let ghost second = siblings@;
        chains.append(&mut siblings);
        assert(chain_views(chains@) =~= chain_views(first) + chain_views(second));
        let mut held: Vec<ChainConfig> = Vec::new();
        let mut i: usize = 0;
        while i < chains.len()
            invariant
                i <= chains.len(),
                held@ == chains@.subrange(0, i as int),
            decreases chains.len() - i,
        {
            held.push(chains[i].clone());
            assert(held@ =~= chains@.subrange(0, i + 1));
            i = i + 1;
        }
        assert(held@ =~= chains@);
        self.discovered_chains = held;
        chains
    }

    /// The held chain to connect to for a name that is already in lower case: the first one
    /// of that name, provided the last probe reached it.
    pub fn select_chain_lowered(&self, lowered: &str) -> (r: Result<usize, ConnectRefusal>)
        ensures
            selection_of(chain_views(self.discovered_chains@), lowered@, r),
    {
        let ghost s = chain_views(self.discovered_chains@);
        let mut i: usize = 0;
        while i < self.discovered_chains.len()
            invariant
                i <= self.discovered_chains.len(),
                s == chain_views(self.discovered_chains@),
                forall|k: int| 0 <= k < i ==> (#[trigger] s[k]).name != lowered@,
            decreases self.discovered_chains.len() - i,
        {
            if str_eq(self.discovered_chains[i].name.as_str(), lowered) {
                proof {
                    lemma_first_named(s, lowered@, i as int);
                }
                if self.discovered_chains[i].is_active {
                    return Ok(i);
                } else {
                    return Err(ConnectRefusal::NotActive);
                }
            }
            i = i + 1;
        }
        proof {
            lemma_first_named_none(s, lowered@);
        }
        let mut names: Vec<String> = Vec::new();
        let mut j: usize = 0;
        while j < self.discovered_chains.len()
            invariant
                j <= self.discovered_chains.len(),
                s == chain_views(self.discovered_chains@),
                names@.len() == j,
                forall|k: int| 0 <= k < j ==> (#[trigger] names@[k])@ == s[k].name,
            decreases self.discovered_chains.len() - j,
        {
            names.push(self.discovered_chains[j].name.clone());
            assert(s[j as int] == self.discovered_chains@[j as int]@);
            j = j + 1;
        }
        assert(names@.map_values(|n: String| n@) =~= s.map_values(|c: ChainView| c.name));
        Err(ConnectRefusal::NotFound(names))
    }

    /// The held chain to connect to for a requested name, compared in lower case.
    pub fn select_chain(&self, requested: &str) -> (r: Result<usize, ConnectRefusal>)
        ensures
            selection_of(chain_views(self.discovered_chains@), lowercase_of(requested@), r),
    {
        let lowered = lowercase(requested);
        self.select_chain_lowered(lowered.as_str())
    }

    /// The credentials of the main chain in the held list.
    pub fn get_vrsc_credentials(&self) -> (r: Result<RpcCredentials, RpcError>)
        ensures
            match vrsc_credentials_of(chain_views(self.discovered_chains@)) {
                Some(c) => r matches Ok(x) && x@ == c,
                None => r matches Err(e) && e@ == RpcErrorView::Configuration(
                    "VRSC mainnet not found"@,
                ),
            },
    {
        match first_vrsc_credentials(&self.discovered_chains) {
            Some(c) => Ok(c),
            None => Err(RpcError::configuration("VRSC mainnet not found")),
        }
    }

    /// Records the outcome of one probe per held chain, in order: a chain is active exactly
    /// when its probe succeeded; chains past the end of `outcomes` keep their flag.
    pub fn record_connectivity(&mut self, outcomes: &Vec<bool>)
        ensures
            final(self).discovered_chains@.len() == old(self).discovered_chains@.len(),
            forall|i: int|
                0 <= i < old(self).discovered_chains@.len() ==> (
                #[trigger] final(self).discovered_chains@[i])@ == with_activity(
                    old(self).discovered_chains@[i]@,
                    if i < outcomes@.len() {
                        outcomes@[i]
                    } else {
                        old(self).discovered_chains@[i].is_active
                    },
                ),
    {
        let mut i: usize = 0;
        while i < self.discovered_chains.len() && i < outcomes.len()
            invariant
                i <= self.discovered_chains.len(),
                i <= outcomes.len(),
                self.discovered_chains.len() == old(self).discovered_chains.len(),
                forall|k: int|
                    0 <= k < i ==> (#[trigger] self.discovered_chains@[k])@ == with_activity(
                        old(self).discovered_chains@[k]@,
                        outcomes@[k],
                    ),
                forall|k: int|
                    i <= k < self.discovered_chains.len() ==> #[trigger] self.discovered_chains@[k]
                        == old(self).discovered_chains@[k],
            decreases self.discovered_chains.len() - i,
        {
            self.discovered_chains[i].is_active = outcomes[i];
            i = i + 1;
        }
        assert forall|k: int| 0 <= k < self.discovered_chains@.len() implies (
        #[trigger] self.discovered_chains@[k])@ == with_activity(
            old(self).discovered_chains@[k]@,
            if k < outcomes@.len() {
                outcomes@[k]
            } else {
                old(self).discovered_chains@[k].is_active
            },
        ) by {
            if k >= i {
                assert(with_activity(
                    old(self).discovered_chains@[k]@,
                    old(self).discovered_chains@[k].is_active,
                ) == old(self).discovered_chains@[k]@);
            }
        }
    }

    /// The chains that the last probe reached, in order.
    pub fn get_active_chains(&self) -> (r: Vec<&ChainConfig>)
        ensures
            r@.map_values(|c: &ChainConfig| c@) == active_views(
                chain_views(self.discovered_chains@),
            ),
    {
        let mut out: Vec<&ChainConfig> = Vec::new();
        let mut i: usize = 0;
        while i < self.discovered_chains.len()
            invariant
                i <= self.discovered_chains.len(),
                out@.map_values(|c: &ChainConfig| c@) == active_views(
                    chain_views(self.discovered_chains@.subrange(0, i as int)),
                ),
            decreases self.discovered_chains.len() - i,
        {
            let ghost before = chain_views(self.discovered_chains@.subrange(0, i as int));
            assert(chain_views(self.discovered_chains@.subrange(0, i + 1)).drop_last() =~= before);
            let c = &self.discovered_chains[i];
            if c.is_active {
                out.push(c);
            }
            assert(out@.map_values(|c: &ChainConfig| c@) =~= active_views(
                chain_views(self.discovered_chains@.subrange(0, i + 1)),
            ));
            i = i + 1;
        }
        assert(self.discovered_chains@.subrange(0, i as int) =~= self.discovered_chains@);
        out
    }
}

proof fn lemma_first_named(s: Seq<ChainView>, name: Seq<char>, i: int)
    requires
        0 <= i < s.len(),
        s[i].name == name,
        forall|k: int| 0 <= k < i ==> (#[trigger] s[k]).name != name,
    ensures
        first_named(s, name) == Some(i),
    decreases i,
{
    if i > 0 {
        assert forall|k: int| 0 <= k < i - 1 implies (#[trigger] s.drop_first()[k]).name
            != name by {
            assert(s.drop_first()[k] == s[k + 1]);
        }
        lemma_first_named(s.drop_first(), name, i - 1);
    }
}

proof fn lemma_first_named_none(s: Seq<ChainView>, name: Seq<char>)
    requires
        forall|k: int| 0 <= k < s.len() ==> (#[trigger] s[k]).name != name,
    ensures
        first_named(s, name) is None,
    decreases s.len(),
{
    if s.len() > 0 {
        assert forall|k: int| 0 <= k < s.len() - 1 implies (#[trigger] s.drop_first()[k]).name
            != name by {
            assert(s.drop_first()[k] == s[k + 1]);
        }
        lemma_first_named_none(s.drop_first(), name);
    }
}

/// Two discovery passes over the same files yield the same chains with the same credentials,
/// in the same order, whatever each name lookup returned.
pub proof fn lemma_discovery_repeatable(
    scan: DiscoveryScan,
    first: Option<Seq<CurrencyEntry>>,
    second: Option<Seq<CurrencyEntry>>,
)
    ensures
        same_up_to_enrichment(discovered_views(scan, first), discovered_views(scan, second)),
{
    let a = discovered_views(scan, first);
    let b = discovered_views(scan, second);
    let m = main_chain_views(scan);
    assert forall|i: int| 0 <= i < a.len() implies (#[trigger] a[i]).name == b[i].name
        && a[i].credentials == b[i].credentials by {
        if i >= m.len() {
            assert(a[i] == enriched_chain(first, sibling_views(scan.siblings@)[i - m.len()]));
            assert(b[i] == enriched_chain(second, sibling_views(scan.siblings@)[i - m.len()]));
        }
    }
}

} // verus!
