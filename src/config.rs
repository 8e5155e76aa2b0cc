use vstd::prelude::*;
use vstd::string::{StrSliceExecFns, StringExecFns};
use crate::error::{RpcError, RpcErrorView};
use crate::text::{chars_of, range_starts_with, str_eq, trim, trim_bounds};
use crate::types::{ChainConfig, CredentialsView, RpcCredentials};

verus! {

/// The pieces of `s` between its `'\n'` characters, in order.
pub open spec fn split_lines(s: Seq<char>) -> Seq<Seq<char>>
    decreases s.len(),
{
    if s.len() == 0 {
        seq![Seq::<char>::empty()]
    } else {
        let rest = split_lines(s.drop_last());
        if s.last() == '\n' {
            rest.push(Seq::<char>::empty())
        } else {
            rest.update(rest.len() - 1, rest.last().push(s.last()))
        }
    }
}

/// What follows `key` on a line, once the line is trimmed, if the line starts with it.
pub open spec fn line_value(line: Seq<char>, key: Seq<char>) -> Option<Seq<char>> {
    let t = trim(line);
    if key.is_prefix_of(t) {
        Some(t.subrange(key.len() as int, t.len() as int))
    } else {
        None
    }
}

/// The value that the last line setting `key` gives it.
pub open spec fn last_setting(lines: Seq<Seq<char>>, key: Seq<char>) -> Option<Seq<char>>
    decreases lines.len(),
{
    if lines.len() == 0 {
        None
    } else {
        match line_value(lines.last(), key) {
            Some(v) => Some(v),
            None => last_setting(lines.drop_last(), key),
        }
    }
}

pub open spec fn is_digit(c: char) -> bool {
    '0' <= c && c <= '9'
}

/// Whether every character of `s` is a decimal digit.
pub open spec fn all_digits(s: Seq<char>) -> bool {
    forall|i: int| 0 <= i < s.len() ==> is_digit(#[trigger] s[i])
}

/// The number that a string of decimal digits spells.
pub open spec fn digits_value(s: Seq<char>) -> nat
    decreases s.len(),
{
    if s.len() == 0 {
        0
    } else {
        digits_value(s.drop_last()) * 10 + ((s.last() as u32) - 48) as nat
    }
}

/// What `str::parse::<u16>` gives: an optional `+`, then one or more decimal digits whose
/// value fits in 16 bits.
pub open spec fn parse_u16(s: Seq<char>) -> Option<u16> {
    let d = if s.len() > 0 && s[0] == '+' {
        s.drop_first()
    } else {
        s
    };
    if d.len() > 0 && all_digits(d) && digits_value(d) <= 65535 {
        Some(digits_value(d) as u16)
    } else {
        None
    }
}

/// The port that the last `rpcport=` line with a valid number gives.
pub open spec fn last_port(lines: Seq<Seq<char>>) -> Option<u16>
    decreases lines.len(),
{
    if lines.len() == 0 {
        None
    } else {
        match line_value(lines.last(), "rpcport="@) {
            Some(v) => match parse_u16(v) {
                Some(p) => Some(p),
                None => last_port(lines.drop_last()),
            },
            None => last_port(lines.drop_last()),
        }
    }
}

/// The port that a chain uses when its configuration names none.
pub open spec fn default_port_of(chain_name: Seq<char>) -> u16 {
    if chain_name == "vrsc"@ {
        27486
    } else if chain_name == "vrsctest"@ {
        18843
    } else {
        27486
    }
}

/// The port used when a configuration file of this name names none: the main chain's and the
/// test network's own defaults, and the main chain's for any other file.
pub open spec fn file_default_port(file_name: Seq<char>) -> u16 {
    if file_name == "VRSC.conf"@ {
        default_port_of("vrsc"@)
    } else if file_name == "vrsctest.conf"@ {
        default_port_of("vrsctest"@)
    } else {
        27486
    }
}

/// The credentials that a configuration file gives, if it names a user and a password.
pub open spec fn config_credentials(content: Seq<char>, file_name: Seq<char>) -> Option<
    CredentialsView,
> {
    let lines = split_lines(content);
    match (last_setting(lines, "rpcuser="@), last_setting(lines, "rpcpassword="@)) {
        (Some(u), Some(p)) => Some(
            CredentialsView {
                username: u,
                password: p,
                host: "127.0.0.1"@,
                port: match last_port(lines) {
                    Some(n) => n,
                    None => file_default_port(file_name),
                },
            },
        ),
        _ => None,
    }
}

/// The failure that reading a configuration file without a user or a password gives.
pub open spec fn config_failure(content: Seq<char>) -> RpcErrorView {
    if last_setting(split_lines(content), "rpcuser="@) is None {
        RpcErrorView::Configuration("rpcuser not found in config file"@)
    } else {
        RpcErrorView::Configuration("rpcpassword not found in config file"@)
    }
}

proof fn lemma_split_lines_nonempty(s: Seq<char>)
    ensures
        split_lines(s).len() >= 1,
    decreases s.len(),
{
    if s.len() > 0 {
        lemma_split_lines_nonempty(s.drop_last());
    }
}

/// Extending the scanned text by one character either closes the current line or grows it.
proof fn lemma_split_lines_step(v: Seq<char>, i: int, start: int)
    requires
        0 <= start <= i < v.len(),
        split_lines(v.subrange(0, i)).last() == v.subrange(start, i),
    ensures
        v[i] == '\n' ==> split_lines(v.subrange(0, i + 1)).drop_last() == split_lines(
            v.subrange(0, i),
        ) && split_lines(v.subrange(0, i + 1)).last() == v.subrange(i + 1, i + 1),
        v[i] != '\n' ==> split_lines(v.subrange(0, i + 1)).drop_last() == split_lines(
            v.subrange(0, i),
        ).drop_last() && split_lines(v.subrange(0, i + 1)).last() == v.subrange(start, i + 1),
{
    lemma_split_lines_nonempty(v.subrange(0, i));
    assert(v.subrange(0, i + 1).drop_last() =~= v.subrange(0, i));
    assert(v.subrange(0, i + 1).last() == v[i]);
    let rest = split_lines(v.subrange(0, i));
    if v[i] == '\n' {
        assert(split_lines(v.subrange(0, i + 1)) == rest.push(Seq::<char>::empty()));
        assert(rest.push(Seq::<char>::empty()).drop_last() =~= rest);
        assert(v.subrange(i + 1, i + 1) =~= Seq::<char>::empty());
    } else {
        let next = rest.update(rest.len() - 1, rest.last().push(v[i]));
        assert(split_lines(v.subrange(0, i + 1)) == next);
        assert(next.drop_last() =~= rest.drop_last());
        assert(v.subrange(start, i + 1) =~= v.subrange(start, i).push(v[i]));
    }
}

/// `v[lo..hi]` with the value of `key`, as bounds into `v`, if the trimmed line starts with it.
fn line_value_bounds(v: &Vec<char>, lo: usize, hi: usize, key: &Vec<char>) -> (r: Option<
    (usize, usize),
>)
    requires
        lo <= hi <= v.len(),
    ensures
        match r {
            Some((a, b)) => a <= b <= v.len() && line_value(
                v@.subrange(lo as int, hi as int),
                key@,
            ) == Some(v@.subrange(a as int, b as int)),
            None => line_value(v@.subrange(lo as int, hi as int), key@) is None,
        },
{
    let (a, b) = trim_bounds(v, lo, hi);
    if range_starts_with(v, a, b, key) {
        let ghost t = v@.subrange(a as int, b as int);
        assert(t.subrange(key@.len() as int, t.len() as int) =~= v@.subrange(
            a + key@.len(),
            b as int,
        ));
        Some((a + key.len(), b))
    } else {
        None
    }
}

/// Reads `v[lo..hi]` as a port number, as `str::parse::<u16>` does.
fn parse_port(v: &Vec<char>, lo: usize, hi: usize) -> (r: Option<u16>)
    requires
        lo <= hi <= v.len(),
    ensures
        r == parse_u16(v@.subrange(lo as int, hi as int)),
{
    let ghost s = v@.subrange(lo as int, hi as int);
    let mut i = lo;
    if i < hi && v[i] == '+' {
        i = i + 1;
    }
    let ghost d = v@.subrange(i as int, hi as int);
    assert(d =~= (if s.len() > 0 && s[0] == '+' {
        s.drop_first()
    } else {
        s
    }));
    if i == hi {
        return None;
    }
    let start = i;
    let mut acc: u32 = 0;
    while i < hi
        invariant
            lo <= start <= i <= hi <= v.len(),
            d == v@.subrange(start as int, hi as int),
            s == v@.subrange(lo as int, hi as int),
            d == (if s.len() > 0 && s[0] == '+' {
                s.drop_first()
            } else {
                s
            }),
            forall|k: int| start <= k < i ==> is_digit(#[trigger] v@[k]),
            acc as nat == if digits_value(v@.subrange(start as int, i as int)) > 65535 {
                65536
            } else {
                digits_value(v@.subrange(start as int, i as int))
            },
        decreases hi - i,
    {
        let c = v[i];
        if !('0' <= c && c <= '9') {
            assert(d[i - start] == c);
            assert(!is_digit(d[i - start]));
            assert(!all_digits(d));
            return None;
        }
        let ghost prev = v@.subrange(start as int, i as int);
        assert(v@.subrange(start as int, i + 1).drop_last() =~= prev);
        let digit: u32 = (c as u32) - 48;
        if acc > 65535 {
            acc = 65536;
        } else {
            acc = acc * 10 + digit;
            if acc > 65535 {
                acc = 65536;
            }
        }
        i = i + 1;
    }
    assert(v@.subrange(start as int, i as int) =~= d);
    if acc > 65535 {
        None
    } else {
        Some(acc as u16)
    }
}

/// The port used when a configuration file of this name names none.
pub fn default_port_for_file(file_name: &str) -> (r: u16)
    ensures
        r == file_default_port(file_name@),
{
    proof {
        reveal_strlit("vrsc");
        reveal_strlit("vrsctest");
    }
    if str_eq(file_name, "VRSC.conf") {
        ChainConfig::default_port("vrsc")
    } else if str_eq(file_name, "vrsctest.conf") {
        ChainConfig::default_port("vrsctest")
    } else {
        27486
    }
}

impl ChainConfig {
    /// The port that a chain uses when its configuration names none.
    pub fn default_port(chain_name: &str) -> (r: u16)
        ensures
            r == default_port_of(chain_name@),
    {
        if str_eq(chain_name, "vrsc") {
            27486
        } else if str_eq(chain_name, "vrsctest") {
            18843
        } else {
            27486
        }
    }
}

/// Whether the found bounds and port agree with the settings of the lines in `done`.
pub open spec fn settings_match(
    v: Seq<char>,
    done: Seq<Seq<char>>,
    user: Option<(usize, usize)>,
    pass: Option<(usize, usize)>,
    port: Option<u16>,
) -> bool {
    &&& match user {
        Some((a, b)) => a <= b <= v.len() && last_setting(done, "rpcuser="@) == Some(
            v.subrange(a as int, b as int),
        ),
        None => last_setting(done, "rpcuser="@) is None,
    }
    &&& match pass {
        Some((a, b)) => a <= b <= v.len() && last_setting(done, "rpcpassword="@) == Some(
            v.subrange(a as int, b as int),
        ),
        None => last_setting(done, "rpcpassword="@) is None,
    }
    &&& port == last_port(done)
}

/// Takes the line `v[lo..hi]` into account, after the lines in `done`.
fn absorb_line(
    v: &Vec<char>,
    lo: usize,
    hi: usize,
    keys: &(Vec<char>, Vec<char>, Vec<char>),
    Ghost(done): Ghost<Seq<Seq<char>>>,
    user: &mut Option<(usize, usize)>,
    pass: &mut Option<(usize, usize)>,
    port: &mut Option<u16>,
)
    requires
        lo <= hi <= v.len(),
        keys.0@ == "rpcuser="@,
        keys.1@ == "rpcpassword="@,
        keys.2@ == "rpcport="@,
        settings_match(v@, done, *old(user), *old(pass), *old(port)),
    ensures
        settings_match(
            v@,
            done.push(v@.subrange(lo as int, hi as int)),
            *final(user),
            *final(pass),
            *final(port),
        ),
{
    let ghost after = done.push(v@.subrange(lo as int, hi as int));
    assert(after.drop_last() =~= done);
    match line_value_bounds(v, lo, hi, &keys.0) {
        Some(b) => {
            *user = Some(b);
        },
        None => {},
    }
    match line_value_bounds(v, lo, hi, &keys.1) {
        Some(b) => {
            *pass = Some(b);
        },
        None => {},
    }
    match line_value_bounds(v, lo, hi, &keys.2) {
        Some((a, b)) => {
            match parse_port(v, a, b) {
                Some(p) => {
                    *port = Some(p);
                },
                None => {},
            }
        },
        None => {},
    }
}

/// Reads a daemon's configuration file: the last `rpcuser=`, `rpcpassword=` and `rpcport=`
/// lines count, each line trimmed first; the host is always the loopback address.
pub fn parse_config(content: &str, file_name: &str) -> (r: Result<RpcCredentials, RpcError>)
    ensures
        r is Ok <==> (last_setting(split_lines(content@), "rpcuser="@) is Some && last_setting(
            split_lines(content@),
            "rpcpassword="@,
        ) is Some),
        r matches Ok(c) ==> c.host@ == "127.0.0.1"@,
        match config_credentials(content@, file_name@) {
            Some(c) => r matches Ok(x) && x@ == c,
            None => r matches Err(e) && e@ == config_failure(content@),
        },
{
    let v = chars_of(content);
    let keys = (chars_of("rpcuser="), chars_of("rpcpassword="), chars_of("rpcport="));
    let mut user: Option<(usize, usize)> = None;
    let mut pass: Option<(usize, usize)> = None;
    let mut port: Option<u16> = None;
    let mut start: usize = 0;
    let mut i: usize = 0;
    assert(v@.subrange(0, 0) =~= Seq::<char>::empty());
    assert(split_lines(v@.subrange(0, 0)).drop_last() =~= Seq::<Seq<char>>::empty());
    while i < v.len()
        invariant
            start <= i <= v.len(),
            v@ == content@,
            keys.0@ == "rpcuser="@,
            keys.1@ == "rpcpassword="@,
            keys.2@ == "rpcport="@,
            split_lines(v@.subrange(0, i as int)).last() == v@.subrange(start as int, i as int),
            settings_match(
                v@,
                split_lines(v@.subrange(0, i as int)).drop_last(),
                user,
                pass,
                port,
            ),
        decreases v.len() - i,
    {
        proof {
            lemma_split_lines_step(v@, i as int, start as int);
            lemma_split_lines_nonempty(v@.subrange(0, i as int));
        }
        if v[i] == '\n' {
            let ghost done = split_lines(v@.subrange(0, i as int)).drop_last();
            assert(done.push(v@.subrange(start as int, i as int)) =~= split_lines(
                v@.subrange(0, i as int),
            ));
            absorb_line(&v, start, i, &keys, Ghost(done), &mut user, &mut pass, &mut port);
            start = i + 1;
        }
        i = i + 1;
    }
    proof {
        lemma_split_lines_nonempty(v@);
        assert(v@.subrange(0, i as int) =~= v@);
        assert(split_lines(v@).drop_last().push(v@.subrange(start as int, i as int))
            =~= split_lines(v@));
    }
    absorb_line(
        &v,
        start,
        i,
        &keys,
        Ghost(split_lines(v@).drop_last()),
        &mut user,
        &mut pass,
        &mut port,
    );
    let port_number = match port {
        Some(p) => p,
        None => default_port_for_file(file_name),
    };
    match (user, pass) {
        (Some((ua, ub)), Some((pa, pb))) => {
            let username = String::from_str(content.substring_char(ua, ub));
            let password = String::from_str(content.substring_char(pa, pb));
            let host = String::from_str("127.0.0.1");
            Ok(RpcCredentials { username, password, host, port: port_number })
        },
        (None, _) => Err(RpcError::configuration("rpcuser not found in config file")),
        (_, None) => Err(RpcError::configuration("rpcpassword not found in config file")),
    }
}

/// A configuration without a usable `rpcport=` line gets the main chain's port in the main
/// chain's file, the test network's own port in the test network's file, and the main chain's
/// port in any other file.
pub proof fn lemma_default_ports(content: Seq<char>, file_name: Seq<char>)
    requires
        config_credentials(content, file_name) is Some,
        last_port(split_lines(content)) is None,
    ensures
        (config_credentials(content, file_name) matches Some(c) && c.port == (if file_name
            == "vrsctest.conf"@ {
            18843u16
        } else {
            27486u16
        })),
{
    reveal_strlit("vrsc");
    reveal_strlit("vrsctest");
    reveal_strlit("VRSC.conf");
    reveal_strlit("vrsctest.conf");
    assert("vrsc"@.len() != "vrsctest"@.len());
    assert("VRSC.conf"@.len() != "vrsctest.conf"@.len());
}

} // verus!
