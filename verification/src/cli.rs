//! Command-line flag parsing for the server: `--key=value` and
//! `--key value` flags, `--help`/`-h`, and kept positional arguments.

use vstd::prelude::*;
use crate::auth::push_chars;
use crate::strings::{chars_of, string_from_chars};

verus! {

/// Authentication backends the server can use.
#[derive(Debug, Clone, Copy, PartialEq, Eq, Structural)]
pub enum AuthDbMode {
    /// SQLite3 file inside the world directory.
    Sqlite3,
    /// Process memory only (no persistence).
    Memory,
    /// Remote PostgreSQL database.
    Postgres,
}

/// Canonical command-line name of a mode.
pub open spec fn mode_name(m: AuthDbMode) -> Seq<char> {
    match m {
        AuthDbMode::Sqlite3 => seq!['s', 'q', 'l', 'i', 't', 'e', '3'],
        AuthDbMode::Memory => seq!['m', 'e', 'm', 'o', 'r', 'y'],
        AuthDbMode::Postgres => seq!['p', 'o', 's', 't', 'g', 'r', 'e', 's'],
    }
}

/// The mode a command-line value names, accepting aliases.
pub open spec fn mode_of(s: Seq<char>) -> Option<AuthDbMode> {
    if s == seq!['s', 'q', 'l', 'i', 't', 'e', '3'] || s == seq!['s', 'q', 'l', 'i', 't', 'e'] {
        Some(AuthDbMode::Sqlite3)
    } else if s == seq!['m', 'e', 'm', 'o', 'r', 'y'] || s == seq!['m', 'e', 'm'] {
        Some(AuthDbMode::Memory)
    } else if s == seq!['p', 'o', 's', 't', 'g', 'r', 'e', 's'] || s == seq!['p', 'o', 's', 't', 'g', 'r', 'e', 's', 'q', 'l']
        || s == seq!['p', 'g'] {
        Some(AuthDbMode::Postgres)
    } else {
        None
    }
}

impl AuthDbMode {
    /// Canonical name used on the command line.
    pub fn as_str(&self) -> (s: &'static str)
        ensures
            s@ == mode_name(*self),
    {
        match self {
            AuthDbMode::Sqlite3 => {
                let s = "sqlite3";
                proof {
                    reveal_strlit("sqlite3");
                }
                assert(s@ =~= mode_name(*self));
                s
            },
            AuthDbMode::Memory => {
                let s = "memory";
                proof {
                    reveal_strlit("memory");
                }
                assert(s@ =~= mode_name(*self));
                s
            },
            AuthDbMode::Postgres => {
                let s = "postgres";
                proof {
                    reveal_strlit("postgres");
                }
                assert(s@ =~= mode_name(*self));
                s
            },
        }
    }

    /// Short description shown in `--help` output.
    pub fn description(&self) -> (s: &'static str)
        ensures
            s@ == mode_description(*self)@,
    {
        match self {
            AuthDbMode::Sqlite3 => "SQLite3 file inside the world directory (default)",
            AuthDbMode::Memory => "in-memory store, lost when the server stops",
            AuthDbMode::Postgres => "remote PostgreSQL server",
        }
    }
}

/// Description of a mode.
pub open spec fn mode_description(m: AuthDbMode) -> &'static str {
    match m {
        AuthDbMode::Sqlite3 => "SQLite3 file inside the world directory (default)",
        AuthDbMode::Memory => "in-memory store, lost when the server stops",
        AuthDbMode::Postgres => "remote PostgreSQL server",
    }
}

/// Errors of command-line parsing.
#[derive(Debug)]
pub enum CliError {
    /// A flag received a value that is not valid.
    InvalidValue { flag: String, value: String, hint: String },
    /// A flag that needs a value came last.
    MissingValue { flag: String },
    /// An unknown flag was passed.
    UnknownFlag { flag: String },
    /// `--help` was asked for; the caller prints usage and exits.
    HelpRequested,
}

/// Plain-value view of a [`CliError`].
pub enum CliErrorView {
    InvalidValue { flag: Seq<char>, value: Seq<char>, hint: Seq<char> },
    MissingValue { flag: Seq<char> },
    UnknownFlag { flag: Seq<char> },
    HelpRequested,
}

impl View for CliError {
    type V = CliErrorView;

    open spec fn view(&self) -> CliErrorView {
        match self {
            CliError::InvalidValue { flag, value, hint } => CliErrorView::InvalidValue {
                flag: flag@,
                value: value@,
                hint: hint@,
            },
            CliError::MissingValue { flag } => CliErrorView::MissingValue { flag: flag@ },
            CliError::UnknownFlag { flag } => CliErrorView::UnknownFlag { flag: flag@ },
            CliError::HelpRequested => CliErrorView::HelpRequested,
        }
    }
}

/// `--auth-db-mode`
pub open spec fn mode_flag() -> Seq<char> {
    seq!['-', '-', 'a', 'u', 't', 'h', '-', 'd', 'b', '-', 'm', 'o', 'd', 'e']
}

/// `--world-dir`
pub open spec fn world_flag() -> Seq<char> {
    seq!['-', '-', 'w', 'o', 'r', 'l', 'd', '-', 'd', 'i', 'r']
}

/// Hint of an invalid mode value.
pub open spec fn mode_hint() -> Seq<char> {
    "expected one of: sqlite3, memory, postgres"@
}

/// The error for an unknown mode value `v`.
pub open spec fn invalid_mode(v: Seq<char>) -> CliErrorView {
    CliErrorView::InvalidValue { flag: mode_flag(), value: v, hint: mode_hint() }
}

fn lit(s: &str) -> (v: Vec<char>)
    ensures
        v@ == s@,
{
    chars_of(s)
}

fn chars_equal(a: &[char], b: &[char]) -> (r: bool)
    ensures
        r == (a@ == b@),
{
    if a.len() != b.len() {
        return false;
    }
    let mut i: usize = 0;
    while i < a.len()
        invariant
            a@.len() == b@.len(),
            i <= a@.len(),
            forall|j: int| 0 <= j < i ==> a@[j] == b@[j],
        decreases a.len() - i,
    {
        if a[i] != b[i] {
            return false;
        }
        i = i + 1;
    }
    assert(a@ =~= b@);
    true
}

fn chars_from(a: &[char], k: usize) -> (v: Vec<char>)
    requires
        k <= a@.len(),
    ensures
        v@ == a@.skip(k as int),
{
    let mut v: Vec<char> = Vec::new();
    let mut i = k;
    while i < a.len()
        invariant
            k <= i <= a@.len(),
            v@ == a@.subrange(k as int, i as int),
        decreases a.len() - i,
    {
        v.push(a[i]);
        i = i + 1;
        assert(v@ =~= a@.subrange(k as int, i as int));
    }
    assert(a@.skip(k as int) =~= a@.subrange(k as int, a@.len() as int));
    v
}

fn is_prefix(p: &[char], s: &[char]) -> (r: bool)
    ensures
        r == (p@.len() <= s@.len() && s@.take(p@.len() as int) == p@),
{
    if p.len() > s.len() {
        return false;
    }
    let mut i: usize = 0;
    while i < p.len()
        invariant
            p@.len() <= s@.len(),
            i <= p@.len(),
            forall|j: int| 0 <= j < i ==> p@[j] == s@[j],
        decreases p.len() - i,
    {
        if p[i] != s[i] {
            assert(s@.take(p@.len() as int)[i as int] != p@[i as int]);
            return false;
        }
        i = i + 1;
    }
    assert(s@.take(p@.len() as int) =~= p@);
    true
}

/// Parses a mode value, accepting aliases.
pub fn parse_mode(s: &str) -> (r: Result<AuthDbMode, CliError>)
    ensures
        match mode_of(s@) {
            Some(m) => r == Ok::<AuthDbMode, CliError>(m),
            None => r matches Err(e) && e@ == invalid_mode(s@),
        },
{
    let v = chars_of(s);
    proof {
        reveal_strlit("sqlite3");
        reveal_strlit("sqlite");
        reveal_strlit("memory");
        reveal_strlit("mem");
        reveal_strlit("postgres");
        reveal_strlit("postgresql");
        reveal_strlit("pg");
        assert("sqlite3"@ =~= seq!['s', 'q', 'l', 'i', 't', 'e', '3']);
        assert("sqlite"@ =~= seq!['s', 'q', 'l', 'i', 't', 'e']);
        assert("memory"@ =~= seq!['m', 'e', 'm', 'o', 'r', 'y']);
        assert("mem"@ =~= seq!['m', 'e', 'm']);
        assert("postgres"@ =~= seq!['p', 'o', 's', 't', 'g', 'r', 'e', 's']);
        assert("postgresql"@ =~= seq!['p', 'o', 's', 't', 'g', 'r', 'e', 's', 'q', 'l']);
        assert("pg"@ =~= seq!['p', 'g']);
    }
    if chars_equal(v.as_slice(), lit("sqlite3").as_slice()) || chars_equal(v.as_slice(), lit("sqlite").as_slice()) {
        return Ok(AuthDbMode::Sqlite3);
    }
    if chars_equal(v.as_slice(), lit("memory").as_slice()) || chars_equal(v.as_slice(), lit("mem").as_slice()) {
        return Ok(AuthDbMode::Memory);
    }
    if chars_equal(v.as_slice(), lit("postgres").as_slice()) || chars_equal(v.as_slice(), lit("postgresql").as_slice())
        || chars_equal(v.as_slice(), lit("pg").as_slice()) {
        return Ok(AuthDbMode::Postgres);
    }
    let flag = lit("--auth-db-mode");
    let hint = "expected one of: sqlite3, memory, postgres";
    proof {
        reveal_strlit("--auth-db-mode");
        assert(flag@ =~= mode_flag());
    }
    Err(CliError::InvalidValue {
        flag: string_from_chars(flag.as_slice()),
        value: string_from_chars(v.as_slice()),
        hint: hint.to_owned(),
    })
}

impl core::str::FromStr for AuthDbMode {
    type Err = CliError;

    fn from_str(s: &str) -> (r: Result<Self, Self::Err>)
        ensures
            match mode_of(s@) {
                Some(m) => r == Ok::<AuthDbMode, CliError>(m),
                None => r matches Err(e) && e@ == invalid_mode(s@),
            },
    {
        parse_mode(s)
    }
}

/// Parsed server configuration.
#[derive(Debug, Clone)]
pub struct ServerConfig {
    /// Authentication backend chosen with `--auth-db-mode`.
    pub auth_db_mode: AuthDbMode,
    /// Positional arguments, and world directories as `--world-dir=<dir>`.
    pub positionals: Vec<String>,
}

impl ServerConfig {
    /// Configuration used when no flags are given.
    pub fn default() -> (c: Self)
        ensures
            c.auth_db_mode == AuthDbMode::Sqlite3,
            c.positionals@.len() == 0,
    {
        ServerConfig { auth_db_mode: AuthDbMode::Sqlite3, positionals: Vec::new() }
    }
}

/// Result of parsing the arguments from index `i` on, with the mode and
/// positionals gathered so far.
pub open spec fn parse_from(args: Seq<Seq<char>>, i: int, mode: AuthDbMode, pos: Seq<Seq<char>>) -> Result<
    (AuthDbMode, Seq<Seq<char>>),
    CliErrorView,
>
    decreases args.len() - i,
{
    if i < 0 || i >= args.len() {
        Ok((mode, pos))
    } else {
        let a = args[i];
        if a == seq!['-', 'h'] || a == seq!['-', '-', 'h', 'e', 'l', 'p'] {
            Err(CliErrorView::HelpRequested)
        } else if a == mode_flag() {
            if i + 1 >= args.len() {
                Err(CliErrorView::MissingValue { flag: mode_flag() })
            } else {
                match mode_of(args[i + 1]) {
                    Some(m) => parse_from(args, i + 2, m, pos),
                    None => Err(invalid_mode(args[i + 1])),
                }
            }
        } else if a == world_flag() {
            if i + 1 >= args.len() {
                Err(CliErrorView::MissingValue { flag: world_flag() })
            } else {
                parse_from(args, i + 2, mode, pos.push(world_flag() + seq!['='] + args[i + 1]))
            }
        } else if a.len() >= mode_flag().len() + 1 && a.take((mode_flag().len() + 1) as int) == mode_flag() + seq!['='] {
            match mode_of(a.skip((mode_flag().len() + 1) as int)) {
                Some(m) => parse_from(args, i + 1, m, pos),
                None => Err(invalid_mode(a.skip((mode_flag().len() + 1) as int))),
            }
        } else if a.len() >= world_flag().len() + 1 && a.take((world_flag().len() + 1) as int) == world_flag() + seq!['='] {
            parse_from(args, i + 1, mode, pos.push(world_flag() + seq!['='] + a.skip((world_flag().len() + 1) as int)))
        } else if a.len() >= 2 && a.take(2) == seq!['-', '-'] {
            Err(CliErrorView::UnknownFlag { flag: a })
        } else {
            parse_from(args, i + 1, mode, pos.push(a))
        }
    }
}

/// Result of parsing a whole argument list.
pub open spec fn parsed_args(args: Seq<Seq<char>>) -> Result<(AuthDbMode, Seq<Seq<char>>), CliErrorView> {
    parse_from(args, 0, AuthDbMode::Sqlite3, Seq::empty())
}

/// Views of a list of strings.
pub open spec fn views_of(v: Seq<String>) -> Seq<Seq<char>> {
    v.map_values(|s: String| s@)
}

/// Views of a list of string slices.
pub open spec fn str_views(v: Seq<&str>) -> Seq<Seq<char>> {
    v.map_values(|s: &str| s@)
}

/// Parse command-line arguments (without the program name) into a
/// [`ServerConfig`]; `--help`/`-h` gives [`CliError::HelpRequested`].
pub fn parse_args(args: &[&str]) -> (r: Result<ServerConfig, CliError>)
    ensures
        match parsed_args(str_views(args@)) {
            Ok((m, pos)) => r matches Ok(c) && c.auth_db_mode == m && views_of(c.positionals@) == pos,
            Err(e) => r matches Err(re) && re@ == e,
        },
{
    let ghost av = str_views(args@);
    let mut config = ServerConfig::default();
    let mode_eq = lit("--auth-db-mode=");
    let world_eq = lit("--world-dir=");
    let mode_flag_v = lit("--auth-db-mode");
    let world_flag_v = lit("--world-dir");
    let dash_h = lit("-h");
    let help = lit("--help");
    let dashes = lit("--");
    proof {
        reveal_strlit("--auth-db-mode=");
        reveal_strlit("--world-dir=");
        reveal_strlit("--auth-db-mode");
        reveal_strlit("--world-dir");
        reveal_strlit("-h");
        reveal_strlit("--help");
        reveal_strlit("--");
        assert(mode_eq@ =~= mode_flag() + seq!['=']);
        assert(world_eq@ =~= world_flag() + seq!['=']);
        assert(mode_flag_v@ =~= mode_flag());
        assert(world_flag_v@ =~= world_flag());
        assert(views_of(config.positionals@) =~= Seq::<Seq<char>>::empty());
    }
    let mut i: usize = 0;
    while i < args.len()
        invariant
            av == str_views(args@),
            i <= args@.len(),
            mode_eq@ == mode_flag() + seq!['='],
            world_eq@ == world_flag() + seq!['='],
            mode_flag_v@ == mode_flag(),
            world_flag_v@ == world_flag(),
            dash_h@ == seq!['-', 'h'],
            help@ == seq!['-', '-', 'h', 'e', 'l', 'p'],
            dashes@ == seq!['-', '-'],
            parsed_args(av) == parse_from(av, i as int, config.auth_db_mode, views_of(config.positionals@)),
        decreases args.len() - i,
    {
        let a = chars_of(args[i]);
        assert(av[i as int] == a@);
        if chars_equal(a.as_slice(), dash_h.as_slice()) || chars_equal(a.as_slice(), help.as_slice()) {
            return Err(CliError::HelpRequested);
        }
        if chars_equal(a.as_slice(), mode_flag_v.as_slice()) {
            if i + 1 >= args.len() {
                return Err(CliError::MissingValue { flag: string_from_chars(mode_flag_v.as_slice()) });
            }
            assert(av[i + 1] == args@[i + 1]@);
            config.auth_db_mode = parse_mode(args[i + 1])?;
            i = i + 2;
        } else if chars_equal(a.as_slice(), world_flag_v.as_slice()) {
            if i + 1 >= args.len() {
                return Err(CliError::MissingValue { flag: string_from_chars(world_flag_v.as_slice()) });
            }
            assert(av[i + 1] == args@[i + 1]@);
            let mut entry: Vec<char> = Vec::new();
            push_chars(&mut entry, world_eq.as_slice());
            push_chars(&mut entry, chars_of(args[i + 1]).as_slice());
            let ghost before = views_of(config.positionals@);
            config.positionals.push(string_from_chars(entry.as_slice()));
            assert(views_of(config.positionals@) =~= before.push(world_flag() + seq!['='] + av[i + 1]));
            i = i + 2;
        } else if is_prefix(mode_eq.as_slice(), a.as_slice()) {
            let value = string_from_chars(chars_from(a.as_slice(), mode_eq.len()).as_slice());
            assert(value@ =~= a@.skip((mode_flag().len() + 1) as int));
            config.auth_db_mode = parse_mode(value.as_str())?;
            i = i + 1;
        } else if is_prefix(world_eq.as_slice(), a.as_slice()) {
            let mut entry: Vec<char> = Vec::new();
            push_chars(&mut entry, world_eq.as_slice());
            push_chars(&mut entry, chars_from(a.as_slice(), world_eq.len()).as_slice());
            let ghost before = views_of(config.positionals@);
            config.positionals.push(string_from_chars(entry.as_slice()));
            assert(views_of(config.positionals@) =~= before.push(world_flag() + seq!['='] + a@.skip((world_flag().len() + 1) as int)));
            i = i + 1;
        } else if is_prefix(dashes.as_slice(), a.as_slice()) {
            return Err(CliError::UnknownFlag { flag: string_from_chars(a.as_slice()) });
        } else {
            let ghost before = views_of(config.positionals@);
            config.positionals.push(string_from_chars(a.as_slice()));
            assert(views_of(config.positionals@) =~= before.push(a@));
            i = i + 1;
        }
    }
    Ok(config)
}

/// Parsing a mode's canonical name gives the mode back.
pub proof fn law_mode_name_roundtrip(m: AuthDbMode)
    ensures
        mode_of(mode_name(m)) == Some(m),
{
    match m {
        AuthDbMode::Sqlite3 => {},
        AuthDbMode::Memory => {
            assert(mode_name(m) != seq!['s', 'q', 'l', 'i', 't', 'e', '3']);
            assert(mode_name(m) != seq!['s', 'q', 'l', 'i', 't', 'e']);
        },
        AuthDbMode::Postgres => {
            assert(mode_name(m) != seq!['s', 'q', 'l', 'i', 't', 'e', '3']);
            assert(mode_name(m) != seq!['s', 'q', 'l', 'i', 't', 'e']);
            assert(mode_name(m) != seq!['m', 'e', 'm', 'o', 'r', 'y']);
            assert(mode_name(m) != seq!['m', 'e', 'm']);
        },
    }
}

} // verus!
