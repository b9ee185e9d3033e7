//! Option negotiation: the canonical short-option specification, the
//! long-option table, and the resolver that merges both against the
//! process arguments.
//!
//! The canonical command line is one option per token: `-c` for a short
//! flag, `--name` for a long one, with an option's argument as the next
//! token. Anything else — an unknown flag, a missing argument, a bare
//! operand — counts one parse error; the caller prints the usage text
//! and refuses to serve when any error was counted.

use vstd::prelude::*;

verus! {

/// One row of the long-option table: a flag, whether it takes an
/// argument, the short flag it stands for, and its usage line. A row
/// with an empty name is a heading or the terminator and never matches.
#[derive(Clone, Debug)]
pub struct LongOption {
    pub long_name: String,
    pub short: char,
    pub has_arg: bool,
    pub help: String,
}

/// The transport the agent binds: exactly one selector flag chooses it,
/// and an unset or ambiguous selection falls back to the daemon default.
#[derive(Clone, Copy, PartialEq, Eq, Structural, Debug)]
pub enum Transport {
    Daemon,
    Pipe,
    Inet,
    Ipv6,
    UnixSocket,
}

/// The option state the resolver fills: the two canonical sequences it
/// matches against, the error count, and the recognized settings.
#[derive(Clone, Debug)]
pub struct PmdaOptions {
    pub short_options: String,
    pub long_options: Vec<LongOption>,
    pub errors: usize,
    pub domain: Option<u32>,
    pub debug: Option<String>,
    pub helptext: Option<String>,
    pub logfile: Option<String>,
    pub username: Option<String>,
    pub pipe: bool,
    pub inet: Option<String>,
    pub ipv6: Option<String>,
    pub unix_socket: Option<String>,
}

/// The semantic content of a `PmdaOptions`, over sequences of
/// characters.
pub struct OptionsV {
    pub errors: nat,
    pub domain: Option<u32>,
    pub debug: Option<Seq<char>>,
    pub helptext: Option<Seq<char>>,
    pub logfile: Option<Seq<char>>,
    pub username: Option<Seq<char>>,
    pub pipe: bool,
    pub inet: Option<Seq<char>>,
    pub ipv6: Option<Seq<char>>,
    pub unix_socket: Option<Seq<char>>,
}

pub open spec fn view_opt_string(s: Option<String>) -> Option<Seq<char>> {
    match s {
        Some(x) => Some(x@),
        None => None,
    }
}

impl View for PmdaOptions {
    type V = OptionsV;

    open spec fn view(&self) -> OptionsV {
        OptionsV {
            errors: self.errors as nat,
            domain: self.domain,
            debug: view_opt_string(self.debug),
            helptext: view_opt_string(self.helptext),
            logfile: view_opt_string(self.logfile),
            username: view_opt_string(self.username),
            pipe: self.pipe,
            inet: view_opt_string(self.inet),
            ipv6: view_opt_string(self.ipv6),
            unix_socket: view_opt_string(self.unix_socket),
        }
    }
}

// ---------------------------------------------------------------------
// Decimal numbers
// ---------------------------------------------------------------------

pub open spec fn spec_is_digit(c: char) -> bool {
    '0' <= c <= '9'
}

pub open spec fn spec_digit_val(c: char) -> int {
    c as int - '0' as int
}

pub open spec fn spec_all_digits(s: Seq<char>) -> bool {
    forall|i: int| 0 <= i < s.len() ==> spec_is_digit(s[i])
}

/// The value of a digit string, most significant digit first.
pub open spec fn spec_num_val(s: Seq<char>) -> int
    decreases s.len(),
{
    if s.len() == 0 {
        0
    } else {
        spec_num_val(s.take(s.len() - 1)) * 10 + spec_digit_val(s[s.len() - 1])
    }
}

/// A token parses as a 32-bit number exactly when it is one or more
/// digits whose value fits.
pub open spec fn spec_parse_u32(s: Seq<char>) -> Option<u32> {
    if s.len() > 0 && spec_all_digits(s) && spec_num_val(s) <= u32::MAX {
        Some(spec_num_val(s) as u32)
    } else {
        None
    }
}

proof fn lemma_num_val_nonneg(s: Seq<char>)
    requires
        spec_all_digits(s),
    ensures
        spec_num_val(s) >= 0,
    decreases s.len(),
{
    if s.len() > 0 {
        assert(spec_all_digits(s.take(s.len() - 1)));
        lemma_num_val_nonneg(s.take(s.len() - 1));
    }
}

/// A longer digit prefix never has a smaller value.
proof fn lemma_num_val_monotone(s: Seq<char>, i: int, j: int)
    requires
        spec_all_digits(s),
        0 <= i <= j <= s.len(),
    ensures
        spec_num_val(s.take(i)) <= spec_num_val(s.take(j)),
    decreases j - i,
{
    if i < j {
        lemma_num_val_monotone(s, i, j - 1);
        let p = s.take(j);
        assert(p.take(j - 1) =~= s.take(j - 1));
        assert(spec_all_digits(s.take(j - 1)));
        lemma_num_val_nonneg(s.take(j - 1));
        assert(spec_num_val(s.take(j)) == spec_num_val(s.take(j - 1)) * 10 + spec_digit_val(
            s[j - 1],
        ));
    }
}

/// Parse a decimal token; `None` exactly when the token is empty, holds
/// a non-digit, or exceeds the 32-bit range.
pub fn parse_u32(s: &str) -> (r: Option<u32>)
    ensures
        r == spec_parse_u32(s@),
{
    let n = s.unicode_len();
    if n == 0 {
        return None;
    }
    let mut v: u64 = 0;
    let mut k: usize = 0;
    while k < n
        invariant
            n == s@.len(),
            k <= n,
            spec_all_digits(s@.take(k as int)),
            v == spec_num_val(s@.take(k as int)),
            v <= u32::MAX,
        decreases n - k,
    {
        let c = s.get_char(k);
        if !('0' <= c && c <= '9') {
            proof {
                assert(s@[k as int] == c);
                assert(!spec_all_digits(s@));
            }
            return None;
        }
        let d: u64 = (c as u32 as u64) - ('0' as u32 as u64);
        proof {
            assert(c as int - '0' as int == spec_digit_val(c));
            assert(0 <= spec_digit_val(c) <= 9);
        }
        let w: u64 = v * 10 + d;
        proof {
            let p = s@.take(k as int + 1);
            assert(p.take(k as int) =~= s@.take(k as int));
            assert(p[k as int] == s@[k as int]);
            assert(spec_num_val(p) == spec_num_val(s@.take(k as int)) * 10 + spec_digit_val(
                s@[k as int],
            ));
            assert(spec_all_digits(p));
        }
        if w > 0xffff_ffff {
            proof {
                if spec_all_digits(s@) {
                    lemma_num_val_monotone(s@, k as int + 1, s@.len() as int);
                    assert(s@.take(s@.len() as int) =~= s@);
                }
            }
            return None;
        }
        v = w;
        k = k + 1;
    }
    proof {
        assert(s@.take(n as int) =~= s@);
    }
    Some(v as u32)
}

// ---------------------------------------------------------------------
// Flag lookup
// ---------------------------------------------------------------------

/// Look a short flag up in the specification string: known when the
/// character occurs, taking an argument when a `:` follows it.
pub open spec fn spec_short_lookup(sp: Seq<char>, c: char) -> Option<bool>
    decreases sp.len(),
{
    if sp.len() == 0 {
        None
    } else if sp[0] == c && c != ':' {
        Some(sp.len() > 1 && sp[1] == ':')
    } else {
        spec_short_lookup(sp.drop_first(), c)
    }
}

/// Look a long flag up in the table: rows with empty names (headings,
/// the terminator) never match; a match gives the short flag the row
/// stands for and whether it takes an argument.
pub open spec fn spec_long_lookup(rows: Seq<LongOption>, name: Seq<char>) -> Option<(char, bool)>
    decreases rows.len(),
{
    if rows.len() == 0 {
        None
    } else if rows[0].long_name@ == name && rows[0].long_name@.len() > 0 {
        Some((rows[0].short, rows[0].has_arg))
    } else {
        spec_long_lookup(rows.drop_first(), name)
    }
}

proof fn lemma_short_lookup_skip(sp: Seq<char>, c: char, k: int)
    requires
        0 <= k <= sp.len(),
        forall|p: int| 0 <= p < k ==> !(sp[p] == c && c != ':'),
    ensures
        spec_short_lookup(sp, c) == spec_short_lookup(sp.skip(k), c),
    decreases k,
{
    if k > 0 {
        lemma_short_lookup_skip(sp.drop_first(), c, k - 1);
        assert(sp.drop_first().skip(k - 1) =~= sp.skip(k));
    } else {
        assert(sp.skip(0) =~= sp);
    }
}

proof fn lemma_long_lookup_skip(rows: Seq<LongOption>, name: Seq<char>, k: int)
    requires
        0 <= k <= rows.len(),
        forall|p: int|
            0 <= p < k ==> !(rows[p].long_name@ == name && rows[p].long_name@.len() > 0),
    ensures
        spec_long_lookup(rows, name) == spec_long_lookup(rows.skip(k), name),
    decreases k,
{
    if k > 0 {
        lemma_long_lookup_skip(rows.drop_first(), name, k - 1);
        assert(rows.drop_first().skip(k - 1) =~= rows.skip(k));
    } else {
        assert(rows.skip(0) =~= rows);
    }
}

fn short_lookup(sp: &str, c: char) -> (r: Option<bool>)
    ensures
        r == spec_short_lookup(sp@, c),
{
    let n = sp.unicode_len();
    let mut k: usize = 0;
    while k < n
        invariant
            n == sp@.len(),
            k <= n,
            forall|p: int| 0 <= p < k ==> !(sp@[p] == c && c != ':'),
        decreases n - k,
    {
        let x = sp.get_char(k);
        if x == c && c != ':' {
            proof {
                lemma_short_lookup_skip(sp@, c, k as int);
                assert(sp@.skip(k as int)[0] == sp@[k as int]);
                if k + 1 < n {
                    assert(sp@.skip(k as int)[1] == sp@[k as int + 1]);
                }
            }
            if k + 1 < n {
                let y = sp.get_char(k + 1);
                return Some(y == ':');
            } else {
                proof {
                    assert(sp@.skip(k as int).len() == n - k);
                }
                return Some(false);
            }
        }
        k = k + 1;
    }
    proof {
        lemma_short_lookup_skip(sp@, c, n as int);
        assert(sp@.skip(n as int).len() == 0);
    }
    None
}

fn long_lookup(rows: &Vec<LongOption>, name: &String) -> (r: Option<(char, bool)>)
    ensures
        r == spec_long_lookup(rows@, name@),
{
    let n = rows.len();
    let mut k: usize = 0;
    while k < n
        invariant
            n == rows@.len(),
            k <= n,
            forall|p: int|
                0 <= p < k ==> !(rows@[p].long_name@ == name@ && rows@[p].long_name@.len() > 0),
        decreases n - k,
    {
        let hit = rows[k].long_name == *name;
        let nonempty = rows[k].long_name.as_str().unicode_len() > 0;
        if hit && nonempty {
            proof {
                lemma_long_lookup_skip(rows@, name@, k as int);
                assert(rows@.skip(k as int)[0] == rows@[k as int]);
            }
            return Some((rows[k].short, rows[k].has_arg));
        }
        k = k + 1;
    }
    proof {
        lemma_long_lookup_skip(rows@, name@, n as int);
        assert(rows@.skip(n as int).len() == 0);
    }
    None
}

// ---------------------------------------------------------------------
// The resolver
// ---------------------------------------------------------------------

pub open spec fn spec_inc_err(o: OptionsV) -> OptionsV {
    OptionsV { errors: o.errors + 1, ..o }
}

/// The effect of one recognized flag that takes no argument.
pub open spec fn spec_apply_flag(o: OptionsV, c: char) -> OptionsV {
    if c == 'p' {
        OptionsV { pipe: true, ..o }
    } else {
        o
    }
}

/// The effect of one recognized flag together with its argument token.
/// A domain override must be a 32-bit decimal number; a malformed one
/// counts a parse error.
pub open spec fn spec_apply_arg(o: OptionsV, c: char, a: Seq<char>) -> OptionsV {
    if c == 'd' {
        match spec_parse_u32(a) {
            Some(v) => OptionsV { domain: Some(v), ..o },
            None => spec_inc_err(o),
        }
    } else if c == 'D' {
        OptionsV { debug: Some(a), ..o }
    } else if c == 'h' {
        OptionsV { helptext: Some(a), ..o }
    } else if c == 'i' {
        OptionsV { inet: Some(a), ..o }
    } else if c == 'l' {
        OptionsV { logfile: Some(a), ..o }
    } else if c == 'u' {
        OptionsV { unix_socket: Some(a), ..o }
    } else if c == 'U' {
        OptionsV { username: Some(a), ..o }
    } else if c == '6' {
        OptionsV { ipv6: Some(a), ..o }
    } else {
        o
    }
}

/// A token in the shape of a short option: a dash and one flag
/// character.
pub open spec fn spec_is_short_tok(t: Seq<char>) -> bool {
    t.len() == 2 && t[0] == '-' && t[1] != '-'
}

/// A token in the shape of a long option: two dashes and a name.
pub open spec fn spec_is_long_tok(t: Seq<char>) -> bool {
    t.len() >= 3 && t[0] == '-' && t[1] == '-'
}

/// Resolve the tokens left to right against the two canonical
/// sequences. A recognized flag applies its effect and consumes its
/// argument token if it takes one; an unknown flag, a missing argument
/// or a token in neither option shape counts one error.
pub open spec fn spec_parse_from(
    sp: Seq<char>,
    rows: Seq<LongOption>,
    toks: Seq<String>,
    o: OptionsV,
) -> OptionsV
    decreases toks.len(),
{
    if toks.len() == 0 {
        o
    } else {
        let t = toks[0]@;
        if spec_is_short_tok(t) {
            match spec_short_lookup(sp, t[1]) {
                None => spec_parse_from(sp, rows, toks.drop_first(), spec_inc_err(o)),
                Some(false) => spec_parse_from(sp, rows, toks.drop_first(), spec_apply_flag(o, t[1])),
                Some(true) => if toks.len() >= 2 {
                    spec_parse_from(sp, rows, toks.skip(2), spec_apply_arg(o, t[1], toks[1]@))
                } else {
                    spec_parse_from(sp, rows, toks.drop_first(), spec_inc_err(o))
                },
            }
        } else if spec_is_long_tok(t) {
            match spec_long_lookup(rows, t.skip(2)) {
                None => spec_parse_from(sp, rows, toks.drop_first(), spec_inc_err(o)),
                Some((c, false)) => spec_parse_from(sp, rows, toks.drop_first(), spec_apply_flag(o, c)),
                Some((c, true)) => if toks.len() >= 2 {
                    spec_parse_from(sp, rows, toks.skip(2), spec_apply_arg(o, c, toks[1]@))
                } else {
                    spec_parse_from(sp, rows, toks.drop_first(), spec_inc_err(o))
                },
            }
        } else {
            spec_parse_from(sp, rows, toks.drop_first(), spec_inc_err(o))
        }
    }
}

/// Resolving never forgets an error once counted.
pub proof fn lemma_errors_monotone(sp: Seq<char>, rows: Seq<LongOption>, toks: Seq<String>, o: OptionsV)
    ensures
        spec_parse_from(sp, rows, toks, o).errors >= o.errors,
    decreases toks.len(),
{
    if toks.len() > 0 {
        let t = toks[0]@;
        if spec_is_short_tok(t) {
            match spec_short_lookup(sp, t[1]) {
                None => lemma_errors_monotone(sp, rows, toks.drop_first(), spec_inc_err(o)),
                Some(false) => lemma_errors_monotone(
                    sp,
                    rows,
                    toks.drop_first(),
                    spec_apply_flag(o, t[1]),
                ),
                Some(true) => if toks.len() >= 2 {
                    lemma_errors_monotone(sp, rows, toks.skip(2), spec_apply_arg(o, t[1], toks[1]@))
                } else {
                    lemma_errors_monotone(sp, rows, toks.drop_first(), spec_inc_err(o))
                },
            }
        } else if spec_is_long_tok(t) {
            match spec_long_lookup(rows, t.skip(2)) {
                None => lemma_errors_monotone(sp, rows, toks.drop_first(), spec_inc_err(o)),
                Some((c, false)) => lemma_errors_monotone(
                    sp,
                    rows,
                    toks.drop_first(),
                    spec_apply_flag(o, c),
                ),
                Some((c, true)) => if toks.len() >= 2 {
                    lemma_errors_monotone(sp, rows, toks.skip(2), spec_apply_arg(o, c, toks[1]@))
                } else {
                    lemma_errors_monotone(sp, rows, toks.drop_first(), spec_inc_err(o))
                },
            }
        } else {
            lemma_errors_monotone(sp, rows, toks.drop_first(), spec_inc_err(o));
        }
    }
}

/// A token that is recognized by neither sequence: not a known short
/// flag and not a known long flag.
pub open spec fn spec_tok_unrecognized(sp: Seq<char>, rows: Seq<LongOption>, t: Seq<char>) -> bool {
    &&& !(spec_is_short_tok(t) && spec_short_lookup(sp, t[1]) is Some)
    &&& !(spec_is_long_tok(t) && spec_long_lookup(rows, t.skip(2)) is Some)
}

/// An unrecognized token makes resolution end with more errors than it
/// started with, whatever follows it: the caller sees a non-success
/// outcome and refuses to proceed.
pub proof fn lemma_unrecognized_fails(
    sp: Seq<char>,
    rows: Seq<LongOption>,
    toks: Seq<String>,
    o: OptionsV,
)
    requires
        toks.len() > 0,
        spec_tok_unrecognized(sp, rows, toks[0]@),
    ensures
        spec_parse_from(sp, rows, toks, o).errors > o.errors,
{
    lemma_errors_monotone(sp, rows, toks.drop_first(), spec_inc_err(o));
}

/// Apply one recognized flag that takes no argument.
fn apply_flag(opts: &mut PmdaOptions, c: char)
    ensures
        final(opts)@ == spec_apply_flag(old(opts)@, c),
        final(opts).short_options == old(opts).short_options,
        final(opts).long_options == old(opts).long_options,
{
    if c == 'p' {
        opts.pipe = true;
    }
}

/// Apply one recognized flag together with its argument token.
fn apply_arg(opts: &mut PmdaOptions, c: char, a: &String)
    requires
        old(opts).errors < usize::MAX,
    ensures
        final(opts)@ == spec_apply_arg(old(opts)@, c, a@),
        final(opts).short_options == old(opts).short_options,
        final(opts).long_options == old(opts).long_options,
        final(opts).errors <= old(opts).errors + 1,
{
    if c == 'd' {
        match parse_u32(a.as_str()) {
            Some(v) => {
                opts.domain = Some(v);
            },
            None => {
                opts.errors = opts.errors + 1;
            },
        }
    } else if c == 'D' {
        opts.debug = Some(a.clone());
    } else if c == 'h' {
        opts.helptext = Some(a.clone());
    } else if c == 'i' {
        opts.inet = Some(a.clone());
    } else if c == 'l' {
        opts.logfile = Some(a.clone());
    } else if c == 'u' {
        opts.unix_socket = Some(a.clone());
    } else if c == 'U' {
        opts.username = Some(a.clone());
    } else if c == '6' {
        opts.ipv6 = Some(a.clone());
    }
}

/// Merge the canonical option sequences held in `opts` against the
/// process arguments (the first argument is the program name and takes
/// no part). The result is exactly the left-to-right resolution the
/// grammar gives; the two canonical sequences themselves stay as they
/// were.
pub fn parse_options(opts: &mut PmdaOptions, args: &Vec<String>)
    requires
        old(opts).errors + args@.len() <= usize::MAX,
    ensures
        final(opts).short_options == old(opts).short_options,
        final(opts).long_options == old(opts).long_options,
        args@.len() >= 1 ==> final(opts)@ == spec_parse_from(
            old(opts).short_options@,
            old(opts).long_options@,
            args@.skip(1),
            old(opts)@,
        ),
        args@.len() == 0 ==> *final(opts) == *old(opts),
{
    let n = args.len();
    if n == 0 {
        return;
    }
    let ghost sp = opts.short_options@;
    let ghost rows = opts.long_options@;
    let ghost o0 = opts@;
    let mut idx: usize = 1;
    while idx < n
        invariant
            n == args@.len(),
            1 <= idx <= n,
            opts.short_options@ == sp,
            opts.long_options@ == rows,
            opts.short_options == old(opts).short_options,
            opts.long_options == old(opts).long_options,
            opts@.errors <= o0.errors + (idx - 1),
            o0.errors + args@.len() <= usize::MAX,
            spec_parse_from(sp, rows, args@.skip(1), o0) == spec_parse_from(
                sp,
                rows,
                args@.skip(idx as int),
                opts@,
            ),
        decreases n - idx,
    {
        let ghost toks = args@.skip(idx as int);
        proof {
            assert(toks[0] == args@[idx as int]);
            assert(toks.drop_first() =~= args@.skip(idx as int + 1));
            if idx + 1 < n {
                assert(toks[1] == args@[idx as int + 1]);
                assert(toks.skip(2) =~= args@.skip(idx as int + 2));
            }
        }
        let t = &args[idx];
        let tlen = t.as_str().unicode_len();
        let mut consumed: usize = 1;
        if tlen == 2 && t.as_str().get_char(0) == '-' && t.as_str().get_char(1) != '-' {
            let c = t.as_str().get_char(1);
            assert(spec_is_short_tok(t@));
            match short_lookup(opts.short_options.as_str(), c) {
                None => {
                    opts.errors = opts.errors + 1;
                },
                Some(false) => {
                    apply_flag(opts, c);
                },
                Some(true) => {
                    if idx + 1 < n {
                        let a = &args[idx + 1];
                        apply_arg(opts, c, a);
                        consumed = 2;
                    } else {
                        opts.errors = opts.errors + 1;
                    }
                },
            }
        } else if tlen >= 3 && t.as_str().get_char(0) == '-' && t.as_str().get_char(1) == '-' {
            assert(spec_is_long_tok(t@));
            let name_slice = t.as_str().substring_char(2, tlen);
            let name = String::from_str(name_slice);
            proof {
                assert(name@ =~= t@.skip(2));
            }
            match long_lookup(&opts.long_options, &name) {
                None => {
                    opts.errors = opts.errors + 1;
                },
                Some((c, false)) => {
                    apply_flag(opts, c);
                },
                Some((c, true)) => {
                    if idx + 1 < n {
                        let a = &args[idx + 1];
                        apply_arg(opts, c, a);
                        consumed = 2;
                    } else {
                        opts.errors = opts.errors + 1;
                    }
                },
            }
        } else {
            proof {
                assert(!spec_is_short_tok(t@));
                assert(!spec_is_long_tok(t@));
            }
            opts.errors = opts.errors + 1;
        }
        idx = idx + consumed;
    }
    proof {
        assert(args@.skip(n as int).len() == 0);
    }
}

// ---------------------------------------------------------------------
// The canonical sequences
// ---------------------------------------------------------------------

/// The canonical short-option specification the agent hands to the
/// resolver: debug, domain, help path, inet port, log path, pipe,
/// unix-socket path, username and ipv6 port.
pub fn pmdaopt() -> (s: String)
    ensures
        s@ == ("D:d:h:i:l:pu:U:6:")@,
{
    String::from_str("D:d:h:i:l:pu:U:6:")
}

/// The heading row of the long-option table; it matches no flag.
pub fn pmdaopt_header() -> (o: LongOption)
    ensures
        o.long_name@.len() == 0,
        o.help@ == ("Options")@,
        !o.has_arg,
{
    proof {
        reveal_strlit("");
    }
    LongOption {
        long_name: String::from_str(""),
        short: '\0',
        has_arg: false,
        help: String::from_str("Options"),
    }
}

/// The terminator row of the long-option table; it matches no flag.
pub fn pmdaopt_end() -> (o: LongOption)
    ensures
        o.long_name@.len() == 0,
        o.help@.len() == 0,
        !o.has_arg,
{
    proof {
        reveal_strlit("");
    }
    LongOption {
        long_name: String::from_str(""),
        short: '\0',
        has_arg: false,
        help: String::from_str(""),
    }
}

pub fn pmdaopt_debug() -> (o: LongOption)
    ensures
        o.long_name@ == ("debug")@,
        o.short == 'D',
        o.has_arg,
{
    LongOption {
        long_name: String::from_str("debug"),
        short: 'D',
        has_arg: true,
        help: String::from_str("set debug options"),
    }
}

pub fn pmdaopt_domain() -> (o: LongOption)
    ensures
        o.long_name@ == ("domain")@,
        o.short == 'd',
        o.has_arg,
{
    LongOption {
        long_name: String::from_str("domain"),
        short: 'd',
        has_arg: true,
        help: String::from_str("use domain (numeric) for metrics domain of agent"),
    }
}

pub fn pmdaopt_helptext() -> (o: LongOption)
    ensures
        o.long_name@ == ("helpfile")@,
        o.short == 'h',
        o.has_arg,
{
    LongOption {
        long_name: String::from_str("helpfile"),
        short: 'h',
        has_arg: true,
        help: String::from_str("help text file"),
    }
}

pub fn pmdaopt_inet() -> (o: LongOption)
    ensures
        o.long_name@ == ("inet")@,
        o.short == 'i',
        o.has_arg,
{
    LongOption {
        long_name: String::from_str("inet"),
        short: 'i',
        has_arg: true,
        help: String::from_str("pmcd connection on inet port"),
    }
}

pub fn pmdaopt_ipv6() -> (o: LongOption)
    ensures
        o.long_name@ == ("ipv6")@,
        o.short == '6',
        o.has_arg,
{
    LongOption {
        long_name: String::from_str("ipv6"),
        short: '6',
        has_arg: true,
        help: String::from_str("pmcd connection on ipv6 port"),
    }
}

pub fn pmdaopt_logfile() -> (o: LongOption)
    ensures
        o.long_name@ == ("log")@,
        o.short == 'l',
        o.has_arg,
{
    LongOption {
        long_name: String::from_str("log"),
        short: 'l',
        has_arg: true,
        help: String::from_str("redirect diagnostics and trace output"),
    }
}

pub fn pmdaopt_pipe() -> (o: LongOption)
    ensures
        o.long_name@ == ("pipe")@,
        o.short == 'p',
        !o.has_arg,
{
    LongOption {
        long_name: String::from_str("pipe"),
        short: 'p',
        has_arg: false,
        help: String::from_str("pmcd connection on stdin and stdout"),
    }
}

pub fn pmdaopt_unix() -> (o: LongOption)
    ensures
        o.long_name@ == ("unix")@,
        o.short == 'u',
        o.has_arg,
{
    LongOption {
        long_name: String::from_str("unix"),
        short: 'u',
        has_arg: true,
        help: String::from_str("pmcd connection on unix domain socket"),
    }
}

pub fn pmdaopt_username() -> (o: LongOption)
    ensures
        o.long_name@ == ("username")@,
        o.short == 'U',
        o.has_arg,
{
    LongOption {
        long_name: String::from_str("username"),
        short: 'U',
        has_arg: true,
        help: String::from_str("run the agent as this user"),
    }
}

/// Fresh option state over the two canonical sequences: no errors yet,
/// nothing recognized yet.
pub fn pmda_options(short_options: String, long_options: Vec<LongOption>) -> (o: PmdaOptions)
    ensures
        o.short_options == short_options,
        o.long_options == long_options,
        o.errors == 0,
        o@.domain is None,
        o@.debug is None,
        o@.helptext is None,
        o@.logfile is None,
        o@.username is None,
        !o@.pipe,
        o@.inet is None,
        o@.ipv6 is None,
        o@.unix_socket is None,
{
    PmdaOptions {
        short_options,
        long_options,
        errors: 0,
        domain: None,
        debug: None,
        helptext: None,
        logfile: None,
        username: None,
        pipe: false,
        inet: None,
        ipv6: None,
        unix_socket: None,
    }
}

// ---------------------------------------------------------------------
// Usage text
// ---------------------------------------------------------------------

/// The usage line one row of the long-option table renders to.
pub open spec fn spec_usage_row(l: LongOption) -> Seq<char> {
    if l.long_name@.len() == 0 {
        if l.help@.len() > 0 {
            l.help@ + (":\n")@
        } else {
            Seq::<char>::empty()
        }
    } else {
        ("  --")@ + l.long_name@ + (if l.has_arg {
            (" ARG")@
        } else {
            Seq::<char>::empty()
        }) + ("  ")@ + l.help@ + ("\n")@
    }
}

/// The usage text of a whole table: its rows' lines in table order.
pub open spec fn spec_usage_text(rows: Seq<LongOption>) -> Seq<char>
    decreases rows.len(),
{
    if rows.len() == 0 {
        Seq::<char>::empty()
    } else {
        spec_usage_row(rows[0]) + spec_usage_text(rows.drop_first())
    }
}

/// Render the usage message for the option state: one line per row of
/// the long-option table, in table order. The caller prints it and
/// exits without serving when option resolution counted errors.
pub fn pmda_print_usage(opts: &PmdaOptions) -> (r: String)
    ensures
        r@ == spec_usage_text(opts.long_options@),
{
    let rows = &opts.long_options;
    let n = rows.len();
    let mut acc = String::new();
    let mut k: usize = 0;
    proof {
        assert(rows@.skip(0) =~= rows@);
        assert(acc@ + spec_usage_text(rows@) =~= spec_usage_text(rows@));
    }
    while k < n
        invariant
            n == rows@.len(),
            k <= n,
            acc@ + spec_usage_text(rows@.skip(k as int)) == spec_usage_text(rows@),
        decreases n - k,
    {
        let ghost rest = rows@.skip(k as int);
        proof {
            assert(rest[0] == rows@[k as int]);
            assert(rest.drop_first() =~= rows@.skip(k as int + 1));
        }
        let ghost before = acc@;
        let row = &rows[k];
        if row.long_name.as_str().unicode_len() == 0 {
            if row.help.as_str().unicode_len() > 0 {
                acc.append(row.help.as_str());
                acc.append(":\n");
            }
        } else {
            acc.append("  --");
            acc.append(row.long_name.as_str());
            if row.has_arg {
                acc.append(" ARG");
            }
            acc.append("  ");
            acc.append(row.help.as_str());
            acc.append("\n");
        }
        proof {
            assert(acc@ =~= before + spec_usage_row(rows@[k as int]));
            assert(before + spec_usage_row(rows@[k as int]) + spec_usage_text(
                rows@.skip(k as int + 1),
            ) =~= before + (spec_usage_row(rows@[k as int]) + spec_usage_text(
                rows@.skip(k as int + 1),
            )));
        }
        k = k + 1;
    }
    proof {
        assert(rows@.skip(n as int).len() == 0);
        assert(acc@ + spec_usage_text(rows@.skip(n as int)) =~= acc@);
    }
    acc
}

// ---------------------------------------------------------------------
// Transport selection
// ---------------------------------------------------------------------

/// How many transport selector flags are set.
pub open spec fn spec_transport_count(o: OptionsV) -> int {
    (if o.pipe {
        1int
    } else {
        0int
    }) + (if o.inet is Some {
        1int
    } else {
        0int
    }) + (if o.ipv6 is Some {
        1int
    } else {
        0int
    }) + (if o.unix_socket is Some {
        1int
    } else {
        0int
    })
}

/// Exactly one selector chooses its transport; an unset or ambiguous
/// selection falls back to the daemon default rather than failing.
pub open spec fn spec_transport(o: OptionsV) -> Transport {
    if spec_transport_count(o) == 1 {
        if o.pipe {
            Transport::Pipe
        } else if o.inet is Some {
            Transport::Inet
        } else if o.ipv6 is Some {
            Transport::Ipv6
        } else {
            Transport::UnixSocket
        }
    } else {
        Transport::Daemon
    }
}

pub fn select_transport(opts: &PmdaOptions) -> (t: Transport)
    ensures
        t == spec_transport(opts@),
{
    let mut count: u32 = 0;
    if opts.pipe {
        count = count + 1;
    }
    if opts.inet.is_some() {
        count = count + 1;
    }
    if opts.ipv6.is_some() {
        count = count + 1;
    }
    if opts.unix_socket.is_some() {
        count = count + 1;
    }
    if count == 1 {
        if opts.pipe {
            Transport::Pipe
        } else if opts.inet.is_some() {
            Transport::Inet
        } else if opts.ipv6.is_some() {
            Transport::Ipv6
        } else {
            Transport::UnixSocket
        }
    } else {
        Transport::Daemon
    }
}

} // verus!
