//! Resolution of the configuration home directory.
//!
//! A configured value may name the directory directly, or through `~`, a
//! `$VAR`/`${VAR}` reference, or a `%VAR%` reference.  The environment is an
//! explicit table handed in by the caller, so the rules here are pure
//! functions of it: the table carries the process environment variables and,
//! as a last resort for the home directory, what the system user database
//! reports.  Paths are plain strings joined POSIX-style.

use vstd::prelude::*;

verus! {

broadcast use vstd::std_specs::vec::group_vec_axioms, vstd::seq::group_seq_axioms;

/// The whitespace that trimming removes.
pub open spec fn is_space(c: char) -> bool {
    c == ' ' || c == '\t' || c == '\n' || c == '\r'
}

/// Index of the first non-space character, or the length.
pub open spec fn first_non_space(s: Seq<char>) -> int
    decreases s.len(),
{
    if s.len() == 0 {
        0
    } else if !is_space(s[0]) {
        0
    } else {
        1 + first_non_space(s.drop_first())
    }
}

/// One past the last non-space character, or zero.
pub open spec fn end_non_space(s: Seq<char>) -> int
    decreases s.len(),
{
    if s.len() == 0 {
        0
    } else if !is_space(s.last()) {
        s.len() as int
    } else {
        end_non_space(s.drop_last())
    }
}

/// The string with leading and trailing whitespace removed.
pub open spec fn trim_spec(s: Seq<char>) -> Seq<char> {
    let t = s.skip(first_non_space(s));
    t.take(end_non_space(t))
}

fn is_space_char(c: char) -> (r: bool)
    ensures
        r == is_space(c),
{
    c == ' ' || c == '\t' || c == '\n' || c == '\r'
}

/// Removes leading and trailing whitespace, as `trim_spec` describes.
pub fn trim_str<'a>(s: &'a str) -> (r: &'a str)
    ensures
        r@ == trim_spec(s@),
{
    let n = s.unicode_len();
    let mut start: usize = 0;
    proof {
        assert(s@.skip(0) =~= s@);
    }
    while start < n && is_space_char(s.get_char(start))
        invariant
            n == s@.len(),
            0 <= start <= n,
            first_non_space(s@) == start + first_non_space(s@.skip(start as int)),
        decreases n - start,
    {
        proof {
            assert(s@.skip(start as int)[0] == s@[start as int]);
            assert(s@.skip(start as int).drop_first() =~= s@.skip(start as int + 1));
        }
        start = start + 1;
    }
    proof {
        if start == n {
            assert(s@.skip(n as int) =~= Seq::<char>::empty());
        }
        assert(first_non_space(s@) == start);
    }
    let rest = s.substring_char(start, n);
    let ghost t = s@.skip(start as int);
    proof {
        assert(rest@ == t);
        assert(t.take(t.len() as int) =~= t);
    }
    let m = n - start;
    let mut end: usize = m;
    while end > 0 && is_space_char(rest.get_char(end - 1))
        invariant
            rest@ == t,
            m == t.len(),
            0 <= end <= m,
            end_non_space(t) == end_non_space(t.take(end as int)),
        decreases end,
    {
        proof {
            let cur = t.take(end as int);
            assert(cur.last() == t[end as int - 1]);
            assert(cur.drop_last() =~= t.take(end as int - 1));
        }
        end = end - 1;
    }
    proof {
        if end > 0 {
            assert(t.take(end as int).last() == t[end as int - 1]);
        }
        assert(end_non_space(t) == end);
    }
    let out = rest.substring_char(0, end);
    proof {
        assert(out@ =~= trim_spec(s@));
    }
    out
}

/// POSIX-style joining: an absolute second component replaces the first, an
/// empty component is neutral, and exactly one separator stands between the
/// two otherwise.
pub open spec fn join_path_spec(base: Seq<char>, rest: Seq<char>) -> Seq<char> {
    if rest.len() == 0 {
        base
    } else if rest[0] == '/' {
        rest
    } else if base.len() == 0 {
        rest
    } else if base.last() == '/' {
        base + rest
    } else {
        base + seq!['/'] + rest
    }
}

fn join_path(base: &str, rest: &str) -> (r: String)
    ensures
        r@ == join_path_spec(base@, rest@),
{
    let m = rest.unicode_len();
    if m == 0 {
        return base.to_owned();
    }
    if rest.get_char(0) == '/' {
        return rest.to_owned();
    }
    let n = base.unicode_len();
    if n == 0 {
        return rest.to_owned();
    }
    if base.get_char(n - 1) == '/' {
        return base.to_owned().concat(rest);
    }
    let out = base.to_owned().concat("/").concat(rest);
    proof {
        reveal_strlit("/");
        assert(out@ =~= base@ + seq!['/'] + rest@);
    }
    out
}

/// A path separator in a configured remainder.
pub open spec fn is_sep(c: char) -> bool {
    c == '/' || c == '\\'
}

/// The string with leading separators removed.
pub open spec fn skip_seps(s: Seq<char>) -> Seq<char>
    decreases s.len(),
{
    if s.len() == 0 {
        s
    } else if is_sep(s[0]) {
        skip_seps(s.drop_first())
    } else {
        s
    }
}

fn is_sep_char(c: char) -> (r: bool)
    ensures
        r == is_sep(c),
{
    c == '/' || c == '\\'
}

fn strip_seps<'a>(s: &'a str) -> (r: &'a str)
    ensures
        r@ == skip_seps(s@),
{
    let n = s.unicode_len();
    let mut start: usize = 0;
    proof {
        assert(s@.skip(0) =~= s@);
    }
    while start < n && is_sep_char(s.get_char(start))
        invariant
            n == s@.len(),
            0 <= start <= n,
            skip_seps(s@) == skip_seps(s@.skip(start as int)),
        decreases n - start,
    {
        proof {
            assert(s@.skip(start as int)[0] == s@[start as int]);
            assert(s@.skip(start as int).drop_first() =~= s@.skip(start as int + 1));
        }
        start = start + 1;
    }
    proof {
        if start == n {
            assert(s@.skip(n as int) =~= Seq::<char>::empty());
        }
        assert(skip_seps(s@) == s@.skip(start as int));
    }
    s.substring_char(start, n)
}

/// What joining an environment value with the text after the reference
/// yields: the value is trimmed, leading separators of the remainder drop,
/// and the two are joined.
pub open spec fn join_env_spec(prefix: Seq<char>, remainder: Seq<char>) -> Seq<char> {
    let base = trim_spec(prefix);
    let tr = skip_seps(remainder);
    if tr.len() == 0 {
        base
    } else {
        join_path_spec(base, tr)
    }
}

/// Joins an environment value with a remaining path, as `join_env_spec`
/// describes.
pub fn join_env_path(prefix: &str, remainder: &str) -> (r: String)
    ensures
        r@ == join_env_spec(prefix@, remainder@),
{
    let base = trim_str(prefix);
    let tr = strip_seps(remainder);
    if tr.is_empty() {
        base.to_owned()
    } else {
        join_path(base, tr)
    }
}


/// ASCII upper-casing of one character.
pub open spec fn upper_char(c: char) -> char {
    if c == 'a' {
        'A'
    } else if c == 'b' {
        'B'
    } else if c == 'c' {
        'C'
    } else if c == 'd' {
        'D'
    } else if c == 'e' {
        'E'
    } else if c == 'f' {
        'F'
    } else if c == 'g' {
        'G'
    } else if c == 'h' {
        'H'
    } else if c == 'i' {
        'I'
    } else if c == 'j' {
        'J'
    } else if c == 'k' {
        'K'
    } else if c == 'l' {
        'L'
    } else if c == 'm' {
        'M'
    } else if c == 'n' {
        'N'
    } else if c == 'o' {
        'O'
    } else if c == 'p' {
        'P'
    } else if c == 'q' {
        'Q'
    } else if c == 'r' {
        'R'
    } else if c == 's' {
        'S'
    } else if c == 't' {
        'T'
    } else if c == 'u' {
        'U'
    } else if c == 'v' {
        'V'
    } else if c == 'w' {
        'W'
    } else if c == 'x' {
        'X'
    } else if c == 'y' {
        'Y'
    } else if c == 'z' {
        'Z'
    } else {
        c
    }
}

/// ASCII lower-casing of one character.
pub open spec fn lower_char(c: char) -> char {
    if c == 'A' {
        'a'
    } else if c == 'B' {
        'b'
    } else if c == 'C' {
        'c'
    } else if c == 'D' {
        'd'
    } else if c == 'E' {
        'e'
    } else if c == 'F' {
        'f'
    } else if c == 'G' {
        'g'
    } else if c == 'H' {
        'h'
    } else if c == 'I' {
        'i'
    } else if c == 'J' {
        'j'
    } else if c == 'K' {
        'k'
    } else if c == 'L' {
        'l'
    } else if c == 'M' {
        'm'
    } else if c == 'N' {
        'n'
    } else if c == 'O' {
        'o'
    } else if c == 'P' {
        'p'
    } else if c == 'Q' {
        'q'
    } else if c == 'R' {
        'r'
    } else if c == 'S' {
        's'
    } else if c == 'T' {
        't'
    } else if c == 'U' {
        'u'
    } else if c == 'V' {
        'v'
    } else if c == 'W' {
        'w'
    } else if c == 'X' {
        'x'
    } else if c == 'Y' {
        'y'
    } else if c == 'Z' {
        'z'
    } else {
        c
    }
}

/// Character-wise ASCII upper-casing.
pub open spec fn upper_str(s: Seq<char>) -> Seq<char> {
    Seq::new(s.len(), |i: int| upper_char(s[i]))
}

/// Character-wise ASCII lower-casing.
pub open spec fn lower_str(s: Seq<char>) -> Seq<char> {
    Seq::new(s.len(), |i: int| lower_char(s[i]))
}

fn upper_char_x(c: char) -> (r: char)
    ensures
        r == upper_char(c),
{
    match c {
        'a' => 'A',
        'b' => 'B',
        'c' => 'C',
        'd' => 'D',
        'e' => 'E',
        'f' => 'F',
        'g' => 'G',
        'h' => 'H',
        'i' => 'I',
        'j' => 'J',
        'k' => 'K',
        'l' => 'L',
        'm' => 'M',
        'n' => 'N',
        'o' => 'O',
        'p' => 'P',
        'q' => 'Q',
        'r' => 'R',
        's' => 'S',
        't' => 'T',
        'u' => 'U',
        'v' => 'V',
        'w' => 'W',
        'x' => 'X',
        'y' => 'Y',
        'z' => 'Z',
        _ => c,
    }
}

fn lower_char_x(c: char) -> (r: char)
    ensures
        r == lower_char(c),
{
    match c {
        'A' => 'a',
        'B' => 'b',
        'C' => 'c',
        'D' => 'd',
        'E' => 'e',
        'F' => 'f',
        'G' => 'g',
        'H' => 'h',
        'I' => 'i',
        'J' => 'j',
        'K' => 'k',
        'L' => 'l',
        'M' => 'm',
        'N' => 'n',
        'O' => 'o',
        'P' => 'p',
        'Q' => 'q',
        'R' => 'r',
        'S' => 's',
        'T' => 't',
        'U' => 'u',
        'V' => 'v',
        'W' => 'w',
        'X' => 'x',
        'Y' => 'y',
        'Z' => 'z',
        _ => c,
    }
}


fn upper_lit(c: char) -> (r: &'static str)
    requires
        'a' <= c && c <= 'z',
    ensures
        r@ =~= seq![upper_char(c)],
{
    proof {
        reveal_strlit("A");
        reveal_strlit("B");
        reveal_strlit("C");
        reveal_strlit("D");
        reveal_strlit("E");
        reveal_strlit("F");
        reveal_strlit("G");
        reveal_strlit("H");
        reveal_strlit("I");
        reveal_strlit("J");
        reveal_strlit("K");
        reveal_strlit("L");
        reveal_strlit("M");
        reveal_strlit("N");
        reveal_strlit("O");
        reveal_strlit("P");
        reveal_strlit("Q");
        reveal_strlit("R");
        reveal_strlit("S");
        reveal_strlit("T");
        reveal_strlit("U");
        reveal_strlit("V");
        reveal_strlit("W");
        reveal_strlit("X");
        reveal_strlit("Y");
        reveal_strlit("Z");
    }
    match c {
        'a' => "A",
        'b' => "B",
        'c' => "C",
        'd' => "D",
        'e' => "E",
        'f' => "F",
        'g' => "G",
        'h' => "H",
        'i' => "I",
        'j' => "J",
        'k' => "K",
        'l' => "L",
        'm' => "M",
        'n' => "N",
        'o' => "O",
        'p' => "P",
        'q' => "Q",
        'r' => "R",
        's' => "S",
        't' => "T",
        'u' => "U",
        'v' => "V",
        'w' => "W",
        'x' => "X",
        'y' => "Y",
        'z' => "Z",
        _ => "",
    }
}

fn lower_lit(c: char) -> (r: &'static str)
    requires
        'A' <= c && c <= 'Z',
    ensures
        r@ =~= seq![lower_char(c)],
{
    proof {
        reveal_strlit("a");
        reveal_strlit("b");
        reveal_strlit("c");
        reveal_strlit("d");
        reveal_strlit("e");
        reveal_strlit("f");
        reveal_strlit("g");
        reveal_strlit("h");
        reveal_strlit("i");
        reveal_strlit("j");
        reveal_strlit("k");
        reveal_strlit("l");
        reveal_strlit("m");
        reveal_strlit("n");
        reveal_strlit("o");
        reveal_strlit("p");
        reveal_strlit("q");
        reveal_strlit("r");
        reveal_strlit("s");
        reveal_strlit("t");
        reveal_strlit("u");
        reveal_strlit("v");
        reveal_strlit("w");
        reveal_strlit("x");
        reveal_strlit("y");
        reveal_strlit("z");
    }
    match c {
        'A' => "a",
        'B' => "b",
        'C' => "c",
        'D' => "d",
        'E' => "e",
        'F' => "f",
        'G' => "g",
        'H' => "h",
        'I' => "i",
        'J' => "j",
        'K' => "k",
        'L' => "l",
        'M' => "m",
        'N' => "n",
        'O' => "o",
        'P' => "p",
        'Q' => "q",
        'R' => "r",
        'S' => "s",
        'T' => "t",
        'U' => "u",
        'V' => "v",
        'W' => "w",
        'X' => "x",
        'Y' => "y",
        'Z' => "z",
        _ => "",
    }
}

/// Builds the ASCII upper-casing of a string.
pub fn upper_string(s: &str) -> (r: String)
    ensures
        r@ == upper_str(s@),
{
    let n = s.unicode_len();
    let mut out = String::new();
    let mut i: usize = 0;
    while i < n
        invariant
            n == s@.len(),
            0 <= i <= n,
            out@ =~= upper_str(s@).take(i as int),
        decreases n - i,
    {
        let c = s.get_char(i);
        if 'a' <= c && c <= 'z' {
            out.append(upper_lit(c));
        } else {
            out.append(s.substring_char(i, i + 1));
            proof {
                assert(s@.subrange(i as int, i as int + 1) =~= seq![s@[i as int]]);
            }
        }
        proof {
            assert(out@ =~= upper_str(s@).take(i as int + 1));
        }
        i = i + 1;
    }
    proof {
        assert(upper_str(s@).take(n as int) =~= upper_str(s@));
    }
    out
}

/// Builds the ASCII lower-casing of a string.
pub fn lower_string(s: &str) -> (r: String)
    ensures
        r@ == lower_str(s@),
{
    let n = s.unicode_len();
    let mut out = String::new();
    let mut i: usize = 0;
    while i < n
        invariant
            n == s@.len(),
            0 <= i <= n,
            out@ =~= lower_str(s@).take(i as int),
        decreases n - i,
    {
        let c = s.get_char(i);
        if 'A' <= c && c <= 'Z' {
            out.append(lower_lit(c));
        } else {
            out.append(s.substring_char(i, i + 1));
            proof {
                assert(s@.subrange(i as int, i as int + 1) =~= seq![s@[i as int]]);
            }
        }
        proof {
            assert(out@ =~= lower_str(s@).take(i as int + 1));
        }
        i = i + 1;
    }
    proof {
        assert(lower_str(s@).take(n as int) =~= lower_str(s@));
    }
    out
}


/// The environment as the caller sees it: the process variables, and what
/// the system user database gives for the home directory, if anything.
pub struct EnvTable {
    pub vars: Vec<(String, String)>,
    pub passwd_home: Option<String>,
}

/// Pair-wise view of the variable table.
pub open spec fn vars_view(vars: Seq<(String, String)>) -> Seq<(Seq<char>, Seq<char>)> {
    Seq::new(vars.len(), |i: int| (vars[i].0@, vars[i].1@))
}

impl EnvTable {
    /// The variable table in mathematical form.
    pub open spec fn vars_v(&self) -> Seq<(Seq<char>, Seq<char>)> {
        vars_view(self.vars@)
    }

    /// The user-database home directory in mathematical form.
    pub open spec fn passwd_v(&self) -> Option<Seq<char>> {
        match self.passwd_home {
            Option::Some(ref d) => Some(d@),
            Option::None => None,
        }
    }
}

/// First value bound to `key` in the variable table, if any.
pub open spec fn env_first(vars: Seq<(Seq<char>, Seq<char>)>, key: Seq<char>) -> Option<Seq<char>>
    decreases vars.len(),
{
    if vars.len() == 0 {
        None
    } else if vars[0].0 == key {
        Some(vars[0].1)
    } else {
        env_first(vars.drop_first(), key)
    }
}

proof fn lemma_env_first_step(vars: Seq<(Seq<char>, Seq<char>)>, key: Seq<char>, i: int)
    requires
        0 <= i < vars.len(),
        vars[i].0 != key,
    ensures
        env_first(vars.skip(i), key) == env_first(vars.skip(i + 1), key),
{
    assert(vars.skip(i).drop_first() =~= vars.skip(i + 1));
    assert(vars.skip(i)[0] == vars[i]);
}

/// Looks a name up in the variable table, as `env_first` describes.
pub fn env_var_value(env: &EnvTable, name: &str) -> (r: Option<String>)
    ensures
        match r {
            Some(v) => env_first(env.vars_v(), name@) == Some(v@),
            None => env_first(env.vars_v(), name@) is None,
        },
{
    let ghost all = env.vars_v();
    proof {
        assert(all.skip(0) =~= all);
    }
    let n = env.vars.len();
    let mut i: usize = 0;
    while i < n
        invariant
            n == env.vars@.len(),
            all == env.vars_v(),
            all.len() == n,
            forall|k: int| 0 <= k < n ==> all[k] == (env.vars@[k].0@, env.vars@[k].1@),
            0 <= i <= n,
            env_first(all, name@) == env_first(all.skip(i as int), name@),
        decreases n - i,
    {
        let kv = &env.vars[i];
        if crate::value::str_eq(kv.0.as_str(), name) {
            proof {
                assert(all.skip(i as int)[0] == all[i as int]);
            }
            return Some(kv.1.clone());
        }
        proof {
            lemma_env_first_step(all, name@, i as int);
        }
        i = i + 1;
    }
    proof {
        assert(all.skip(n as int) =~= Seq::<(Seq<char>, Seq<char>)>::empty());
    }
    None
}

/// A variable's value, but only when it has visible content.
pub open spec fn env_nonempty_spec(vars: Seq<(Seq<char>, Seq<char>)>, key: Seq<char>) -> Option<
    Seq<char>,
> {
    match env_first(vars, key) {
        Option::Some(v) => if trim_spec(v).len() > 0 {
            Some(v)
        } else {
            None
        },
        Option::None => None,
    }
}

fn env_nonempty(env: &EnvTable, name: &str) -> (r: Option<String>)
    ensures
        match r {
            Some(v) => env_nonempty_spec(env.vars_v(), name@) == Some(v@),
            None => env_nonempty_spec(env.vars_v(), name@) is None,
        },
{
    match env_var_value(env, name) {
        Option::Some(v) => {
            if !trim_str(v.as_str()).is_empty() {
                Some(v)
            } else {
                None
            }
        },
        Option::None => None,
    }
}

/// The environment lookup behind a reference: the name itself first, then
/// its upper-cased form if that differs, then its lower-cased form if that
/// differs from both; only values with visible content count.
pub open spec fn lookup_env_spec(vars: Seq<(Seq<char>, Seq<char>)>, name: Seq<char>) -> Option<
    Seq<char>,
> {
    if env_nonempty_spec(vars, name) is Some {
        env_nonempty_spec(vars, name)
    } else {
        let up = upper_str(name);
        if up != name && env_nonempty_spec(vars, up) is Some {
            env_nonempty_spec(vars, up)
        } else {
            let low = lower_str(name);
            if low != name && low != up && env_nonempty_spec(vars, low) is Some {
                env_nonempty_spec(vars, low)
            } else {
                None
            }
        }
    }
}

/// Looks a referenced name up in the environment, as `lookup_env_spec`
/// describes.
pub fn lookup_env_value(name: &str, env: &EnvTable) -> (r: Option<String>)
    ensures
        match r {
            Some(v) => lookup_env_spec(env.vars_v(), name@) == Some(v@),
            None => lookup_env_spec(env.vars_v(), name@) is None,
        },
{
    if let Some(v) = env_nonempty(env, name) {
        return Some(v);
    }
    let up = upper_string(name);
    if !crate::value::str_eq(up.as_str(), name) {
        if let Some(v) = env_nonempty(env, up.as_str()) {
            return Some(v);
        }
    }
    let low = lower_string(name);
    if !crate::value::str_eq(low.as_str(), name) && !crate::value::str_eq(
        low.as_str(),
        up.as_str(),
    ) {
        if let Some(v) = env_nonempty(env, low.as_str()) {
            return Some(v);
        }
    }
    None
}

/// The home directory: the `HOME` variable when it has content, then
/// `USERPROFILE`, then what the user database reports.
pub open spec fn home_dir_spec(env: EnvTable) -> Option<Seq<char>> {
    if env_nonempty_spec(env.vars_v(), "HOME"@) is Some {
        env_nonempty_spec(env.vars_v(), "HOME"@)
    } else if env_nonempty_spec(env.vars_v(), "USERPROFILE"@) is Some {
        env_nonempty_spec(env.vars_v(), "USERPROFILE"@)
    } else {
        match env.passwd_v() {
            Option::Some(d) => if trim_spec(d).len() > 0 {
                Some(d)
            } else {
                None
            },
            Option::None => None,
        }
    }
}

/// Resolves the home directory, as `home_dir_spec` describes.
pub fn resolve_home_dir(env: &EnvTable) -> (r: Option<String>)
    ensures
        match r {
            Some(v) => home_dir_spec(*env) == Some(v@),
            None => home_dir_spec(*env) is None,
        },
{
    if let Some(v) = env_nonempty(env, "HOME") {
        return Some(v);
    }
    if let Some(v) = env_nonempty(env, "USERPROFILE") {
        return Some(v);
    }
    match &env.passwd_home {
        Option::Some(d) => {
            if !trim_str(d.as_str()).is_empty() {
                Some(d.clone())
            } else {
                None
            }
        },
        Option::None => None,
    }
}

/// What a `$VAR` or `%VAR%` reference resolves to: a name that spells
/// `HOME` in any casing prefers the home directory; everything else, and a
/// home that cannot be resolved, goes through the environment lookup.
pub open spec fn resolve_env_var_spec(env: EnvTable, name: Seq<char>) -> Option<Seq<char>> {
    if upper_str(name) == "HOME"@ && home_dir_spec(env) is Some {
        home_dir_spec(env)
    } else {
        lookup_env_spec(env.vars_v(), name)
    }
}

/// Resolves a referenced name, as `resolve_env_var_spec` describes.
pub fn resolve_env_var(name: &str, env: &EnvTable) -> (r: Option<String>)
    ensures
        match r {
            Some(v) => resolve_env_var_spec(*env, name@) == Some(v@),
            None => resolve_env_var_spec(*env, name@) is None,
        },
{
    let up = upper_string(name);
    if crate::value::str_eq(up.as_str(), "HOME") {
        if let Some(h) = resolve_home_dir(env) {
            return Some(h);
        }
    }
    lookup_env_value(name, env)
}


/// A character that may stand in a bare `$VAR` name.
pub open spec fn is_env_char(c: char) -> bool {
    ('a' <= c && c <= 'z') || ('A' <= c && c <= 'Z') || ('0' <= c && c <= '9') || c == '_'
}

fn is_env_char_x(c: char) -> (r: bool)
    ensures
        r == is_env_char(c),
{
    ('a' <= c && c <= 'z') || ('A' <= c && c <= 'Z') || ('0' <= c && c <= '9') || c == '_'
}

/// Length of the leading run of name characters.
pub open spec fn env_name_end(s: Seq<char>) -> int
    decreases s.len(),
{
    if s.len() == 0 {
        0
    } else if !is_env_char(s[0]) {
        0
    } else {
        1 + env_name_end(s.drop_first())
    }
}

/// Index of the first occurrence of a character, if any.
pub open spec fn find_char(s: Seq<char>, c: char) -> Option<int>
    decreases s.len(),
{
    if s.len() == 0 {
        None
    } else if s[0] == c {
        Some(0)
    } else {
        match find_char(s.drop_first(), c) {
            Option::Some(i) => Some(1 + i),
            Option::None => None,
        }
    }
}

/// What a resolved reference followed by remaining text expands to.
pub open spec fn expand_named_spec(env: EnvTable, name: Seq<char>, remainder: Seq<char>) -> Option<
    Seq<char>,
> {
    if name.len() == 0 {
        None
    } else {
        match resolve_env_var_spec(env, name) {
            Option::Some(v) => Some(join_env_spec(v, remainder)),
            Option::None => None,
        }
    }
}

fn expand_named(env: &EnvTable, name: &str, remainder: &str) -> (r: Option<String>)
    ensures
        match r {
            Some(p) => expand_named_spec(*env, name@, remainder@) == Some(p@),
            None => expand_named_spec(*env, name@, remainder@) is None,
        },
{
    if name.is_empty() {
        return None;
    }
    match resolve_env_var(name, env) {
        Option::Some(v) => Some(join_env_path(v.as_str(), remainder)),
        Option::None => None,
    }
}

/// What a value beginning with `~` expands to: `~` alone is the home
/// directory, `~/rest` joins onto it, and anything else is left to the
/// later rules.
pub open spec fn expand_tilde_spec(env: EnvTable, value: Seq<char>) -> Option<Seq<char>> {
    if value.len() == 0 || value[0] != '~' {
        None
    } else if value.len() == 1 {
        home_dir_spec(env)
    } else if value[1] != '/' {
        None
    } else {
        match home_dir_spec(env) {
            Option::Some(h) => Some(join_path_spec(h, value.skip(2))),
            Option::None => None,
        }
    }
}

/// Expands a leading `~`, as `expand_tilde_spec` describes.
pub fn expand_tilde(value: &str, env: &EnvTable) -> (r: Option<String>)
    ensures
        match r {
            Some(p) => expand_tilde_spec(*env, value@) == Some(p@),
            None => expand_tilde_spec(*env, value@) is None,
        },
{
    let n = value.unicode_len();
    if n == 0 || value.get_char(0) != '~' {
        return None;
    }
    if n == 1 {
        return resolve_home_dir(env);
    }
    if value.get_char(1) != '/' {
        return None;
    }
    let rest = value.substring_char(2, n);
    match resolve_home_dir(env) {
        Option::Some(h) => Some(join_path(h.as_str(), rest)),
        Option::None => None,
    }
}

/// What a value beginning with `$` expands to: `${NAME}rest` or `$NAMErest`,
/// where the bare name is the leading run of name characters.
pub open spec fn expand_dollar_spec(env: EnvTable, value: Seq<char>) -> Option<Seq<char>> {
    if value.len() == 0 || value[0] != '$' {
        None
    } else {
        let rest = value.drop_first();
        if rest.len() == 0 {
            None
        } else if rest[0] == '{' {
            let inner = rest.drop_first();
            match find_char(inner, '}') {
                Option::Some(e) => expand_named_spec(env, inner.take(e), inner.skip(e + 1)),
                Option::None => None,
            }
        } else {
            let e = env_name_end(rest);
            expand_named_spec(env, rest.take(e), rest.skip(e))
        }
    }
}

/// Expands a leading `$` reference, as `expand_dollar_spec` describes.
pub fn expand_dollar_env(value: &str, env: &EnvTable) -> (r: Option<String>)
    ensures
        match r {
            Some(p) => expand_dollar_spec(*env, value@) == Some(p@),
            None => expand_dollar_spec(*env, value@) is None,
        },
{
    let n = value.unicode_len();
    if n == 0 || value.get_char(0) != '$' {
        return None;
    }
    if n == 1 {
        return None;
    }
    let ghost rest = value@.drop_first();
    if value.get_char(1) == '{' {
        let ghost inner = rest.drop_first();
        let mut i: usize = 2;
        proof {
            assert(value@.skip(2) =~= inner);
        }
        while i < n && value.get_char(i) != '}'
            invariant
                n == value@.len(),
                n >= 2,
                inner == value@.drop_first().drop_first(),
                inner =~= value@.skip(2),
                2 <= i <= n,
                find_char(inner, '}') == (match find_char(value@.skip(i as int), '}') {
                    Option::Some(k) => Some(i - 2 + k),
                    Option::None => None::<int>,
                }),
            decreases n - i,
        {
            proof {
                assert(value@.skip(i as int)[0] == value@[i as int]);
                assert(value@.skip(i as int).drop_first() =~= value@.skip(i as int + 1));
            }
            i = i + 1;
        }
        if i == n {
            proof {
                assert(value@.skip(n as int) =~= Seq::<char>::empty());
            }
            return None;
        }
        proof {
            assert(value@.skip(i as int)[0] == value@[i as int]);
            assert(find_char(inner, '}') == Some(i - 2));
        }
        let name = value.substring_char(2, i);
        let remainder = value.substring_char(i + 1, n);
        proof {
            assert(name@ =~= inner.take(i - 2));
            assert(remainder@ =~= inner.skip(i - 2 + 1));
        }
        expand_named(env, name, remainder)
    } else {
        let mut i: usize = 1;
        proof {
            assert(value@.skip(1) =~= rest);
        }
        while i < n && is_env_char_x(value.get_char(i))
            invariant
                n == value@.len(),
                n >= 2,
                rest == value@.drop_first(),
                rest =~= value@.skip(1),
                1 <= i <= n,
                env_name_end(rest) == i - 1 + env_name_end(value@.skip(i as int)),
            decreases n - i,
        {
            proof {
                assert(value@.skip(i as int)[0] == value@[i as int]);
                assert(value@.skip(i as int).drop_first() =~= value@.skip(i as int + 1));
            }
            i = i + 1;
        }
        proof {
            if i == n {
                assert(value@.skip(n as int) =~= Seq::<char>::empty());
            }
            assert(env_name_end(rest) == i - 1);
        }
        let name = value.substring_char(1, i);
        let remainder = value.substring_char(i, n);
        proof {
            assert(name@ =~= rest.take(i - 1));
            assert(remainder@ =~= rest.skip(i - 1));
        }
        expand_named(env, name, remainder)
    }
}

/// What a value beginning with `%` expands to: `%NAME%rest`.
pub open spec fn expand_percent_spec(env: EnvTable, value: Seq<char>) -> Option<Seq<char>> {
    if value.len() == 0 || value[0] != '%' {
        None
    } else {
        let rest = value.drop_first();
        match find_char(rest, '%') {
            Option::Some(e) => expand_named_spec(env, rest.take(e), rest.skip(e + 1)),
            Option::None => None,
        }
    }
}

/// Expands a leading `%` reference, as `expand_percent_spec` describes.
pub fn expand_percent_env(value: &str, env: &EnvTable) -> (r: Option<String>)
    ensures
        match r {
            Some(p) => expand_percent_spec(*env, value@) == Some(p@),
            None => expand_percent_spec(*env, value@) is None,
        },
{
    let n = value.unicode_len();
    if n == 0 || value.get_char(0) != '%' {
        return None;
    }
    let ghost rest = value@.drop_first();
    let mut i: usize = 1;
    proof {
        assert(value@.skip(1) =~= rest);
    }
    while i < n && value.get_char(i) != '%'
        invariant
            n == value@.len(),
            n >= 1,
            rest == value@.drop_first(),
            rest =~= value@.skip(1),
            1 <= i <= n,
            find_char(rest, '%') == (match find_char(value@.skip(i as int), '%') {
                Option::Some(k) => Some(i - 1 + k),
                Option::None => None::<int>,
            }),
        decreases n - i,
    {
        proof {
            assert(value@.skip(i as int)[0] == value@[i as int]);
            assert(value@.skip(i as int).drop_first() =~= value@.skip(i as int + 1));
        }
        i = i + 1;
    }
    if i == n {
        proof {
            assert(value@.skip(n as int) =~= Seq::<char>::empty());
        }
        return None;
    }
    proof {
        assert(value@.skip(i as int)[0] == value@[i as int]);
        assert(find_char(rest, '%') == Some(i - 1));
    }
    let name = value.substring_char(1, i);
    let remainder = value.substring_char(i + 1, n);
    proof {
        assert(name@ =~= rest.take(i - 1));
        assert(remainder@ =~= rest.skip(i - 1 + 1));
    }
    expand_named(env, name, remainder)
}

/// What a configured home value normalises to: the trimmed value expanded
/// by the first rule that applies, or taken verbatim; a blank value is
/// rejected.
pub open spec fn normalize_spec(env: EnvTable, value: Seq<char>) -> Option<Seq<char>> {
    let t = trim_spec(value);
    if t.len() == 0 {
        None
    } else if expand_tilde_spec(env, t) is Some {
        expand_tilde_spec(env, t)
    } else if expand_dollar_spec(env, t) is Some {
        expand_dollar_spec(env, t)
    } else if expand_percent_spec(env, t) is Some {
        expand_percent_spec(env, t)
    } else {
        Some(t)
    }
}

/// Normalises a configured home value, as `normalize_spec` describes.
pub fn normalize_codex_home(value: &str, env: &EnvTable) -> (r: Option<String>)
    ensures
        match r {
            Some(p) => normalize_spec(*env, value@) == Some(p@),
            None => normalize_spec(*env, value@) is None,
        },
{
    let trimmed = trim_str(value);
    if trimmed.is_empty() {
        return None;
    }
    if let Some(p) = expand_tilde(trimmed, env) {
        return Some(p);
    }
    if let Some(p) = expand_dollar_env(trimmed, env) {
        return Some(p);
    }
    if let Some(p) = expand_percent_env(trimmed, env) {
        return Some(p);
    }
    Some(trimmed.to_owned())
}

/// The default configuration home: a `CODEX_HOME` variable that normalises,
/// else `.codex` under the home directory.
pub open spec fn default_codex_home_spec(env: EnvTable) -> Option<Seq<char>> {
    let configured = match env_first(env.vars_v(), "CODEX_HOME"@) {
        Option::Some(v) => normalize_spec(env, v),
        Option::None => None,
    };
    if configured is Some {
        configured
    } else {
        match home_dir_spec(env) {
            Option::Some(h) => Some(join_path_spec(h, ".codex"@)),
            Option::None => None,
        }
    }
}

/// Resolves the default configuration home, as `default_codex_home_spec`
/// describes.
pub fn resolve_default_codex_home(env: &EnvTable) -> (r: Option<String>)
    ensures
        match r {
            Some(p) => default_codex_home_spec(*env) == Some(p@),
            None => default_codex_home_spec(*env) is None,
        },
{
    if let Some(v) = env_var_value(env, "CODEX_HOME") {
        if let Some(p) = normalize_codex_home(v.as_str(), env) {
            return Some(p);
        }
    }
    match resolve_home_dir(env) {
        Option::Some(h) => Some(join_path(h.as_str(), ".codex")),
        Option::None => None,
    }
}

/// The configuration home of a workspace: every workspace uses the default
/// resolution.
pub fn resolve_workspace_codex_home(env: &EnvTable) -> (r: Option<String>)
    ensures
        match r {
            Some(p) => default_codex_home_spec(*env) == Some(p@),
            None => default_codex_home_spec(*env) is None,
        },
{
    resolve_default_codex_home(env)
}

} // verus!
