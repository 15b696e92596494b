//! The platform layer: where the platform's directories are, how `~` expands,
//! how full a filesystem is. Environment variables and filesystem statistics
//! are read by the caller; these functions decide from the values read.
//!
//! Paths are strings joined with the platform's separator.

pub mod linux;
pub mod unix_lsof;
pub mod windows;

use crate::text::{chars_eq, first_of, chars_of, concat, split_chars, split_spec, string_of, string_views, trim_chars, trim_spec, vec_views};
use vstd::prelude::*;

verus! {

/// A path separator on `platform`: `/` everywhere, `\\` too on Windows.
pub open spec fn is_sep(platform: Platform, c: char) -> bool {
    c == '/' || (platform == Platform::Windows && c == '\\')
}

/// `s` begins with a Windows drive prefix such as `C:`.
pub open spec fn has_drive(s: Seq<char>) -> bool {
    &&& s.len() >= 2
    &&& s[1] == ':'
    &&& (('a' <= s[0] && s[0] <= 'z') || ('A' <= s[0] && s[0] <= 'Z'))
}

/// `rest` joined onto `base` the way a path join does on `platform`.
/// On Unix and macOS: an absolute `rest` replaces `base`, an empty `base`
/// yields `rest`, and a `/` is added unless `base` already ends in one.
/// On Windows, for drive-letter and relative paths: a `rest` with a drive
/// prefix or starting with two separators (a share or verbatim path)
/// replaces `base`; a `rest` starting with one separator keeps only the
/// drive of `base`; a bare drive (`C:`) or a `base` ending in a separator
/// takes `rest` as it is; otherwise `\\` is added between them.
pub open spec fn join_spec(platform: Platform, base: Seq<char>, rest: Seq<char>) -> Seq<char> {
    if platform != Platform::Windows {
        if rest.len() > 0 && rest[0] == '/' {
            rest
        } else if base.len() == 0 {
            rest
        } else if base.last() == '/' {
            base + rest
        } else {
            base + seq!['/'] + rest
        }
    } else if has_drive(rest) || (rest.len() >= 2 && is_sep(platform, rest[0]) && is_sep(platform, rest[1])) {
        rest
    } else if rest.len() > 0 && is_sep(platform, rest[0]) {
        if has_drive(base) {
            base.subrange(0, 2) + rest
        } else {
            rest
        }
    } else if base.len() == 0 {
        rest
    } else if base.len() == 2 && has_drive(base) {
        base + rest
    } else if is_sep(platform, base.last()) {
        base + rest
    } else {
        base + seq!['\\'] + rest
    }
}

fn drive_prefixed(v: &Vec<char>) -> (r: bool)
    ensures
        r == has_drive(v@),
{
    v.len() >= 2 && v[1] == ':' && (('a' <= v[0] && v[0] <= 'z') || ('A' <= v[0] && v[0] <= 'Z'))
}

/// `rest` joined onto `base` on `platform`; see [`join_spec`].
pub fn path_join(platform: Platform, base: &str, rest: &str) -> (r: String)
    ensures
        r@ == join_spec(platform, base@, rest@),
{
    let b = chars_of(base);
    let q = chars_of(rest);
    if platform != Platform::Windows {
        if q.len() > 0 && q[0] == '/' {
            String::from_str(rest)
        } else if b.len() == 0 {
            String::from_str(rest)
        } else if b[b.len() - 1] == '/' {
            concat(base, rest)
        } else {
            proof { reveal_strlit("/"); }
            let mut r = concat(base, "/");
            r.append(rest);
            r
        }
    } else {
        let q_sep0 = q.len() > 0 && (q[0] == '/' || q[0] == '\\');
        let q_sep1 = q.len() > 1 && (q[1] == '/' || q[1] == '\\');
        if drive_prefixed(&q) || (q_sep0 && q_sep1) {
            String::from_str(rest)
        } else if q_sep0 {
            if drive_prefixed(&b) {
                let d = base.substring_char(0, 2);
                concat(d, rest)
            } else {
                String::from_str(rest)
            }
        } else if b.len() == 0 {
            String::from_str(rest)
        } else if b.len() == 2 && drive_prefixed(&b) {
            concat(base, rest)
        } else if b[b.len() - 1] == '/' || b[b.len() - 1] == '\\' {
            concat(base, rest)
        } else {
            proof { reveal_strlit("\\"); }
            let mut r = concat(base, "\\");
            r.append(rest);
            r
        }
    }
}

/// `raw` with a leading `~`, `~/` or `~\\` expanded against `home`, joined
/// the way `platform` joins paths.
pub open spec fn expand_home_spec(platform: Platform, raw: Seq<char>, home: Seq<char>) -> Seq<char> {
    if raw.len() >= 2 && raw[0] == '~' && (raw[1] == '/' || raw[1] == '\\') {
        join_spec(platform, home, raw.subrange(2, raw.len() as int))
    } else if raw == seq!['~'] {
        home
    } else {
        raw
    }
}

/// Expand a leading `~`, `~/` or `~\\` against the home directory `home`.
/// Anything else passes through unchanged.
pub fn expand_home(platform: Platform, raw: &str, home: &str) -> (r: String)
    ensures
        r@ == expand_home_spec(platform, raw@, home@),
{
    let c = chars_of(raw);
    if c.len() >= 2 && c[0] == '~' && (c[1] == '/' || c[1] == '\\') {
        let rest = raw.substring_char(2, c.len());
        path_join(platform, home, rest)
    } else if c.len() == 1 && c[0] == '~' {
        assert(raw@ =~= seq!['~']);
        String::from_str(home)
    } else {
        assert(raw@ != seq!['~']);
        String::from_str(raw)
    }
}

/// The platforms whose directory conventions differ.
#[derive(Debug, Clone, Copy, PartialEq, Eq, Structural)]
pub enum Platform {
    /// Linux and the BSDs: XDG base directories.
    Unix,
    /// macOS: `~/Library/...`.
    MacOs,
    /// Windows: `%LOCALAPPDATA%` and `%USERPROFILE%`.
    Windows,
}

/// The user's home directory: `%USERPROFILE%` on Windows, `$HOME` elsewhere,
/// then the platform's own answer (`fallback`), and `/` when nothing resolves.
pub open spec fn home_dir_spec(
    platform: Platform,
    userprofile: Option<Seq<char>>,
    home: Option<Seq<char>>,
    fallback: Option<Seq<char>>,
) -> Seq<char> {
    let primary = if platform == Platform::Windows { userprofile } else { home };
    match primary {
        Some(p) => p,
        None => match fallback {
            Some(f) => f,
            None => seq!['/'],
        },
    }
}

/// The view of an optional string.
pub open spec fn opt_view(o: Option<String>) -> Option<Seq<char>> {
    match o {
        Some(s) => Some(s@),
        None => None,
    }
}

/// The user's home directory from the environment values read by the caller.
pub fn home_dir(platform: Platform, userprofile: Option<String>, home: Option<String>, fallback: Option<String>) -> (r: String)
    ensures
        r@ == home_dir_spec(platform, opt_view(userprofile), opt_view(home), opt_view(fallback)),
{
    let primary = if platform == Platform::Windows { userprofile } else { home };
    match primary {
        Some(p) => p,
        None => match fallback {
            Some(f) => f,
            None => {
                proof { reveal_strlit("/"); }
                String::from_str("/")
            },
        },
    }
}

/// An environment value counts only when set and non-empty.
pub open spec fn env_path_spec(v: Option<Seq<char>>) -> Option<Seq<char>> {
    match v {
        Some(s) => if s.len() > 0 { Some(s) } else { None },
        None => None,
    }
}

/// An environment value, dropped when empty.
pub fn env_path(v: Option<String>) -> (r: Option<String>)
    ensures
        opt_view(r) == env_path_spec(opt_view(v)),
{
    match v {
        Some(s) => {
            if s.as_str().unicode_len() > 0 {
                Some(s)
            } else {
                None
            }
        },
        None => None,
    }
}

/// The environment variables that place the platform directories, as read.
pub struct DirEnv {
    pub local_app_data: Option<String>,
    pub xdg_config_home: Option<String>,
    pub xdg_state_home: Option<String>,
    pub xdg_cache_home: Option<String>,
    pub xdg_data_home: Option<String>,
}

/// An environment directory if set, else `home` joined with `rel`.
pub open spec fn env_or_home(platform: Platform, v: Option<Seq<char>>, home: Seq<char>, rel: Seq<char>) -> Seq<char> {
    match env_path_spec(v) {
        Some(p) => p,
        None => join_spec(platform, home, rel),
    }
}

fn env_or_home_exec(platform: Platform, v: &Option<String>, home: &str, rel: &str) -> (r: String)
    ensures
        r@ == env_or_home(platform, opt_view(*v), home@, rel@),
{
    match env_path(v.clone()) {
        Some(p) => p,
        None => path_join(platform, home, rel),
    }
}

/// The base of the per-platform config root (before the tool's own dir).
pub open spec fn config_base(platform: Platform, env: DirEnv, home: Seq<char>) -> Seq<char> {
    if platform == Platform::Windows {
        env_or_home(platform, opt_view(env.local_app_data), home, "AppData\\Local"@)
    } else if platform == Platform::MacOs {
        join_spec(platform, home, "Library/Application Support"@)
    } else {
        env_or_home(platform, opt_view(env.xdg_config_home), home, ".config"@)
    }
}

/// The per-platform config root: `$XDG_CONFIG_HOME` (or `~/.config`),
/// `~/Library/Application Support`, or `%LOCALAPPDATA%`, each with the tool's
/// own directory below it.
pub fn config_dir(platform: Platform, env: &DirEnv, home: &str) -> (r: String)
    ensures
        r@ == join_spec(platform, config_base(platform, *env, home@), "rldyour-cleaner"@),
{
    let base = if platform == Platform::Windows {
        env_or_home_exec(platform, &env.local_app_data, home, "AppData\\Local")
    } else if platform == Platform::MacOs {
        path_join(platform, home, "Library/Application Support")
    } else {
        env_or_home_exec(platform, &env.xdg_config_home, home, ".config")
    };
    path_join(platform, base.as_str(), "rldyour-cleaner")
}

/// Where `last-run.json` lives: `$XDG_STATE_HOME`/`~/.local/state` on
/// Linux/BSD, `%LOCALAPPDATA%` on Windows, the config root on macOS.
pub open spec fn state_dir_spec(platform: Platform, env: DirEnv, home: Seq<char>) -> Seq<char> {
    if platform == Platform::Unix {
        join_spec(platform, env_or_home(platform, opt_view(env.xdg_state_home), home, ".local/state"@), "rldyour-cleaner"@)
    } else if platform == Platform::Windows {
        join_spec(platform, env_or_home(platform, opt_view(env.local_app_data), home, "AppData\\Local"@), "rldyour-cleaner"@)
    } else {
        join_spec(platform, config_base(platform, env, home), "rldyour-cleaner"@)
    }
}

/// The state directory; see [`state_dir_spec`].
pub fn state_dir(platform: Platform, env: &DirEnv, home: &str) -> (r: String)
    ensures
        r@ == state_dir_spec(platform, *env, home@),
{
    if platform == Platform::Unix {
        let base = env_or_home_exec(platform, &env.xdg_state_home, home, ".local/state");
        path_join(platform, base.as_str(), "rldyour-cleaner")
    } else if platform == Platform::Windows {
        let base = env_or_home_exec(platform, &env.local_app_data, home, "AppData\\Local");
        path_join(platform, base.as_str(), "rldyour-cleaner")
    } else {
        config_dir(platform, env, home)
    }
}

/// The per-platform cache root: `~/.cache` (or `$XDG_CACHE_HOME`),
/// `~/Library/Caches`, `%LOCALAPPDATA%`.
pub open spec fn cache_dir_spec(platform: Platform, env: DirEnv, home: Seq<char>) -> Seq<char> {
    if platform == Platform::Windows {
        env_or_home(platform, opt_view(env.local_app_data), home, "AppData\\Local"@)
    } else if platform == Platform::MacOs {
        join_spec(platform, home, "Library/Caches"@)
    } else {
        env_or_home(platform, opt_view(env.xdg_cache_home), home, ".cache"@)
    }
}

/// The cache root; see [`cache_dir_spec`].
pub fn cache_dir(platform: Platform, env: &DirEnv, home: &str) -> (r: String)
    ensures
        r@ == cache_dir_spec(platform, *env, home@),
{
    if platform == Platform::Windows {
        env_or_home_exec(platform, &env.local_app_data, home, "AppData\\Local")
    } else if platform == Platform::MacOs {
        path_join(platform, home, "Library/Caches")
    } else {
        env_or_home_exec(platform, &env.xdg_cache_home, home, ".cache")
    }
}

/// The per-platform local data root: `~/.local/share` (or
/// `$XDG_DATA_HOME`), `~/Library/Application Support`, `%LOCALAPPDATA%`.
pub open spec fn data_local_dir_spec(platform: Platform, env: DirEnv, home: Seq<char>) -> Seq<char> {
    if platform == Platform::Windows {
        env_or_home(platform, opt_view(env.local_app_data), home, "AppData\\Local"@)
    } else if platform == Platform::MacOs {
        join_spec(platform, home, "Library/Application Support"@)
    } else {
        env_or_home(platform, opt_view(env.xdg_data_home), home, ".local/share"@)
    }
}

/// The local data root; see [`data_local_dir_spec`].
pub fn data_local_dir(platform: Platform, env: &DirEnv, home: &str) -> (r: String)
    ensures
        r@ == data_local_dir_spec(platform, *env, home@),
{
    if platform == Platform::Windows {
        env_or_home_exec(platform, &env.local_app_data, home, "AppData\\Local")
    } else if platform == Platform::MacOs {
        path_join(platform, home, "Library/Application Support")
    } else {
        env_or_home_exec(platform, &env.xdg_data_home, home, ".local/share")
    }
}

/// df-style used percentage: the share of `total` that is not available,
/// rounded down; `None` for a filesystem reporting no size.
pub open spec fn use_pct_spec(total: u64, avail: u64) -> Option<u64> {
    if total == 0 {
        None
    } else {
        Some((((total - avail) * 100) / (total as int)) as u64)
    }
}

/// The used percentage (0-100) of a filesystem with `total` bytes of which
/// `avail` are available to unprivileged users.
pub fn use_pct(total: u64, avail: u64) -> (r: Option<u64>)
    requires
        avail <= total,
    ensures
        r == use_pct_spec(total, avail),
        r matches Some(p) ==> p <= 100,
{
    if total == 0 {
        return None;
    }
    let used: u128 = (total - avail) as u128;
    assert(used * 100 <= total * 100) by (nonlinear_arith)
        requires
            used <= total,
    ;
    let pct: u128 = used * 100 / (total as u128);
    assert(pct <= 100) by (nonlinear_arith)
        requires
            pct == used * 100 / (total as int),
            used <= total,
            total > 0,
    {
        assert(used * 100 <= total * 100);
    }
    Some(pct as u64)
}

/// The largest of the measured levels; `None` when nothing was measurable.
pub open spec fn max_level(levels: Seq<Option<u64>>) -> Option<u64>
    decreases levels.len(),
{
    if levels.len() == 0 {
        None
    } else {
        let rest = max_level(levels.drop_last());
        match levels.last() {
            None => rest,
            Some(v) => match rest {
                None => Some(v),
                Some(m) => Some(if v > m { v } else { m }),
            },
        }
    }
}

/// The worst fill level across the filesystems that matter (each scan root and
/// the home directory), given each one's measured level.
pub fn pressure_level(levels: &Vec<Option<u64>>) -> (r: Option<u64>)
    ensures
        r == max_level(levels@),
{
    let mut best: Option<u64> = None;
    let mut i: usize = 0;
    while i < levels.len()
        invariant
            i <= levels@.len(),
            best == max_level(levels@.subrange(0, i as int)),
        decreases levels@.len() - i,
    {
        assert(levels@.subrange(0, i + 1).drop_last() =~= levels@.subrange(0, i as int));
        match levels[i] {
            Some(v) => {
                best = match best {
                    None => Some(v),
                    Some(m) => Some(if v > m { v } else { m }),
                };
            },
            None => {},
        }
        i = i + 1;
    }
    assert(levels@.subrange(0, levels@.len() as int) =~= levels@);
    best
}

/// du-style allocated size: 512-byte blocks where the OS reports them
/// (and reports a non-zero count), the apparent length otherwise.
pub fn file_size(blocks: Option<u64>, len: u64) -> (r: u64)
    requires
        blocks matches Some(b) ==> b * 512 <= u64::MAX,
    ensures
        r == (match blocks {
            Some(b) => if b > 0 { (b * 512) as u64 } else { len },
            None => len,
        }),
{
    match blocks {
        Some(b) => if b > 0 { b * 512 } else { len },
        None => len,
    }
}

/// A file whose permission bits grant execution to anyone.
pub fn mode_is_executable(mode: u32) -> (r: bool)
    ensures
        r == (mode & 0o111u32 != 0),
{
    mode & 0o111 != 0
}


/// The executable spellings drawn from `PATHEXT` pieces: each piece, trimmed,
/// appended to `name`, skipping pieces that are blank.
pub open spec fn ext_names(name: Seq<char>, pieces: Seq<Seq<char>>) -> Seq<Seq<char>>
    decreases pieces.len(),
{
    if pieces.len() == 0 {
        seq![]
    } else {
        let rest = ext_names(name, pieces.drop_last());
        let t = trim_spec(pieces.last());
        if t.len() > 0 {
            rest.push(name + t)
        } else {
            rest
        }
    }
}

/// `PATHEXT` as set, or Windows' own default.
pub open spec fn pathext_or_default(pathext: Option<Seq<char>>) -> Seq<char> {
    match pathext {
        Some(p) => p,
        None => ".COM;.EXE;.BAT;.CMD"@,
    }
}

/// The names under which `name` can be an executable: itself, and on
/// Windows also with each `PATHEXT` extension (`pathext` is the variable's
/// value, `None` when unset or not Unicode).
pub open spec fn exe_names_spec(name: Seq<char>, windows: bool, pathext: Option<Seq<char>>) -> Seq<Seq<char>> {
    if windows {
        seq![name] + ext_names(name, split_spec(pathext_or_default(pathext), ';'))
    } else {
        seq![name]
    }
}

/// The executable spellings of `name`; see [`exe_names_spec`].
pub fn exe_names(name: &str, windows: bool, pathext: Option<String>) -> (r: Vec<String>)
    ensures
        string_views(r@) == exe_names_spec(name@, windows, opt_view(pathext)),
{
    let mut r: Vec<String> = Vec::new();
    r.push(String::from_str(name));
    if !windows {
        assert(string_views(r@) =~= seq![name@]);
        return r;
    }
    let p = match pathext {
        Some(p) => p,
        None => String::from_str(".COM;.EXE;.BAT;.CMD"),
    };
    let pieces = split_chars(&chars_of(p.as_str()), ';');
    let ghost pv = vec_views(pieces@);
    let mut i: usize = 0;
    while i < pieces.len()
        invariant
            i <= pieces@.len(),
            pv == vec_views(pieces@),
            string_views(r@) == seq![name@] + ext_names(name@, pv.subrange(0, i as int)),
        decreases pieces@.len() - i,
    {
        assert(pv.subrange(0, i + 1).drop_last() =~= pv.subrange(0, i as int));
        assert(pv[i as int] == pieces@[i as int]@);
        let t = trim_chars(&pieces[i]);
        if t.len() > 0 {
            let ghost before = r@;
            let mut n = String::from_str(name);
            n.append(string_of(&t).as_str());
            r.push(n);
            assert(string_views(r@) =~= string_views(before).push(n@));
        }
        i = i + 1;
    }
    assert(pv.subrange(0, pv.len() as int) =~= pv);
    r
}


/// The non-empty pieces of a path other than `.`, in order.
pub open spec fn normals(segs: Seq<Seq<char>>) -> Seq<Seq<char>>
    decreases segs.len(),
{
    if segs.len() == 0 {
        seq![]
    } else {
        let r = normals(segs.drop_last());
        let s = segs.last();
        if s.len() > 0 && s != seq!['.'] {
            r.push(s)
        } else {
            r
        }
    }
}

/// The components of a path as `Path::components` yields them on Unix: a
/// root marker (`/`) for an absolute path, a `.` marker for a relative path
/// that starts with `.`, then every non-empty piece between separators other
/// than `.` (repeated separators and interior `.` are normalized away).
pub open spec fn components(p: Seq<char>) -> Seq<Seq<char>> {
    let segs = split_spec(p, '/');
    let head = if p.len() > 0 && p[0] == '/' {
        seq![seq!['/']]
    } else if segs.len() > 0 && segs[0] == seq!['.'] {
        seq![seq!['.']]
    } else {
        seq![]
    };
    head + normals(segs)
}

/// `base`'s components are a prefix of `p`'s: `Path::starts_with`.
pub open spec fn path_starts_with(p: Seq<char>, base: Seq<char>) -> bool {
    let a = components(base);
    let b = components(p);
    a.len() <= b.len() && b.subrange(0, a.len() as int) == a
}

proof fn split_nonempty(t: Seq<char>, c: char)
    ensures
        split_spec(t, c).len() > 0,
{
    let e = first_of(t, c, 0);
    if !(e >= t.len() || e < 0) {
        assert(split_spec(t, c) == seq![t.subrange(0, e)] + split_spec(t.subrange(e + 1, t.len() as int), c));
    }
}

/// The components of the path `p`; see [`components`].
pub fn path_components(p: &Vec<char>) -> (r: Vec<Vec<char>>)
    ensures
        vec_views(r@) == components(p@),
{
    let segs = split_chars(p, '/');
    let ghost sv = vec_views(segs@);
    proof { split_nonempty(p@, '/'); }
    let mut r: Vec<Vec<char>> = Vec::new();
    if p.len() > 0 && p[0] == '/' {
        let mut m: Vec<char> = Vec::new();
        m.push('/');
        r.push(m);
        assert(vec_views(r@) =~= seq![seq!['/']]);
    } else {
        assert(sv[0] == segs@[0]@);
        if segs[0].len() == 1 && segs[0][0] == '.' {
            let mut m: Vec<char> = Vec::new();
            m.push('.');
            r.push(m);
            assert(segs@[0]@ =~= seq!['.']);
            assert(vec_views(r@) =~= seq![seq!['.']]);
        } else {
            assert(segs@[0]@ != seq!['.']);
            assert(vec_views(r@) =~= seq![]);
        }
    }
    let ghost head = vec_views(r@);
    let mut i: usize = 0;
    while i < segs.len()
        invariant
            i <= segs@.len(),
            sv == vec_views(segs@),
            vec_views(r@) == head + normals(sv.subrange(0, i as int)),
        decreases segs@.len() - i,
    {
        assert(sv.subrange(0, i + 1).drop_last() =~= sv.subrange(0, i as int));
        assert(sv[i as int] == segs@[i as int]@);
        let s = &segs[i];
        let dot = s.len() == 1 && s[0] == '.';
        if s.len() > 0 && !dot {
            let ghost before = vec_views(r@);
            assert(s@ != seq!['.']) by {
                if s@.len() == 1 {
                    assert(s@[0] != '.');
                }
            }
            r.push(s.clone());
            assert(vec_views(r@) =~= before.push(s@));
        } else {
            assert(!(s@.len() > 0 && s@ != seq!['.'])) by {
                if dot {
                    assert(s@ =~= seq!['.']);
                }
            }
        }
        i = i + 1;
    }
    assert(sv.subrange(0, sv.len() as int) =~= sv);
    r
}

/// Do the components `a` form a prefix of the components `b`?
pub fn components_prefix(a: &Vec<Vec<char>>, b: &Vec<Vec<char>>) -> (r: bool)
    ensures
        r == (vec_views(a@).len() <= vec_views(b@).len() && vec_views(b@).subrange(0, vec_views(a@).len() as int)
            == vec_views(a@)),
{
    let ghost av = vec_views(a@);
    let ghost bv = vec_views(b@);
    if a.len() > b.len() {
        return false;
    }
    let mut i: usize = 0;
    while i < a.len()
        invariant
            a@.len() <= b@.len(),
            i <= a@.len(),
            av == vec_views(a@),
            bv == vec_views(b@),
            forall|j: int| 0 <= j < i ==> av[j] == bv[j],
        decreases a@.len() - i,
    {
        assert(av[i as int] == a@[i as int]@);
        assert(bv[i as int] == b@[i as int]@);
        if !chars_eq(&a[i], &b[i]) {
            assert(bv.subrange(0, av.len() as int)[i as int] != av[i as int]);
            return false;
        }
        i = i + 1;
    }
    assert(bv.subrange(0, av.len() as int) =~= av);
    true
}

} // verus!
