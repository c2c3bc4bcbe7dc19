//! Where linkup keeps its files: the linkup directory, the files in it,
//! and `LINKUP_HOME` / `LINKUP_CONFIG` lines of `.env` files. Reading the
//! environment and walking directories are left to the caller.
use vstd::prelude::*;
use vstd::string::StringExecFns;
use crate::domains::{isolated_suffixes, is_isolated_state_file, string_views};
use crate::urls::opt_view;
use crate::text::{seq_ends_with, seq_starts_with, starts_with, ends_with, strip_prefix, trim, trim_spec};
use crate::update::split_on;

verus! {

/// `dir` with `file` pushed onto it (`PathBuf::push` on Unix): an absolute
/// `file` replaces the path; otherwise it is appended after a separator,
/// which is not doubled and not put after an empty path.
pub open spec fn join_path(dir: Seq<char>, file: Seq<char>) -> Seq<char> {
    if seq_starts_with(file, "/"@) {
        file
    } else if dir.len() == 0 || seq_ends_with(dir, "/"@) {
        dir + file
    } else {
        dir + "/"@ + file
    }
}

/// `dir` with `file` pushed onto it.
pub fn push_path(dir: &str, file: &str) -> (r: String)
    ensures
        r@ == join_path(dir@, file@),
{
    if starts_with(file, "/") {
        return String::from_str(file);
    }
    let mut r = String::from_str(dir);
    if dir.unicode_len() == 0 || ends_with(dir, "/") {
        r.append(file);
    } else {
        r.append("/");
        r.append(file);
    }
    r
}

/// The path of a file in the linkup directory `linkup_dir`.
pub fn linkup_file_path(linkup_dir: &str, file: &str) -> (r: String)
    ensures
        r@ == join_path(linkup_dir@, file@),
{
    push_path(linkup_dir, file)
}

/// The directory of the certificates in the linkup directory `linkup_dir`.
pub fn linkup_certs_dir_path(linkup_dir: &str) -> (r: String)
    ensures
        r@ == join_path(linkup_dir@, "certs"@),
{
    push_path(linkup_dir, "certs")
}

/// The linkup directory under a home directory (`$HOME/.linkup`, or
/// `/var/tmp/.linkup` without a home).
pub open spec fn default_linkup_dir(home: Option<Seq<char>>) -> Seq<char> {
    join_path(join_path(Seq::empty(), match home {
        Some(h) => h,
        None => "/var/tmp"@,
    }), ".linkup"@)
}

/// The linkup directory, in order of precedence: a non-empty
/// `LINKUP_HOME`, the `LINKUP_HOME` of a `.env` file, the active instance,
/// then the default under the home directory.
pub open spec fn linkup_dir(env_home: Option<Seq<char>>, dotenv_home: Option<Seq<char>>,
    active_instance: Option<Seq<char>>, home: Option<Seq<char>>) -> Seq<char> {
    match env_home {
        Some(h) if h.len() > 0 => h,
        _ => match dotenv_home {
            Some(h) => h,
            None => match active_instance {
                Some(a) => a,
                None => default_linkup_dir(home),
            },
        },
    }
}

/// `LINKUP_HOME`, when set and not empty, decides the linkup directory;
/// otherwise a `.env` file's `LINKUP_HOME`; otherwise the active instance;
/// otherwise `<HOME>/.linkup` (`/var/tmp/.linkup` without a home).
pub proof fn lemma_linkup_dir_precedence(env_home: Option<Seq<char>>, dotenv_home: Option<Seq<char>>,
    active_instance: Option<Seq<char>>, home: Option<Seq<char>>)
    ensures
        (env_home is Some && env_home->0.len() > 0) ==> linkup_dir(env_home, dotenv_home, active_instance, home) == env_home->0,
        !(env_home is Some && env_home->0.len() > 0) && dotenv_home is Some
            ==> linkup_dir(env_home, dotenv_home, active_instance, home) == dotenv_home->0,
        !(env_home is Some && env_home->0.len() > 0) && dotenv_home is None && active_instance is Some
            ==> linkup_dir(env_home, dotenv_home, active_instance, home) == active_instance->0,
        !(env_home is Some && env_home->0.len() > 0) && dotenv_home is None && active_instance is None
            && home is Some && home->0.len() > 0 && !seq_ends_with(home->0, "/"@)
            ==> linkup_dir(env_home, dotenv_home, active_instance, home) == home->0 + "/.linkup"@,
{
    reveal_strlit("/");
    reveal_strlit(".linkup");
    reveal_strlit("/.linkup");
    if !(env_home is Some && env_home->0.len() > 0) && dotenv_home is None && active_instance is None {
        if let Some(h) = home {
            if h.len() > 0 && !seq_ends_with(h, "/"@) {
                assert(join_path(Seq::empty(), h) =~= h) by {
                    if seq_starts_with(h, "/"@) {
                    } else {
                        assert(Seq::<char>::empty() + h =~= h);
                    }
                }
                assert(!seq_starts_with(".linkup"@, "/"@)) by {
                    assert(".linkup"@[0] == '.');
                    assert(".linkup"@.subrange(0, 1)[0] == '.');
                }
                assert(h + "/"@ + ".linkup"@ =~= h + "/.linkup"@);
            }
        }
    }
}

/// The views of an optional text.
pub open spec fn opt_seq(o: Option<&str>) -> Option<Seq<char>> {
    match o {
        Some(s) => Some(s@),
        None => None,
    }
}

/// The linkup directory from what the caller found: the `LINKUP_HOME`
/// variable, the `LINKUP_HOME` of a `.env` file, the active instance
/// directory, and the `HOME` variable.
pub fn linkup_dir_path(env_home: Option<&str>, dotenv_home: Option<&str>, active_instance: Option<&str>,
    home: Option<&str>) -> (r: String)
    ensures
        r@ == linkup_dir(opt_seq(env_home), opt_seq(dotenv_home), opt_seq(active_instance), opt_seq(home)),
{
    match env_home {
        Some(h) => {
            if h.unicode_len() > 0 {
                return String::from_str(h);
            }
        },
        None => {},
    }
    match dotenv_home {
        Some(h) => String::from_str(h),
        None => match active_instance {
            Some(a) => String::from_str(a),
            None => {
                let base = match home {
                    Some(h) => h,
                    None => "/var/tmp",
                };
                let root = push_path("", base);
                proof {
                    reveal_strlit("");
                    assert(""@ =~= Seq::<char>::empty());
                }
                push_path(root.as_str(), ".linkup")
            },
        },
    }
}

/// The name of the state file, or of an isolated instance's state file.
pub open spec fn state_file_name_spec(suffix: Option<Seq<char>>) -> Seq<char> {
    match suffix {
        None => "state"@,
        Some(s) => "state-"@ + s,
    }
}

/// The name of the state file (`state`), or of the state file of the
/// isolated instance `suffix` (`state-<suffix>`).
pub fn state_file_name(suffix: Option<&str>) -> (r: String)
    ensures
        r@ == state_file_name_spec(opt_seq(suffix)),
{
    match suffix {
        None => String::from_str("state"),
        Some(s) => {
            let mut r = String::from_str("state-");
            r.append(s);
            r
        },
    }
}

/// An isolated instance's suffix is found among the state files of a
/// listing exactly when the listing holds that instance's state file: once
/// the file is saved its instance is listed, once it is deleted it is not.
pub proof fn lemma_state_file_suffix_roundtrip(names: Seq<Seq<char>>, suffix: Seq<char>)
    ensures
        isolated_suffixes(names).contains(suffix) <==> names.contains(state_file_name_spec(Some(suffix))),
{
    reveal_strlit("state");
    reveal_strlit("state-");
    let name = state_file_name_spec(Some(suffix));
    let pred = |n: Seq<char>| is_isolated_state_file(n);
    let cut = |n: Seq<char>| n.subrange("state-"@.len() as int, n.len() as int);
    let kept = names.filter(pred);
    assert(name.subrange(0, 6) =~= "state-"@);
    assert(name.subrange(6, name.len() as int) =~= suffix);
    assert(isolated_suffixes(names) == kept.map_values(cut));
    if names.contains(name) {
        let i = choose|i: int| 0 <= i < names.len() && names[i] == name;
        assert(name != "state"@) by {
            if name == "state"@ {
                assert(name.len() == 5);
            }
        }
        assert(pred(name));
        names.lemma_filter_contains(pred, i);
        let k = choose|k: int| 0 <= k < kept.len() && kept[k] == name;
        assert(kept.map_values(cut)[k] == suffix);
    }
    if isolated_suffixes(names).contains(suffix) {
        let k = choose|k: int| 0 <= k < kept.map_values(cut).len() && kept.map_values(cut)[k] == suffix;
        let n = kept[k];
        names.lemma_filter_pred(pred, k);
        assert(kept.contains(n));
        names.lemma_filter_contains_rev(pred, n);
        assert(seq_starts_with(n, "state-"@));
        assert(n.subrange(0, 6) =~= "state-"@);
        assert(n.subrange(6, n.len() as int) == suffix);
        assert(n =~= name);
    }
}

/// The lines of a text as `str::lines` gives them: split at `\n`, a `\r`
/// before the `\n` dropped, and no empty last line after a final `\n`.
pub open spec fn text_lines(s: Seq<char>) -> Seq<Seq<char>> {
    let parts = split_on(s, '\n');
    let ended = Seq::new((parts.len() - 1) as nat, |i: int|
        if seq_ends_with(parts[i], "\r"@) { parts[i].drop_last() } else { parts[i] });
    if parts.last().len() == 0 {
        ended
    } else {
        ended.push(parts.last())
    }
}

/// The value of `key` in a `.env` text: the trimmed rest of the first line
/// that starts with `key=` and has a non-empty value.
pub open spec fn dotenv_value_from(lines: Seq<Seq<char>>, key: Seq<char>, i: int) -> Option<Seq<char>>
    decreases lines.len() - i,
{
    if i < 0 || i >= lines.len() {
        None
    } else if seq_starts_with(lines[i], key + "="@)
        && trim_spec(lines[i].subrange((key + "="@).len() as int, lines[i].len() as int)).len() > 0 {
        Some(trim_spec(lines[i].subrange((key + "="@).len() as int, lines[i].len() as int)))
    } else {
        dotenv_value_from(lines, key, i + 1)
    }
}

/// The value of `key` in a `.env` text.
pub open spec fn dotenv_value_spec(content: Seq<char>, key: Seq<char>) -> Option<Seq<char>> {
    dotenv_value_from(text_lines(content), key, 0)
}

proof fn lemma_split_on_nonempty(s: Seq<char>, sep: char)
    ensures
        split_on(s, sep).len() >= 1,
    decreases s.len(),
{
    if s.len() > 0 {
        lemma_split_on_nonempty(s.drop_last(), sep);
    }
}

/// The pieces of `s` between the separators (`str::split` on a character).
pub fn split_str(s: &str, sep: char) -> (r: Vec<String>)
    ensures
        string_views(r@) == split_on(s@, sep),
{
    let n = s.unicode_len();
    let mut parts: Vec<String> = Vec::new();
    let mut start: usize = 0;
    let mut i: usize = 0;
    assert(s@.take(0) =~= Seq::<char>::empty());
    assert(s@.subrange(0, 0) =~= Seq::<char>::empty());
    assert(string_views(parts@).push(s@.subrange(0, 0)) =~= split_on(s@.take(0), sep));
    while i < n
        invariant
            n == s@.len(),
            start <= i <= n,
            string_views(parts@).push(s@.subrange(start as int, i as int)) == split_on(s@.take(i as int), sep),
        decreases n - i,
    {
        let c = s.get_char(i);
        assert(s@.take(i + 1).drop_last() =~= s@.take(i as int));
        assert(s@.take(i + 1).last() == c);
        let ghost before = string_views(parts@);
        if c == sep {
            parts.push(String::from_str(s.substring_char(start, i)));
            assert(string_views(parts@) =~= before.push(s@.subrange(start as int, i as int)));
            start = i + 1;
            assert(s@.subrange(start as int, i + 1) =~= Seq::<char>::empty());
            assert(string_views(parts@).push(s@.subrange(start as int, i + 1)) =~= split_on(s@.take(i + 1), sep));
        } else {
            assert(s@.subrange(start as int, i + 1) =~= s@.subrange(start as int, i as int).push(c));
            assert(string_views(parts@).push(s@.subrange(start as int, i + 1)) =~= split_on(s@.take(i + 1), sep));
        }
        i = i + 1;
    }
    assert(s@.take(n as int) =~= s@);
    let ghost before = string_views(parts@);
    parts.push(String::from_str(s.substring_char(start, n)));
    assert(string_views(parts@) =~= before.push(s@.subrange(start as int, n as int)));
    parts
}

/// The lines of a text (`str::lines`).
pub fn lines(content: &str) -> (r: Vec<String>)
    ensures
        string_views(r@) == text_lines(content@),
{
    let parts = split_str(content, '\n');
    proof {
        lemma_split_on_nonempty(content@, '\n');
        reveal_strlit("\r");
    }
    let ghost ps = string_views(parts@);
    let ghost ended = Seq::new((ps.len() - 1) as nat, |i: int|
        if seq_ends_with(ps[i], "\r"@) { ps[i].drop_last() } else { ps[i] });
    let mut r: Vec<String> = Vec::new();
    let n = parts.len();
    let mut i: usize = 0;
    while i + 1 < n
        invariant
            n == parts@.len(),
            n >= 1,
            ps == string_views(parts@),
            ps == split_on(content@, '\n'),
            i + 1 <= n,
            ended == Seq::new((ps.len() - 1) as nat, |k: int|
                if seq_ends_with(ps[k], "\r"@) { ps[k].drop_last() } else { ps[k] }),
            string_views(r@) == ended.take(i as int),
            "\r"@ == seq!['\r'],
        decreases n - i,
    {
        let p = parts[i].as_str();
        let m = p.unicode_len();
        let line = if m > 0 && p.get_char(m - 1) == '\r' {
            String::from_str(p.substring_char(0, m - 1))
        } else {
            String::from_str(p)
        };
        assert(ps[i as int] == p@);
        assert(line@ =~= ended[i as int]) by {
            if m > 0 && p@[m - 1] == '\r' {
                assert(p@.drop_last() =~= p@.subrange(0, m - 1));
                assert(p@.subrange(m - 1, m as int) =~= "\r"@);
            } else {
                if seq_ends_with(p@, "\r"@) {
                    assert(p@.subrange(m - 1, m as int)[0] == p@[m - 1]);
                }
            }
        }
        let ghost prev = string_views(r@);
        r.push(line);
        assert(string_views(r@) =~= prev.push(ended[i as int]));
        assert(ended.take(i + 1) =~= ended.take(i as int).push(ended[i as int]));
        i = i + 1;
    }
    assert(ended.take(i as int) =~= ended);
    if parts[n - 1].unicode_len() > 0 {
        let last = parts[n - 1].clone();
        let ghost prev = string_views(r@);
        r.push(last);
        assert(string_views(r@) =~= prev.push(ps.last()));
    }
    r
}

/// The value of `key` in a `.env` text: the trimmed rest of the first line
/// that starts with `key=` and has a non-empty value.
pub fn dotenv_value(content: &str, key: &str) -> (r: Option<String>)
    ensures
        opt_view(r) == dotenv_value_spec(content@, key@),
{
    let ls = lines(content);
    let mut prefix = String::from_str(key);
    prefix.append("=");
    let ghost ts = text_lines(content@);
    let mut i: usize = 0;
    while i < ls.len()
        invariant
            i <= ls@.len(),
            string_views(ls@) == ts,
            ts == text_lines(content@),
            prefix@ == key@ + "="@,
            dotenv_value_from(ts, key@, 0) == dotenv_value_from(ts, key@, i as int),
        decreases ls@.len() - i,
    {
        assert(ts[i as int] == ls@[i as int]@);
        match strip_prefix(ls[i].as_str(), prefix.as_str()) {
            Some(rest) => {
                let v = trim(rest.as_str());
                if v.unicode_len() > 0 {
                    return Some(v);
                }
            },
            None => {},
        }
        i = i + 1;
    }
    None
}

/// The contents of a list of optional texts.
pub open spec fn opt_views(s: Seq<Option<String>>) -> Seq<Option<Seq<char>>> {
    s.map_values(|o: Option<String>| opt_view(o))
}

/// The value of `key` in the first of the `.env` texts, from `i` on, that
/// gives it one; `None` marks a directory without a `.env` file.
pub open spec fn first_dotenv_from(contents: Seq<Option<Seq<char>>>, key: Seq<char>, i: int) -> Option<Seq<char>>
    decreases contents.len() - i,
{
    if i < 0 || i >= contents.len() {
        None
    } else {
        match contents[i] {
            Some(c) => match dotenv_value_spec(c, key) {
                Some(v) => Some(v),
                None => first_dotenv_from(contents, key, i + 1),
            },
            None => first_dotenv_from(contents, key, i + 1),
        }
    }
}

/// The value of `key` found by walking up from the current directory: the
/// `.env` texts of the directories, the current one first, each `None` where
/// a directory has no readable `.env` file.
pub fn first_dotenv_value(contents: &[Option<String>], key: &str) -> (r: Option<String>)
    ensures
        opt_view(r) == first_dotenv_from(opt_views(contents@), key@, 0),
{
    let ghost cv = opt_views(contents@);
    let mut i: usize = 0;
    while i < contents.len()
        invariant
            i <= contents@.len(),
            cv == opt_views(contents@),
            first_dotenv_from(cv, key@, 0) == first_dotenv_from(cv, key@, i as int),
        decreases contents@.len() - i,
    {
        assert(cv[i as int] == opt_view(contents@[i as int]));
        match &contents[i] {
            Some(c) => {
                let v = dotenv_value(c.as_str(), key);
                if v.is_some() {
                    return v;
                }
            },
            None => {},
        }
        i = i + 1;
    }
    None
}

} // verus!
