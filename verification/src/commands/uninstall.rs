//! The arguments of `linkup uninstall`, and its confirmation.
use vstd::prelude::*;
use vstd::string::StringExecFns;
use crate::domains::string_views;
use crate::text::{trim, trim_spec};
use crate::update::InstallationMethod;

verus! {

/// `linkup uninstall` takes no arguments of its own.
pub struct Args {}

/// The ASCII lower case of a character.
pub open spec fn ascii_lower(c: char) -> char {
    if 'A' <= c <= 'Z' { ((c as u32) + 32) as char } else { c }
}

/// `s` is `word` ignoring ASCII case.
pub open spec fn equals_ignoring_case(s: Seq<char>, word: Seq<char>) -> bool {
    s.len() == word.len() && forall|i: int| 0 <= i < s.len() ==> ascii_lower(#[trigger] s[i]) == word[i]
}

/// The answer agrees: trimmed and lower-cased it is `y` or `yes` (the only
/// characters whose lower case is `y`, `e` or `s` are these letters and
/// their ASCII capitals).
pub open spec fn confirms_spec(answer: Seq<char>) -> bool {
    equals_ignoring_case(trim_spec(answer), "y"@) || equals_ignoring_case(trim_spec(answer), "yes"@)
}

proof fn lemma_lower_is(c: char, w: char, cap: char)
    requires
        'a' <= w <= 'z',
        cap as u32 + 32 == w as u32,
    ensures
        ascii_lower(c) == w <==> (c == w || c == cap),
{
    if 'A' <= c <= 'Z' {
        assert(((c as u32) + 32) as char == w <==> c as u32 + 32 == w as u32);
    }
}

/// The user agrees exactly when the trimmed answer is `y` or `yes`, in any
/// mix of upper and lower case.
pub proof fn lemma_confirms_yes(answer: Seq<char>)
    ensures
        confirms_spec(answer) <==> ({
            let t = trim_spec(answer);
            ||| t.len() == 1 && (t[0] == 'y' || t[0] == 'Y')
            ||| t.len() == 3 && (t[0] == 'y' || t[0] == 'Y') && (t[1] == 'e' || t[1] == 'E') && (t[2] == 's' || t[2] == 'S')
        }),
{
    reveal_strlit("y");
    reveal_strlit("yes");
    let t = trim_spec(answer);
    if t.len() >= 1 {
        lemma_lower_is(t[0], 'y', 'Y');
    }
    if t.len() == 3 {
        lemma_lower_is(t[1], 'e', 'E');
        lemma_lower_is(t[2], 's', 'S');
        if (t[0] == 'y' || t[0] == 'Y') && (t[1] == 'e' || t[1] == 'E') && (t[2] == 's' || t[2] == 'S') {
            assert(equals_ignoring_case(t, "yes"@));
        }
    }
    if t.len() == 1 && (t[0] == 'y' || t[0] == 'Y') {
        assert(equals_ignoring_case(t, "y"@));
    }
}

fn lower_is(c: char, w: char) -> (r: bool)
    requires
        'a' <= w <= 'z',
    ensures
        r == (ascii_lower(c) == w),
{
    if 'A' <= c && c <= 'Z' {
        let l = ((c as u32) + 32) as u8;
        proof {
            assert((c as u32) + 32 < 256);
        }
        (l as char) == w
    } else {
        c == w
    }
}

/// Whether the answer to "Are you sure you want to uninstall linkup?"
/// agrees.
pub fn confirms(answer: &str) -> (r: bool)
    ensures
        r == confirms_spec(answer@),
{
    let t = trim(answer);
    proof {
        reveal_strlit("y");
        reveal_strlit("yes");
    }
    let n = t.unicode_len();
    if n == 1 {
        lower_is(t.get_char(0), 'y')
    } else if n == 3 {
        let a = lower_is(t.get_char(0), 'y');
        let b = lower_is(t.get_char(1), 'e');
        let c = lower_is(t.get_char(2), 's');
        proof {
            if a && b && c {
                assert(equals_ignoring_case(t@, "yes"@));
            }
            if equals_ignoring_case(t@, "yes"@) {
                assert(ascii_lower(t@[0]) == "yes"@[0]);
                assert(ascii_lower(t@[1]) == "yes"@[1]);
                assert(ascii_lower(t@[2]) == "yes"@[2]);
            }
        }
        a && b && c
    } else {
        false
    }
}


/// How the binary is removed.
pub enum UninstallStep {
    /// Run this command.
    Run(Vec<String>),
    /// Remove this file.
    RemoveFile(String),
}

/// The command that removes the binary: through Homebrew or Cargo where it
/// was installed with them; otherwise `sudo rm -f` on Linux, or removing the
/// file directly elsewhere.
pub open spec fn uninstall_spec(method: InstallationMethod, exe_path: Seq<char>, linux: bool) -> (bool, Seq<Seq<char>>) {
    match method {
        InstallationMethod::Brew => (true, seq!["brew"@, "uninstall"@, "linkup"@]),
        InstallationMethod::Cargo => (true, seq!["cargo"@, "uninstall"@, "linkup-cli"@]),
        InstallationMethod::Manual => if linux {
            (true, seq!["sudo"@, "rm"@, "-f"@, exe_path])
        } else {
            (false, seq![exe_path])
        },
    }
}

fn strings(a: &str, b: &str, c: &str) -> (r: Vec<String>)
    ensures
        string_views(r@) == seq![a@, b@, c@],
{
    let mut v: Vec<String> = Vec::new();
    v.push(String::from_str(a));
    v.push(String::from_str(b));
    v.push(String::from_str(c));
    assert(string_views(v@) =~= seq![a@, b@, c@]);
    v
}

/// How the binary at `exe_path` is removed for an installation method.
pub fn uninstall_step(method: InstallationMethod, exe_path: &str, linux: bool) -> (r: UninstallStep)
    ensures
        match r {
            UninstallStep::Run(v) => uninstall_spec(method, exe_path@, linux) == (true, string_views(v@)),
            UninstallStep::RemoveFile(f) => uninstall_spec(method, exe_path@, linux) == (false, seq![f@]),
        },
{
    match method {
        InstallationMethod::Brew => UninstallStep::Run(strings("brew", "uninstall", "linkup")),
        InstallationMethod::Cargo => UninstallStep::Run(strings("cargo", "uninstall", "linkup-cli")),
        InstallationMethod::Manual => {
            if linux {
                let mut v = strings("sudo", "rm", "-f");
                let ghost prev = string_views(v@);
                v.push(String::from_str(exe_path));
                assert(string_views(v@) =~= prev.push(exe_path@));
                assert(string_views(v@) =~= seq!["sudo"@, "rm"@, "-f"@, exe_path@]);
                UninstallStep::Run(v)
            } else {
                UninstallStep::RemoveFile(String::from_str(exe_path))
            }
        },
    }
}

} // verus!
