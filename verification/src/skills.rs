//! Which agent skills (`imoocs`, `imoocs-drive-setup`) are installed, and where the
//! embedded skill goes.
use vstd::prelude::*;
use crate::text::chars_of;

verus! {

/// The main skill.
pub const IMOOCS_SKILL: &'static str = "imoocs";
/// The skill that links courses to Drive folders.
pub const DRIVE_SETUP_SKILL: &'static str = "imoocs-drive-setup";

/// What follows the last `/` of `s` (all of `s` when it holds none): the first item that
/// `str::rsplit('/')` yields.
pub open spec fn last_component(s: Seq<char>) -> Seq<char>
    decreases s.len(),
{
    if s.len() == 0 {
        s
    } else if s.last() == '/' {
        Seq::empty()
    } else {
        last_component(s.drop_last()).push(s.last())
    }
}

/// `gh skill list` names a skill either `owner/repo/skill` or `skill`: the name matches
/// when its last `/`-separated component, or the whole name, is the target.
pub open spec fn names_skill(name: Seq<char>, target: Seq<char>) -> bool {
    last_component(name) == target || name == target
}

/// The last component of `prefix/name` is `name` when `name` holds no `/`.
proof fn lemma_last_component_after_slash(prefix: Seq<char>, name: Seq<char>)
    requires
        !name.contains('/'),
    ensures
        last_component(prefix + seq!['/'] + name) == name,
    decreases name.len(),
{
    let s = prefix + seq!['/'] + name;
    if name.len() == 0 {
        assert(s.last() == '/');
    } else {
        let shorter = name.drop_last();
        assert(!shorter.contains('/')) by {
            if shorter.contains('/') {
                let k = choose|k: int| 0 <= k < shorter.len() && shorter[k] == '/';
                assert(name[k] == '/');
            }
        }
        lemma_last_component_after_slash(prefix, shorter);
        assert(s.drop_last() =~= prefix + seq!['/'] + shorter);
        assert(s.last() == name.last());
        assert(name[name.len() - 1] != '/');
        assert(shorter.push(name.last()) =~= name);
    }
}

/// A skill is recognised both by its bare name and as `owner/repo/<name>` (any prefix
/// before a `/`), for a skill name without `/`.
pub proof fn lemma_skill_names_recognised(prefix: Seq<char>, name: Seq<char>)
    requires
        !name.contains('/'),
    ensures
        names_skill(name, name),
        names_skill(prefix + seq!['/'] + name, name),
{
    lemma_last_component_after_slash(prefix, name);
}

/// `a[from..]` equals `b`.
fn tail_equals(a: &Vec<char>, from: usize, b: &Vec<char>) -> (r: bool)
    requires
        from <= a@.len(),
    ensures
        r == (a@.subrange(from as int, a@.len() as int) == b@),
{
    if a.len() - from != b.len() {
        assert(a@.subrange(from as int, a@.len() as int).len() != b@.len());
        return false;
    }
    let alen = a.len();
    let mut i: usize = 0;
    while i < b.len()
        invariant
            alen == a@.len(),
            from <= a@.len(),
            a@.len() - from == b@.len(),
            i <= b@.len(),
            forall|j: int| 0 <= j < i ==> a@[from + j] == b@[j],
        decreases b@.len() - i,
    {
        if a[from + i] != b[i] {
            assert(a@.subrange(from as int, a@.len() as int)[i as int] != b@[i as int]);
            return false;
        }
        i = i + 1;
    }
    assert(a@.subrange(from as int, a@.len() as int) =~= b@);
    true
}

pub fn has_suffix_component(name: &str, target: &str) -> (r: bool)
    ensures
        r == names_skill(name@, target@),
{
    let n = chars_of(name);
    let t = chars_of(target);
    // `start` is where the last component of the prefix read so far begins.
    let mut start: usize = 0;
    let mut i: usize = 0;
    while i < n.len()
        invariant
            n@ == name@,
            start <= i <= n@.len(),
            last_component(n@.subrange(0, i as int)) == n@.subrange(start as int, i as int),
        decreases n@.len() - i,
    {
        let ghost pre = n@.subrange(0, i as int);
        assert(n@.subrange(0, i + 1).drop_last() =~= pre);
        if n[i] == '/' {
            start = i + 1;
            assert(n@.subrange(start as int, i + 1) =~= Seq::<char>::empty());
        } else {
            assert(n@.subrange(start as int, i + 1) =~= n@.subrange(start as int, i as int).push(n@[i as int]));
        }
        i = i + 1;
    }
    assert(n@.subrange(0, n@.len() as int) =~= n@);
    let last_matches = tail_equals(&n, start, &t);
    let whole_matches = tail_equals(&n, 0, &t);
    assert(n@.subrange(0, n@.len() as int) =~= n@);
    last_matches || whole_matches
}

/// How the installed skills were found.
#[derive(Debug, Clone, Copy, PartialEq, Eq, Structural)]
pub enum SkillDetectionMethod {
    /// `gh skill list --json name`.
    Gh,
    /// A `SKILL.md` in the user's agent skills directory.
    Filesystem,
    /// Neither worked.
    Unknown,
}

/// Which of the two skills are installed, and how that was found out.
#[derive(Debug, Clone, Copy, PartialEq, Eq, Structural)]
pub struct SkillDetectionReport {
    pub method: SkillDetectionMethod,
    pub imoocs: bool,
    pub imoocs_drive_setup: bool,
}

/// Some name of the list names the skill.
pub open spec fn any_names(names: Seq<String>, target: Seq<char>) -> bool {
    exists|i: int| 0 <= i < names.len() && names_skill(#[trigger] names[i]@, target)
}

fn any_has_suffix(names: &Vec<String>, target: &str) -> (r: bool)
    ensures
        r == any_names(names@, target@),
{
    let mut i: usize = 0;
    while i < names.len()
        invariant
            i <= names@.len(),
            forall|j: int| 0 <= j < i ==> !names_skill(#[trigger] names@[j]@, target@),
        decreases names@.len() - i,
    {
        if has_suffix_component(names[i].as_str(), target) {
            return true;
        }
        i = i + 1;
    }
    false
}

/// The report from the names that `gh skill list` gave.
pub fn report_from_gh_names(names: &Vec<String>) -> (r: SkillDetectionReport)
    ensures
        r.method == SkillDetectionMethod::Gh,
        r.imoocs == any_names(names@, IMOOCS_SKILL@),
        r.imoocs_drive_setup == any_names(names@, DRIVE_SETUP_SKILL@),
{
    SkillDetectionReport {
        method: SkillDetectionMethod::Gh,
        imoocs: any_has_suffix(names, IMOOCS_SKILL),
        imoocs_drive_setup: any_has_suffix(names, DRIVE_SETUP_SKILL),
    }
}

/// The report from the `SKILL.md` files found in the user's agent skills directory.
pub fn report_from_files(imoocs_installed: bool, drive_setup_installed: bool) -> (r: SkillDetectionReport)
    ensures
        r == (SkillDetectionReport {
            method: SkillDetectionMethod::Filesystem,
            imoocs: imoocs_installed,
            imoocs_drive_setup: drive_setup_installed,
        }),
{
    SkillDetectionReport {
        method: SkillDetectionMethod::Filesystem,
        imoocs: imoocs_installed,
        imoocs_drive_setup: drive_setup_installed,
    }
}

/// `gh` first, then the filesystem; when neither answered, nothing is known to be
/// installed.
pub fn combine_detection(
    via_gh: Option<SkillDetectionReport>,
    via_fs: Option<SkillDetectionReport>,
) -> (r: SkillDetectionReport)
    ensures
        via_gh matches Some(g) ==> r == g,
        via_gh is None ==> (via_fs matches Some(f) ==> r == f),
        via_gh is None && via_fs is None ==> r == (SkillDetectionReport {
            method: SkillDetectionMethod::Unknown,
            imoocs: false,
            imoocs_drive_setup: false,
        }),
{
    if let Some(g) = via_gh {
        return g;
    }
    if let Some(f) = via_fs {
        return f;
    }
    SkillDetectionReport { method: SkillDetectionMethod::Unknown, imoocs: false, imoocs_drive_setup: false }
}

/// The text name of a detection method.
pub open spec fn method_name(m: SkillDetectionMethod) -> Seq<char> {
    match m {
        SkillDetectionMethod::Gh => "gh"@,
        SkillDetectionMethod::Filesystem => "filesystem"@,
        SkillDetectionMethod::Unknown => "unknown"@,
    }
}

pub fn method_str(m: SkillDetectionMethod) -> (r: &'static str)
    ensures
        r@ == method_name(m),
{
    proof {
        reveal_strlit("gh");
        reveal_strlit("filesystem");
        reveal_strlit("unknown");
    }
    match m {
        SkillDetectionMethod::Gh => "gh",
        SkillDetectionMethod::Filesystem => "filesystem",
        SkillDetectionMethod::Unknown => "unknown",
    }
}

/// `--user` (the default) or `--project` for `imoocs skill`.
#[derive(Debug, Clone, Copy)]
pub struct ScopeArgs {
    pub user: bool,
    pub project: bool,
}

impl ScopeArgs {
    /// `"project"` with `--project`, else `"user"`.
    pub fn scope_label(&self) -> (r: &'static str)
        ensures
            r@ == (if self.project { "project"@ } else { "user"@ }),
    {
        proof {
            reveal_strlit("project");
            reveal_strlit("user");
        }
        if self.project {
            "project"
        } else {
            "user"
        }
    }

    /// The directory the skill goes to, below `base`: the working directory with
    /// `--project`, the home directory otherwise.
    pub fn install_base<'a>(&self, cwd: &'a str, home: &'a str) -> (r: &'a str)
        ensures
            r@ == (if self.project { cwd@ } else { home@ }),
    {
        if self.project {
            cwd
        } else {
            home
        }
    }
}

/// An embedded file is written unless an identical copy is already in place; `--force`
/// always writes.
pub fn should_write(present: bool, force: bool, same_content: Option<bool>) -> (r: bool)
    ensures
        r == (!present || force || !(same_content == Some(true))),
{
    !present || force || match same_content {
        Some(same) => !same,
        None => true,
    }
}

} // verus!
