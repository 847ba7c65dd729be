//! Which profile a name refers to, and which files hold profiles.
use vstd::prelude::*;

use crate::error::{Ec2CliError, Result};
use crate::profile::Profile;
use crate::session::{is_profile_name, validate_profile_name};
use crate::text::{owned, same_text};

verus! {

/// Where a profile was found.
#[derive(Debug, Clone, Copy, PartialEq, Eq)]
pub enum ProfileSource {
    Local,
    Global,
    BuiltIn,
}

impl ProfileSource {
    /// A short description.
    pub fn as_str(&self) -> (r: &'static str)
        ensures
            r@ == match self {
                ProfileSource::Local => "local"@,
                ProfileSource::Global => "global"@,
                ProfileSource::BuiltIn => "built-in"@,
            },
    {
        match self {
            ProfileSource::Local => "local",
            ProfileSource::Global => "global",
            ProfileSource::BuiltIn => "built-in",
        }
    }
}

/// A listed profile.
#[derive(Debug, Clone)]
pub struct ProfileInfo {
    pub name: String,
    pub source: ProfileSource,
    /// The file it was read from; `None` for the built-in profile.
    pub path: Option<String>,
}

/// The profile for `name`: the project-local one if found, else the global one,
/// else the built-in profile for `default`. `local` and `global` are what the
/// profile directories hold under that name.
pub fn select_profile(name: &str, local: Option<Profile>, global: Option<Profile>) -> (r: Result<Profile>)
    ensures
        !is_profile_name(name@) ==> r is Err && r->Err_0 is ProfileInvalid,
        is_profile_name(name@) && local is Some ==> r == Ok::<Profile, Ec2CliError>(local->Some_0),
        is_profile_name(name@) && local is None && global is Some ==> r == Ok::<Profile, Ec2CliError>(
            global->Some_0,
        ),
        is_profile_name(name@) && local is None && global is None ==> (name@ == "default"@ ==> r is Ok
            && r->Ok_0.name@ == "default"@) && (name@ != "default"@ ==> r is Err
            && r->Err_0 is ProfileNotFound),
{
    if let Err(e) = validate_profile_name(name) {
        return Err(e);
    }
    if let Some(p) = local {
        return Ok(p);
    }
    if let Some(p) = global {
        return Ok(p);
    }
    if same_text(name, "default") {
        return Ok(Profile::default_profile());
    }
    Err(Ec2CliError::ProfileNotFound(owned(name)))
}

/// The index of the last `.` in `s`, if any.
pub open spec fn last_dot(s: Seq<char>) -> Option<int> {
    if exists|i: int| 0 <= i < s.len() && s[i] == '.' {
        Some(choose|i: int| 0 <= i < s.len() && s[i] == '.' && forall|j: int| i < j < s.len() ==> s[j] != '.')
    } else {
        None
    }
}

/// The profile name of a file name `x.json` or `x.json5`, as a path's stem; a name
/// starting with its only dot has no extension.
pub open spec fn profile_name_of_file(f: Seq<char>, dot: int) -> Option<Seq<char>> {
    let ext = f.subrange(dot + 1, f.len() as int);
    if dot > 0 && (ext == "json"@ || ext == "json5"@) {
        Some(f.subrange(0, dot))
    } else {
        None
    }
}

/// The profile named by a file name, if it is a profile file.
pub fn extract_profile_name(file_name: &str) -> (r: Option<String>)
    ensures
        (forall|i: int| 0 <= i < file_name@.len() ==> file_name@[i] != '.') ==> r is None,
        forall|d: int|
            0 <= d < file_name@.len() && file_name@[d] == '.' && (forall|j: int|
                d < j < file_name@.len() ==> file_name@[j] != '.') ==> #[trigger] profile_name_of_file(
                file_name@,
                d,
            ) == match r {
                Some(s) => Some(s@),
                None => None,
            },
{
    let n = file_name.unicode_len();
    let mut i = n;
    while i > 0
        invariant
            n == file_name@.len(),
            i <= n,
            forall|j: int| i <= j < n ==> file_name@[j] != '.',
        decreases i,
    {
        if file_name.get_char(i - 1) == '.' {
            let dot = i - 1;
            let ext = file_name.substring_char(dot + 1, n);
            if dot > 0 && (same_text(ext, "json") || same_text(ext, "json5")) {
                let stem = file_name.substring_char(0, dot);
                return Some(owned(stem));
            }
            return None;
        }
        i -= 1;
    }
    None
}

/// The names of a profile listing.
pub open spec fn listed_names(r: Seq<ProfileInfo>) -> Seq<Seq<char>> {
    r.map_values(|p: ProfileInfo| p.name@)
}

/// The names of a directory listing of (name, file) pairs.
pub open spec fn file_names(v: Seq<(String, String)>) -> Seq<Seq<char>> {
    v.map_values(|e: (String, String)| e.0@)
}

/// Whether `path` is the file of some entry named `name` in the directory listing `v`.
pub open spec fn listed_in(v: Seq<(String, String)>, name: Seq<char>, path: Option<String>) -> bool {
    path is Some && exists|i: int| 0 <= i < v.len() && #[trigger] v[i].0@ == name && v[i].1@ == path->Some_0@
}

/// Whether a merged entry agrees with the listings: local entries come from the
/// local listing; global ones from the global listing and shadowed by no local
/// one; the built-in one is `default`, listed nowhere else.
pub open spec fn entry_sourced(e: ProfileInfo, local: Seq<(String, String)>, global: Seq<(String, String)>) -> bool {
    match e.source {
        ProfileSource::Local => listed_in(local, e.name@, e.path),
        ProfileSource::Global => !file_names(local).contains(e.name@) && listed_in(global, e.name@, e.path),
        ProfileSource::BuiltIn => e.name@ == "default"@ && e.path is None && !file_names(local).contains(
            e.name@,
        ) && !file_names(global).contains(e.name@),
    }
}

/// Profile listings merged: local names first, then global names not seen
/// before, then the built-in `default` unless already listed. Each listing entry
/// is a name and the file that holds it.
pub fn merge_profile_listing(local: &Vec<(String, String)>, global: &Vec<(String, String)>) -> (r: Vec<ProfileInfo>)
    ensures
        listed_names(r@).no_duplicates(),
        listed_names(r@).contains("default"@),
        forall|i: int| 0 <= i < local@.len() ==> listed_names(r@).contains(#[trigger] local@[i].0@),
        forall|i: int| 0 <= i < global@.len() ==> listed_names(r@).contains(#[trigger] global@[i].0@),
        forall|k: int| 0 <= k < r@.len() ==> entry_sourced(#[trigger] r@[k], local@, global@),
{
    let mut r: Vec<ProfileInfo> = Vec::new();
    let mut i: usize = 0;
    while i < local.len()
        invariant
            i <= local@.len(),
            listed_names(r@).no_duplicates(),
            forall|a: int| 0 <= a < i ==> listed_names(r@).contains(#[trigger] local@[a].0@),
            forall|k: int| 0 <= k < r@.len() ==> (#[trigger] r@[k]).source == ProfileSource::Local
                && listed_in(local@, r@[k].name@, r@[k].path),
        decreases local@.len() - i,
    {
        let path = Some(local[i].1.clone());
        add_if_new(&mut r, &local[i].0, ProfileSource::Local, path);
        proof {
            assert(local@[i as int].0@ == local@[i as int].0@);
        }
        i += 1;
    }
    let mut j: usize = 0;
    while j < global.len()
        invariant
            j <= global@.len(),
            listed_names(r@).no_duplicates(),
            forall|a: int| 0 <= a < local@.len() ==> listed_names(r@).contains(#[trigger] local@[a].0@),
            forall|a: int| 0 <= a < j ==> listed_names(r@).contains(#[trigger] global@[a].0@),
            forall|k: int| 0 <= k < r@.len() ==> (#[trigger] r@[k]).source != ProfileSource::BuiltIn
                && entry_sourced(r@[k], local@, global@),
        decreases global@.len() - j,
    {
        let ghost before = r@;
        let path = Some(global[j].1.clone());
        add_if_new(&mut r, &global[j].0, ProfileSource::Global, path);
        proof {
            if !listed_names(before).contains(global@[j as int].0@) {
                lemma_absent_from_listing(before, local@, global@[j as int].0@);
            }
        }
        j += 1;
    }
    let default_name = owned("default");
    let ghost before = r@;
    add_if_new(&mut r, &default_name, ProfileSource::BuiltIn, None);
    proof {
        if !listed_names(before).contains("default"@) {
            lemma_absent_from_listing(before, local@, "default"@);
            lemma_absent_from_listing(before, global@, "default"@);
        }
    }
    r
}

proof fn lemma_absent_from_listing(r: Seq<ProfileInfo>, v: Seq<(String, String)>, name: Seq<char>)
    requires
        !listed_names(r).contains(name),
        forall|a: int| 0 <= a < v.len() ==> listed_names(r).contains(#[trigger] v[a].0@),
    ensures
        !file_names(v).contains(name),
{
    if file_names(v).contains(name) {
        let a = choose|a: int| 0 <= a < file_names(v).len() && file_names(v)[a] == name;
        assert(v[a].0@ == name);
        assert(listed_names(r).contains(v[a].0@));
    }
}

fn add_if_new(r: &mut Vec<ProfileInfo>, name: &String, source: ProfileSource, path: Option<String>)
    requires
        listed_names(old(r)@).no_duplicates(),
    ensures
        listed_names(final(r)@).no_duplicates(),
        listed_names(final(r)@).contains(name@),
        forall|x: Seq<char>| listed_names(old(r)@).contains(x) ==> #[trigger] listed_names(final(r)@).contains(x),
        listed_names(old(r)@).contains(name@) ==> final(r)@ == old(r)@,
        !listed_names(old(r)@).contains(name@) ==> final(r)@ == old(r)@.push(
            ProfileInfo { name: *name, source, path },
        ),
{
    let ghost before = listed_names(r@);
    let ghost entries = r@;
    let mut k: usize = 0;
    while k < r.len()
        invariant
            k <= r@.len(),
            r@ == entries,
            before == listed_names(r@),
            before.no_duplicates(),
            forall|a: int| 0 <= a < k ==> #[trigger] r@[a].name@ != name@,
        decreases r@.len() - k,
    {
        if same_text(r[k].name.as_str(), name.as_str()) {
            assert(listed_names(r@)[k as int] == name@);
            return;
        }
        k += 1;
    }
    assert(!before.contains(name@));
    let ghost p = path;
    r.push(ProfileInfo { name: name.clone(), source, path });
    assert(r@ =~= entries.push(ProfileInfo { name: *name, source, path: p }));
    assert(listed_names(r@) =~= before.push(name@));
    assert(listed_names(r@)[before.len() as int] == name@);
    assert forall|x: Seq<char>| before.contains(x) implies #[trigger] listed_names(r@).contains(x) by {
        let j = choose|j: int| 0 <= j < before.len() && before[j] == x;
        assert(listed_names(r@)[j] == x);
    }
}

} // verus!
