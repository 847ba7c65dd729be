//! Instance records: what this library knows of each launched instance.
use vstd::prelude::*;

use crate::error::{Ec2CliError, Result};
use crate::text::{owned, same_text};

verus! {

/// The record of one launched instance.
#[derive(Debug, Clone)]
pub struct InstanceState {
    pub instance_id: String,
    pub profile: String,
    pub region: String,
    /// Launch time, in seconds since the Unix epoch (UTC).
    pub created_at: i64,
    /// Login user on the instance.
    pub username: String,
    /// The per-instance security boundary, deleted at teardown.
    pub security_group_id: Option<String>,
    /// The SSH private key used for this instance.
    pub ssh_key_path: Option<String>,
}

/// Instance records by name, each name at most once.
#[derive(Debug, Clone)]
pub struct State {
    instances: Vec<(String, InstanceState)>,
}

impl View for State {
    type V = Seq<(Seq<char>, InstanceState)>;

    closed spec fn view(&self) -> Seq<(Seq<char>, InstanceState)> {
        self.instances@.map_values(|e: (String, InstanceState)| (e.0@, e.1))
    }
}

/// The index of the record named `name`, if any.
pub open spec fn record_index(s: Seq<(Seq<char>, InstanceState)>, name: Seq<char>) -> Option<int> {
    if exists|i: int| 0 <= i < s.len() && #[trigger] s[i].0 == name {
        Some(choose|i: int| 0 <= i < s.len() && #[trigger] s[i].0 == name)
    } else {
        None
    }
}

/// The optional text as a view.
pub open spec fn opt_text(o: Option<&str>) -> Option<Seq<char>> {
    match o {
        Some(s) => Some(s@),
        None => None,
    }
}

/// The view of an optional owned text.
pub open spec fn opt_string(o: Option<String>) -> Option<Seq<char>> {
    match o {
        Some(s) => Some(s@),
        None => None,
    }
}

impl Default for State {
    fn default() -> (r: Self)
        ensures
            r@.len() == 0,
            r.wf(),
    {
        State { instances: Vec::new() }
    }
}

impl State {
    /// Names are unique.
    pub open spec fn wf(&self) -> bool {
        forall|i: int, j: int| 0 <= i < j < self@.len() ==> #[trigger] self@[i].0 != #[trigger] self@[j].0
    }

    /// The record named `name`, if any.
    pub open spec fn lookup(&self, name: Seq<char>) -> Option<InstanceState> {
        match record_index(self@, name) {
            Some(i) => Some(self@[i].1),
            None => None,
        }
    }

    fn find(&self, name: &str) -> (r: Option<usize>)
        requires
            self.wf(),
        ensures
            r is Some <==> record_index(self@, name@) is Some,
            r is Some ==> record_index(self@, name@) == Some(r->Some_0 as int) && r->Some_0
                < self@.len(),
    {
        let n = self.instances.len();
        let mut i: usize = 0;
        while i < n
            invariant
                n == self@.len(),
                i <= n,
                self.wf(),
                forall|j: int| 0 <= j < i ==> #[trigger] self@[j].0 != name@,
            decreases n - i,
        {
            if same_text(self.instances[i].0.as_str(), name) {
                assert(self@[i as int].0 == name@);
                proof {
                    let j = choose|j: int| 0 <= j < self@.len() && #[trigger] self@[j].0 == name@;
                    assert(j == i as int);
                }
                return Some(i);
            }
            i += 1;
        }
        None
    }

    /// Stores the record `record` under `name`, replacing an earlier one of that name.
    pub fn put_instance(&mut self, name: &str, record: InstanceState)
        requires
            old(self).wf(),
        ensures
            final(self).wf(),
            final(self).lookup(name@) == Some(record),
            forall|other: Seq<char>| other != name@ ==> #[trigger] final(self).lookup(other) == old(
                self,
            ).lookup(other),
    {
        let ghost before = self@;
        match self.find(name) {
            Some(i) => {
                self.instances.set(i, (owned(name), record));
                assert(self@ =~= before.update(i as int, (name@, record)));
                assert(self@[i as int].0 == name@);
                proof {
                    let j = choose|j: int| 0 <= j < self@.len() && #[trigger] self@[j].0 == name@;
                    assert(j == i as int);
                    assert forall|other: Seq<char>| other != name@ implies #[trigger] self.lookup(
                        other,
                    ) == before_lookup(before, other) by {
                        lemma_same_keys_lookup(before, self@, other, i as int);
                    }
                }
            },
            None => {
                let ghost rec = record;
                self.instances.push((owned(name), record));
                assert(self@ =~= before.push((name@, rec)));
                assert(self@[before.len() as int].0 == name@);
                proof {
                    let j = choose|j: int| 0 <= j < self@.len() && #[trigger] self@[j].0 == name@;
                    assert(j == before.len());
                    assert forall|other: Seq<char>| other != name@ implies #[trigger] self.lookup(
                        other,
                    ) == before_lookup(before, other) by {
                        lemma_push_lookup(before, name@, rec, other);
                    }
                }
            },
        }
    }

    /// Records a launched instance under `name`, launched at `created_at`
    /// (seconds since the Unix epoch, read by the caller).
    pub fn add_instance(
        &mut self,
        name: &str,
        instance_id: &str,
        profile: &str,
        region: &str,
        username: &str,
        security_group_id: &str,
        ssh_key_path: Option<&str>,
        created_at: i64,
    )
        requires
            old(self).wf(),
        ensures
            final(self).wf(),
            final(self).lookup(name@) is Some,
            ({
                let r = final(self).lookup(name@)->Some_0;
                &&& r.instance_id@ == instance_id@
                &&& r.profile@ == profile@
                &&& r.region@ == region@
                &&& r.username@ == username@
                &&& r.created_at == created_at
                &&& opt_string(r.security_group_id) == Some(security_group_id@)
                &&& opt_string(r.ssh_key_path) == opt_text(ssh_key_path)
            }),
            forall|other: Seq<char>| other != name@ ==> #[trigger] final(self).lookup(other) == old(
                self,
            ).lookup(other),
    {
        let key_path = match ssh_key_path {
            Some(p) => Some(owned(p)),
            None => None,
        };
        let record = InstanceState {
            instance_id: owned(instance_id),
            profile: owned(profile),
            region: owned(region),
            created_at,
            username: owned(username),
            security_group_id: Some(owned(security_group_id)),
            ssh_key_path: key_path,
        };
        self.put_instance(name, record);
    }

    /// Removes the record named `name`, returning it.
    pub fn remove_instance(&mut self, name: &str) -> (r: Option<InstanceState>)
        requires
            old(self).wf(),
        ensures
            final(self).wf(),
            r == old(self).lookup(name@),
            final(self).lookup(name@) is None,
            forall|other: Seq<char>| other != name@ ==> #[trigger] final(self).lookup(other) == old(
                self,
            ).lookup(other),
    {
        match self.find(name) {
            Some(i) => {
                let ghost before = self@;
                let (_, record) = self.instances.remove(i);
                assert(self@ =~= before.remove(i as int));
                proof {
                    if exists|j: int| 0 <= j < self@.len() && #[trigger] self@[j].0 == name@ {
                        let j = choose|j: int| 0 <= j < self@.len() && #[trigger] self@[j].0 == name@;
                        if j < i {
                            assert(before[j].0 == name@);
                        } else {
                            assert(before[j + 1].0 == name@);
                        }
                    }
                }
                proof {
                    assert forall|other: Seq<char>| other != name@ implies #[trigger] self.lookup(
                        other,
                    ) == before_lookup(before, other) by {
                        lemma_remove_lookup(before, i as int, other);
                    }
                }
                Some(record)
            },
            None => None,
        }
    }

    /// Number of records.
    pub fn len(&self) -> (r: usize)
        ensures
            r == self@.len(),
    {
        self.instances.len()
    }

    /// The name of the record at position `i`.
    pub fn name_at(&self, i: usize) -> (r: &String)
        requires
            i < self@.len(),
        ensures
            r@ == self@[i as int].0,
    {
        &self.instances[i].0
    }

    /// The record at position `i`.
    pub fn record_at(&self, i: usize) -> (r: &InstanceState)
        requires
            i < self@.len(),
        ensures
            *r == self@[i as int].1,
    {
        &self.instances[i].1
    }

    /// The record named `name`.
    pub fn get_instance(&self, name: &str) -> (r: Option<&InstanceState>)
        requires
            self.wf(),
        ensures
            r is Some <==> self.lookup(name@) is Some,
            r is Some ==> *r->Some_0 == self.lookup(name@)->Some_0,
    {
        match self.find(name) {
            Some(i) => Some(&self.instances[i].1),
            None => None,
        }
    }
}

/// The record named `name` in `s`.
pub open spec fn before_lookup(s: Seq<(Seq<char>, InstanceState)>, name: Seq<char>) -> Option<InstanceState> {
    match record_index(s, name) {
        Some(i) => Some(s[i].1),
        None => None,
    }
}

proof fn lemma_same_keys_lookup(
    a: Seq<(Seq<char>, InstanceState)>,
    b: Seq<(Seq<char>, InstanceState)>,
    other: Seq<char>,
    i: int,
)
    requires
        a.len() == b.len(),
        0 <= i < a.len(),
        a[i].0 == b[i].0,
        other != a[i].0,
        forall|j: int| 0 <= j < a.len() && j != i ==> a[j] == b[j],
        forall|x: int, y: int| 0 <= x < y < a.len() ==> #[trigger] a[x].0 != #[trigger] a[y].0,
        forall|x: int, y: int| 0 <= x < y < b.len() ==> #[trigger] b[x].0 != #[trigger] b[y].0,
    ensures
        before_lookup(b, other) == before_lookup(a, other),
{
    if exists|j: int| 0 <= j < a.len() && #[trigger] a[j].0 == other {
        let j = choose|j: int| 0 <= j < a.len() && #[trigger] a[j].0 == other;
        assert(b[j].0 == other);
        let k = choose|k: int| 0 <= k < b.len() && #[trigger] b[k].0 == other;
        assert(k == j);
    } else {
        if exists|k: int| 0 <= k < b.len() && #[trigger] b[k].0 == other {
            let k = choose|k: int| 0 <= k < b.len() && #[trigger] b[k].0 == other;
            assert(a[k].0 == other);
        }
    }
}

proof fn lemma_remove_lookup(a: Seq<(Seq<char>, InstanceState)>, i: int, other: Seq<char>)
    requires
        0 <= i < a.len(),
        other != a[i].0,
        forall|x: int, y: int| 0 <= x < y < a.len() ==> #[trigger] a[x].0 != #[trigger] a[y].0,
    ensures
        before_lookup(a.remove(i), other) == before_lookup(a, other),
{
    let b = a.remove(i);
    if exists|j: int| 0 <= j < a.len() && #[trigger] a[j].0 == other {
        let j = choose|j: int| 0 <= j < a.len() && #[trigger] a[j].0 == other;
        let jb = if j < i { j } else { j - 1 };
        assert(b[jb].0 == other);
        let k = choose|k: int| 0 <= k < b.len() && #[trigger] b[k].0 == other;
        if k < i {
            assert(a[k].0 == other);
        } else {
            assert(a[k + 1].0 == other);
        }
        assert(k == jb);
    } else {
        if exists|k: int| 0 <= k < b.len() && #[trigger] b[k].0 == other {
            let k = choose|k: int| 0 <= k < b.len() && #[trigger] b[k].0 == other;
            if k < i {
                assert(a[k].0 == other);
            } else {
                assert(a[k + 1].0 == other);
            }
        }
    }
}

proof fn lemma_push_lookup(
    a: Seq<(Seq<char>, InstanceState)>,
    name: Seq<char>,
    rec: InstanceState,
    other: Seq<char>,
)
    requires
        other != name,
        forall|x: int, y: int| 0 <= x < y < a.len() ==> #[trigger] a[x].0 != #[trigger] a[y].0,
        forall|x: int| 0 <= x < a.len() ==> #[trigger] a[x].0 != name,
    ensures
        before_lookup(a.push((name, rec)), other) == before_lookup(a, other),
{
    let b = a.push((name, rec));
    if exists|j: int| 0 <= j < a.len() && #[trigger] a[j].0 == other {
        let j = choose|j: int| 0 <= j < a.len() && #[trigger] a[j].0 == other;
        assert(b[j].0 == other);
        let k = choose|k: int| 0 <= k < b.len() && #[trigger] b[k].0 == other;
        if k < a.len() {
            assert(a[k].0 == other);
        }
        assert(k == j);
    } else {
        if exists|k: int| 0 <= k < b.len() && #[trigger] b[k].0 == other {
            let k = choose|k: int| 0 <= k < b.len() && #[trigger] b[k].0 == other;
            if k < a.len() {
                assert(a[k].0 == other);
            }
        }
    }
}

/// The instance name to act on: the one given, else the one linked to the
/// current directory (`linked`), else an error.
pub fn resolve_instance_name(name: Option<&str>, linked: Option<String>) -> (r: Result<String>)
    ensures
        name is Some ==> r is Ok && r->Ok_0@ == name->Some_0@,
        name is None && linked is Some ==> r is Ok && r->Ok_0@ == linked->Some_0@,
        name is None && linked is None ==> r is Err && r->Err_0 is InstanceNotFound,
{
    if let Some(n) = name {
        return Ok(owned(n));
    }
    match linked {
        Some(l) => Ok(l),
        None => Err(Ec2CliError::InstanceNotFound(owned(
            "No instance name provided and no linked instance found",
        ))),
    }
}

/// The login user for an image family: every supported family is Ubuntu.
pub fn get_username_for_ami(ami_type: &str) -> (r: &'static str)
    ensures
        r@ == "ubuntu"@,
{
    "ubuntu"
}

/// The login user of records written before the user was recorded.
pub fn default_username() -> (r: String)
    ensures
        r@ == "ubuntu"@,
{
    owned("ubuntu")
}

} // verus!
