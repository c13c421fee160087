//! Names for processes.
use crate::pid::Pid;
use vstd::prelude::*;

verus! {

/// Why a name could not be given.
#[derive(Debug, Clone, Copy, PartialEq, Eq, Structural)]
pub enum RegistryError {
    /// The name is taken.
    AlreadyRegistered,
    /// The process has a name.
    ProcessAlreadyNamed,
}

/// Who has which name. A process has one name at most, and a name belongs to
/// one process.
pub struct Registry {
    names: Vec<(String, Pid)>,
}

/// Whether some name belongs to the process.
pub open spec fn is_named(names: Map<Seq<char>, Pid>, pid: Pid) -> bool {
    exists|name: Seq<char>| #[trigger] names.dom().contains(name) && names[name] == pid
}

/// Why the name cannot be given to the process, if it cannot.
pub open spec fn register_error(names: Map<Seq<char>, Pid>, name: Seq<char>, pid: Pid) -> Option<
    RegistryError,
> {
    if names.dom().contains(name) {
        Some(RegistryError::AlreadyRegistered)
    } else if is_named(names, pid) {
        Some(RegistryError::ProcessAlreadyNamed)
    } else {
        None
    }
}

/// The names without that of the process.
pub open spec fn without_pid(names: Map<Seq<char>, Pid>, pid: Pid) -> Map<Seq<char>, Pid> {
    Map::new(
        |name: Seq<char>| names.dom().contains(name) && names[name] != pid,
        |name: Seq<char>| names[name],
    )
}

/// No two names belong to one process.
pub open spec fn one_name_each(names: Map<Seq<char>, Pid>) -> bool {
    forall|a: Seq<char>, b: Seq<char>| #[trigger]
        names.dom().contains(a) && #[trigger] names.dom().contains(b) && names[a] == names[b] ==> a
            == b
}

/// The position of the name.
spec fn position(names: Seq<(String, Pid)>, name: Seq<char>) -> int {
    choose|i: int| 0 <= i < names.len() && (#[trigger] names[i]).0@ == name
}

/// Which process has which name.
spec fn pid_of(names: Seq<(String, Pid)>) -> Map<Seq<char>, Pid> {
    Map::new(
        |name: Seq<char>| exists|i: int| 0 <= i < names.len() && (#[trigger] names[i]).0@ == name,
        |name: Seq<char>| names[position(names, name)].1,
    )
}

/// Neither a name nor a process stands twice.
spec fn distinct(names: Seq<(String, Pid)>) -> bool {
    &&& forall|i: int, j: int|
        0 <= i < names.len() && 0 <= j < names.len() && (#[trigger] names[i]).0@ == (
        #[trigger] names[j]).0@ ==> i == j
    &&& forall|i: int, j: int|
        0 <= i < names.len() && 0 <= j < names.len() && (#[trigger] names[i]).1 == (
        #[trigger] names[j]).1 ==> i == j
}

impl View for Registry {
    type V = Map<Seq<char>, Pid>;

    closed spec fn view(&self) -> Map<Seq<char>, Pid> {
        pid_of(self.names@)
    }
}

impl Registry {
    /// Whether the registry is in order.
    pub closed spec fn wf(self) -> bool {
        distinct(self.names@)
    }

    /// In a registry in order no process has two names.
    pub proof fn law_no_process_has_two_names(self)
        requires
            self.wf(),
        ensures
            one_name_each(self@),
    {
    }

    /// A registry without names.
    pub fn new() -> (r: Self)
        ensures
            r.wf(),
            r@ == Map::<Seq<char>, Pid>::empty(),
    {
        let r = Registry { names: Vec::new() };
        assert(r@ =~= Map::empty());
        r
    }

    /// Where the name stands.
    fn find_name(&self, name: &String) -> (r: Option<usize>)
        ensures
            match r {
                Some(i) => i < self.names.len() && self.names[i as int].0@ == name@
                    && self@.dom().contains(name@),
                None => !self@.dom().contains(name@),
            },
    {
        let mut i: usize = 0;
        while i < self.names.len()
            invariant
                i <= self.names.len(),
                forall|j: int| 0 <= j < i ==> (#[trigger] self.names@[j]).0@ != name@,
            decreases self.names.len() - i,
        {
            if self.names[i].0 == *name {
                assert(self.names@[i as int].0@ == name@);
                return Some(i);
            }
            i = i + 1;
        }
        None
    }

    /// Where the process stands.
    fn find_pid(&self, pid: Pid) -> (r: Option<usize>)
        requires
            self.wf(),
        ensures
            match r {
                Some(i) => i < self.names.len() && self.names[i as int].1 == pid,
                None => !is_named(self@, pid),
            },
    {
        let mut i: usize = 0;
        while i < self.names.len()
            invariant
                i <= self.names.len(),
                forall|j: int| 0 <= j < i ==> (#[trigger] self.names@[j]).1 != pid,
            decreases self.names.len() - i,
        {
            if self.names[i].1 == pid {
                return Some(i);
            }
            i = i + 1;
        }
        None
    }

    /// Gives a process a name.
    pub fn register(&mut self, name: String, pid: Pid) -> (r: Result<(), RegistryError>)
        requires
            old(self).wf(),
        ensures
            final(self).wf(),
            match register_error(old(self)@, name@, pid) {
                Some(error) => r == Err::<(), RegistryError>(error) && final(self)@ == old(self)@,
                None => r == Ok::<(), RegistryError>(()) && final(self)@ == old(self)@.insert(
                    name@,
                    pid,
                ),
            },
    {
        if self.find_name(&name).is_some() {
            return Err(RegistryError::AlreadyRegistered);
        }
        match self.find_pid(pid) {
            Some(i) => {
                proof {
                    let taken = self.names@[i as int].0@;
                    assert(position(self.names@, taken) == i);
                    assert(self@.dom().contains(taken));
                }
                return Err(RegistryError::ProcessAlreadyNamed);
            },
            None => {},
        }
        let ghost before = self.names@;
        let ghost text = name@;
        self.names.push((name, pid));
        proof {
            let after = self.names@;
            assert(forall|i: int| 0 <= i < before.len() ==> #[trigger] after[i] == before[i]);
            assert forall|i: int| 0 <= i < before.len() implies (#[trigger] before[i]).1 != pid by {
                assert(position(before, before[i].0@) == i);
                assert(old(self)@.dom().contains(before[i].0@));
            }
            assert forall|i: int| 0 <= i < before.len() implies (#[trigger] before[i]).0@ != text by {
                if before[i].0@ == text {
                    assert(old(self)@.dom().contains(text));
                }
            }
            assert(after[before.len() as int].0@ == text);
            assert forall|n: Seq<char>| #[trigger]
                pid_of(before).insert(text, pid).dom().contains(n) implies pid_of(
                after,
            ).dom().contains(n) by {
                if n != text {
                    let i = position(before, n);
                    assert(after[i].0@ == n);
                }
            }
            assert forall|n: Seq<char>| #[trigger] pid_of(after).dom().contains(n) implies pid_of(
                before,
            ).insert(text, pid).dom().contains(n) && pid_of(after)[n] == pid_of(before).insert(
                text,
                pid,
            )[n] by {
                let i = position(after, n);
                if i < before.len() {
                    assert(before[i].0@ == n);
                    assert(position(before, n) == i);
                }
            }
            assert(self@ =~= old(self)@.insert(text, pid));
        }
        Ok(())
    }

    /// The process that has the name.
    pub fn whereis(&self, name: &str) -> (r: Option<Pid>)
        requires
            self.wf(),
        ensures
            match r {
                Some(pid) => self@.dom().contains(name@) && self@[name@] == pid,
                None => !self@.dom().contains(name@),
            },
    {
        match self.find_name(&name.to_owned()) {
            Some(i) => {
                assert(position(self.names@, name@) == i);
                Some(self.names[i].1)
            },
            None => None,
        }
    }

    /// The name of the process.
    pub fn name_of(&self, pid: Pid) -> (r: Option<String>)
        requires
            self.wf(),
        ensures
            match r {
                Some(name) => self@.dom().contains(name@) && self@[name@] == pid,
                None => !is_named(self@, pid),
            },
    {
        match self.find_pid(pid) {
            Some(i) => {
                proof {
                    let name = self.names@[i as int].0@;
                    assert(position(self.names@, name) == i);
                }
                Some(self.names[i].0.clone())
            },
            None => None,
        }
    }

    /// Takes the name of the process away, if it has one.
    pub fn unregister_pid(&mut self, pid: Pid)
        requires
            old(self).wf(),
        ensures
            final(self).wf(),
            final(self)@ == without_pid(old(self)@, pid),
    {
        let ghost before = self.names@;
        match self.find_pid(pid) {
            Some(k) => {
                self.names.remove(k);
                proof {
                    let after = self.names@;
                    assert(forall|i: int| 0 <= i < k ==> #[trigger] after[i] == before[i]);
                    assert(forall|i: int| k <= i < after.len() ==> #[trigger] after[i] == before[i + 1]);
                    assert forall|n: Seq<char>| #[trigger]
                        pid_of(after).dom().contains(n) implies pid_of(before).dom().contains(n)
                        && pid_of(before)[n] != pid && pid_of(after)[n] == pid_of(before)[n] by {
                        let i = position(after, n);
                        let j = if i < k {
                            i
                        } else {
                            i + 1
                        };
                        assert(before[j].0@ == n);
                        assert(position(before, n) == j);
                        assert(before[j].1 != before[k as int].1);
                    }
                    assert forall|n: Seq<char>| #[trigger]
                        pid_of(before).dom().contains(n) && pid_of(before)[n] != pid implies pid_of(
                        after,
                    ).dom().contains(n) by {
                        let j = position(before, n);
                        let i = if j < k {
                            j
                        } else {
                            j - 1
                        };
                        assert(after[i].0@ == n);
                    }
                }
            },
            None => {},
        }
        assert(self@ =~= without_pid(old(self)@, pid));
    }

    /// Takes all names away.
    pub fn clear(&mut self)
        ensures
            final(self).wf(),
            final(self)@ == Map::<Seq<char>, Pid>::empty(),
    {
        self.names = Vec::new();
        assert(self@ =~= Map::empty());
    }
}

/// A name that was given finds the process, and the process its name.
pub proof fn law_a_registered_process_is_found(names: Map<Seq<char>, Pid>, name: Seq<char>, pid: Pid)
    requires
        one_name_each(names),
        register_error(names, name, pid) is None,
    ensures
        one_name_each(names.insert(name, pid)),
        names.insert(name, pid)[name] == pid,
        is_named(names.insert(name, pid), pid),
        forall|other: Seq<char>| #[trigger]
            names.insert(name, pid).dom().contains(other) && names.insert(name, pid)[other] == pid
                ==> other == name,
{
    let after = names.insert(name, pid);
    assert(after.dom().contains(name));
}

/// While a name is taken nobody else can have it, and who has a name can have
/// no other.
pub proof fn law_names_are_exclusive(
    names: Map<Seq<char>, Pid>,
    name: Seq<char>,
    pid: Pid,
    other_name: Seq<char>,
    other: Pid,
)
    requires
        names.dom().contains(name),
        names[name] == pid,
    ensures
        register_error(names, name, other) == Some(RegistryError::AlreadyRegistered),
        !names.dom().contains(other_name) ==> register_error(names, other_name, pid) == Some(
            RegistryError::ProcessAlreadyNamed,
        ),
{
}

/// Taking the name of a process away undoes giving it: the name can be given
/// to another, and the process can have another.
pub proof fn law_unregistering_undoes_registering(
    names: Map<Seq<char>, Pid>,
    name: Seq<char>,
    pid: Pid,
    other: Pid,
)
    requires
        one_name_each(names),
        register_error(names, name, pid) is None,
    ensures
        without_pid(names.insert(name, pid), pid) == names,
        !is_named(names, other) ==> register_error(
            without_pid(names.insert(name, pid), pid),
            name,
            other,
        ) is None,
        one_name_each(without_pid(names, pid)),
{
    assert(without_pid(names.insert(name, pid), pid) =~= names);
}

/// Giving a name fails only for cause: a name that nobody has can be given to
/// any process without a name, however many other names there are.
pub proof fn law_a_name_is_refused_only_for_cause(
    names: Map<Seq<char>, Pid>,
    name: Seq<char>,
    pid: Pid,
)
    ensures
        register_error(names, name, pid) == Some(RegistryError::AlreadyRegistered)
            <==> names.dom().contains(name),
        register_error(names, name, pid) == Some(RegistryError::ProcessAlreadyNamed)
            <==> !names.dom().contains(name) && exists|other: Seq<char>| #[trigger]
            names.dom().contains(other) && names[other] == pid,
        register_error(names, name, pid) is None <==> !names.dom().contains(name) && forall|
            other: Seq<char>,
        | #[trigger]
            names.dom().contains(other) ==> names[other] != pid,
{
}

/// Taking the name of a process away leaves every name of others with the one
/// who has it, and the process without any.
pub proof fn law_unregistering_concerns_nobody_else(
    names: Map<Seq<char>, Pid>,
    pid: Pid,
    name: Seq<char>,
)
    ensures
        without_pid(names, pid).dom().contains(name) <==> names.dom().contains(name) && names[name]
            != pid,
        without_pid(names, pid).dom().contains(name) ==> without_pid(names, pid)[name]
            == names[name],
        !is_named(without_pid(names, pid), pid),
{
}

/// A process is named if and only if some name leads to it.
pub proof fn law_named_is_who_has_a_name(names: Map<Seq<char>, Pid>, pid: Pid)
    ensures
        is_named(names, pid) <==> exists|name: Seq<char>| #[trigger]
            names.dom().contains(name) && names[name] == pid,
        one_name_each(names) <==> forall|a: Seq<char>, b: Seq<char>| #[trigger]
            names.dom().contains(a) && #[trigger] names.dom().contains(b) && names[a] == names[b]
                ==> a == b,
{
}

} // verus!
