//! The configuration: which commands to run, each under a name of its own.

use vstd::prelude::*;

verus! {

/// One configured child: its name and the shell command that starts it.
#[derive(Debug, PartialEq, Eq)]
pub struct ProcessSpec {
    pub name: String,
    pub command: String,
}

/// A configured child as a mathematical value.
pub struct ProcessSpecView {
    pub name: Seq<char>,
    pub command: Seq<char>,
}

impl View for ProcessSpec {
    type V = ProcessSpecView;

    open spec fn view(&self) -> ProcessSpecView {
        ProcessSpecView { name: self.name@, command: self.command@ }
    }
}

/// How a child is started: a program and its arguments.
#[derive(Debug, PartialEq, Eq)]
pub struct Launch {
    pub program: String,
    pub arguments: Vec<String>,
}

/// The views of a list of entries, in order.
pub open spec fn entry_views(entries: Seq<ProcessSpec>) -> Seq<ProcessSpecView> {
    Seq::new(entries.len(), |i: int| entries[i]@)
}

/// No name occurs twice.
pub open spec fn names_distinct(entries: Seq<ProcessSpecView>) -> bool {
    forall|i: int, j: int| 0 <= i < j < entries.len() ==> entries[i].name != entries[j].name
}

/// The entry at `first` has a name that no later entry has.
spec fn unmatched_after(entries: Seq<ProcessSpecView>, first: int, upto: int) -> bool {
    forall|j: int| first < j < upto ==> entries[first].name != entries[j].name
}

/// A set of commands under pairwise distinct names.
#[derive(Debug)]
pub struct Config {
    processes: Vec<ProcessSpec>,
}

impl View for Config {
    type V = Seq<ProcessSpecView>;

    closed spec fn view(&self) -> Seq<ProcessSpecView> {
        entry_views(self.processes@)
    }
}

impl ProcessSpec {
    /// A child is started through the shell, with its command as the one
    /// argument after `-c`, so that the shell's own expansion applies.
    pub fn launch(&self) -> (launch: Launch)
        ensures
            launch.program@ == "sh"@,
            launch.arguments@.len() == 2,
            launch.arguments@[0]@ == "-c"@,
            launch.arguments@[1]@ == self.command@,
    {
        let mut arguments: Vec<String> = Vec::new();
        arguments.push("-c".to_owned());
        arguments.push(self.command.clone());
        Launch { program: "sh".to_owned(), arguments }
    }
}

impl Config {
    #[verifier::type_invariant]
    spec fn well_formed(&self) -> bool {
        names_distinct(entry_views(self.processes@))
    }

    /// Makes a configuration of the given entries, in their order. It is
    /// refused if two entries have the same name.
    pub fn new(entries: Vec<ProcessSpec>) -> (config: Option<Config>)
        ensures
            config is Some <==> names_distinct(entry_views(entries@)),
            config matches Some(made) ==> made@ == entry_views(entries@),
    {
        let ghost views = entry_views(entries@);
        let mut first: usize = 0;
        while first < entries.len()
            invariant
                first <= entries.len(),
                views == entry_views(entries@),
                forall|i: int| 0 <= i < first ==> unmatched_after(views, i, views.len() as int),
            decreases entries.len() - first,
        {
            let mut second: usize = first + 1;
            while second < entries.len()
                invariant
                    first < second <= entries.len(),
                    views == entry_views(entries@),
                    unmatched_after(views, first as int, second as int),
                decreases entries.len() - second,
            {
                if entries[first].name == entries[second].name {
                    assert(views[first as int].name == views[second as int].name);
                    return None;
                }
                second = second + 1;
            }
            first = first + 1;
        }
        assert(names_distinct(views)) by {
            assert forall|i: int, j: int| 0 <= i < j < views.len() implies views[i].name
                != views[j].name by {
                assert(unmatched_after(views, i, views.len() as int));
            }
        }
        Some(Config { processes: entries })
    }

    /// The number of configured children. Their names are pairwise distinct.
    pub fn len(&self) -> (count: usize)
        ensures
            count == self@.len(),
            names_distinct(self@),
    {
        proof {
            use_type_invariant(self);
        }
        self.processes.len()
    }

    /// The entry at `index`, if there are that many.
    pub fn get(&self, index: usize) -> (entry: Option<&ProcessSpec>)
        ensures
            entry is Some <==> index < self@.len(),
            entry matches Some(found) ==> found@ == self@[index as int],
    {
        if index < self.processes.len() {
            Some(&self.processes[index])
        } else {
            None
        }
    }
}

} // verus!
