//! Plugin descriptors and the table that maps plugin names to them.
use vstd::prelude::*;
use crate::text::{advertised_commands, contains_text, distinct_texts, split_commands, text_set};

verus! {

/// Where a plugin came from; informational only.
#[derive(Debug, PartialEq, Eq)]
pub enum Origin {
    /// Linked into the host at build time.
    Embedded,
    /// Loaded from the library file at this path.
    Discovered(String),
}

/// A loaded plugin: its name, the commands it owns, and its handler.
///
/// Every descriptor has a non-empty name and lists each of its commands
/// once, none of them empty.
pub struct PluginDescriptor<H> {
    name: String,
    commands: Vec<String>,
    execute: H,
    origin: Origin,
}

impl<H> PluginDescriptor<H> {
    #[verifier::type_invariant]
    spec fn wf(&self) -> bool {
        &&& self.name@.len() > 0
        &&& distinct_texts(self.commands@)
        &&& forall|i: int| 0 <= i < self.commands@.len() ==> self.commands@[i]@.len() > 0
    }

    /// The plugin's name, its key in the registry.
    pub closed spec fn name_view(&self) -> Seq<char> {
        self.name@
    }

    /// The set of commands this plugin owns; the empty name is never one.
    pub closed spec fn command_set(&self) -> Set<Seq<char>> {
        Set::new(|c: Seq<char>| c.len() > 0 && text_set(self.commands@).contains(c))
    }

    /// No plugin owns the empty command.
    pub proof fn lemma_empty_not_owned(&self)
        ensures
            !self.command_set().contains(Seq::<char>::empty()),
    {
    }

    /// The handler that runs this plugin's commands.
    pub closed spec fn handler(&self) -> H {
        self.execute
    }

    /// Where the plugin came from.
    pub closed spec fn origin_view(&self) -> Origin {
        self.origin
    }

    /// A descriptor for a plugin called `name` that owns the commands listed
    /// in `commands_text`, comma-joined; `None` where the name is empty.
    pub fn new(name: String, commands_text: &str, execute: H, origin: Origin) -> (r: Option<Self>)
        ensures
            r is None <==> name@.len() == 0,
            r matches Some(d) ==> {
                &&& d.name_view() == name@
                &&& d.command_set() == advertised_commands(commands_text@)
                &&& d.handler() == execute
                &&& d.origin_view() == origin
            },
    {
        if name.unicode_len() == 0 {
            return None;
        }
        let commands = split_commands(commands_text);
        let d = PluginDescriptor { name, commands, execute, origin };
        assert(d.command_set() =~= text_set(d.commands@));
        Some(d)
    }

    /// The plugin's name.
    pub fn name(&self) -> (r: &String)
        ensures
            r@ == self.name_view(),
            r@.len() > 0,
    {
        proof {
            use_type_invariant(self);
        }
        &self.name
    }

    /// The commands the plugin owns, each once.
    pub fn commands(&self) -> (r: &Vec<String>)
        ensures
            text_set(r@) == self.command_set(),
            distinct_texts(r@),
            forall|i: int| 0 <= i < r@.len() ==> r@[i]@.len() > 0,
    {
        proof {
            use_type_invariant(self);
            assert forall|c: Seq<char>| text_set(self.commands@).contains(c) implies c.len() > 0 by {
                let i = choose|i: int| 0 <= i < self.commands@.len() && self.commands@[i]@ == c;
            }
            assert(self.command_set() =~= text_set(self.commands@));
        }
        &self.commands
    }

    /// The plugin's handler.
    pub fn execute(&self) -> (r: &H)
        ensures
            *r == self.handler(),
    {
        &self.execute
    }

    /// Where the plugin came from.
    pub fn origin(&self) -> (r: &Origin)
        ensures
            *r == self.origin_view(),
    {
        &self.origin
    }

    /// Whether this plugin owns `cmd` (exact, case-sensitive match).
    pub fn owns(&self, cmd: &String) -> (r: bool)
        ensures
            r == self.command_set().contains(cmd@),
    {
        proof {
            use_type_invariant(self);
        }
        let r = contains_text(&self.commands, cmd);
        proof {
            if r {
                let i = choose|i: int| 0 <= i < self.commands@.len() && self.commands@[i]@ == cmd@;
            }
        }
        r
    }
}

/// Whether the plugin at index `i` owns `cmd`.
pub open spec fn owns_at<H>(entries: Seq<PluginDescriptor<H>>, i: int, cmd: Seq<char>) -> bool {
    0 <= i < entries.len() && entries[i].command_set().contains(cmd)
}

/// Whether some plugin owns `cmd`.
pub open spec fn claimed<H>(entries: Seq<PluginDescriptor<H>>, cmd: Seq<char>) -> bool {
    exists|i: int| owns_at(entries, i, cmd)
}

/// `i` is the earliest-registered plugin that owns `cmd`: when several
/// plugins claim one command, the first registered one wins.
pub open spec fn first_owner<H>(entries: Seq<PluginDescriptor<H>>, cmd: Seq<char>, i: int) -> bool {
    owns_at(entries, i, cmd) && forall|j: int| 0 <= j < i ==> !owns_at(entries, j, cmd)
}

/// The plugin that a command goes to, if any.
pub open spec fn owner_of<H>(entries: Seq<PluginDescriptor<H>>, cmd: Seq<char>) -> Option<int> {
    if claimed(entries, cmd) {
        Some(choose|i: int| first_owner(entries, cmd, i))
    } else {
        None
    }
}

/// Whether a plugin of this name is registered.
pub open spec fn has_name<H>(entries: Seq<PluginDescriptor<H>>, name: Seq<char>) -> bool {
    exists|i: int| 0 <= i < entries.len() && entries[i].name_view() == name
}

/// The table after registering `d`: a plugin of the same name is replaced in
/// place, otherwise `d` comes last.
pub open spec fn registered<H>(
    entries: Seq<PluginDescriptor<H>>,
    d: PluginDescriptor<H>,
) -> Seq<PluginDescriptor<H>> {
    if has_name(entries, d.name_view()) {
        let i = choose|i: int| 0 <= i < entries.len() && entries[i].name_view() == d.name_view();
        entries.update(i, d)
    } else {
        entries.push(d)
    }
}

/// The table after registering each of `ds` in turn.
pub open spec fn registered_all<H>(
    entries: Seq<PluginDescriptor<H>>,
    ds: Seq<PluginDescriptor<H>>,
) -> Seq<PluginDescriptor<H>>
    decreases ds.len(),
{
    if ds.len() == 0 {
        entries
    } else {
        registered(registered_all(entries, ds.drop_last()), ds.last())
    }
}

/// No two plugins share a name.
pub open spec fn table_wf<H>(entries: Seq<PluginDescriptor<H>>) -> bool {
    forall|i: int, j: int|
        0 <= i < j < entries.len() ==> entries[i].name_view() != entries[j].name_view()
}

/// The earliest owner is the only one of its kind.
pub proof fn lemma_first_owner_unique<H>(entries: Seq<PluginDescriptor<H>>, cmd: Seq<char>, i: int, j: int)
    requires
        first_owner(entries, cmd, i),
        first_owner(entries, cmd, j),
    ensures
        i == j,
{
    if i < j {
        assert(!owns_at(entries, i, cmd));
    } else if j < i {
        assert(!owns_at(entries, j, cmd));
    }
}

/// A command that is claimed has an earliest owner, and `owner_of` names it.
pub proof fn lemma_owner_of<H>(entries: Seq<PluginDescriptor<H>>, cmd: Seq<char>)
    ensures
        owner_of(entries, cmd) matches Some(i) ==> first_owner(entries, cmd, i),
        owner_of(entries, cmd) is None <==> !claimed(entries, cmd),
{
    if claimed(entries, cmd) {
        let k = choose|k: int| owns_at(entries, k, cmd);
        lemma_earliest_exists(entries, cmd, k);
    }
}

proof fn lemma_earliest_exists<H>(entries: Seq<PluginDescriptor<H>>, cmd: Seq<char>, k: int)
    requires
        owns_at(entries, k, cmd),
    ensures
        exists|i: int| first_owner(entries, cmd, i),
    decreases k,
{
    if exists|j: int| 0 <= j < k && owns_at(entries, j, cmd) {
        let j = choose|j: int| 0 <= j < k && owns_at(entries, j, cmd);
        lemma_earliest_exists(entries, cmd, j);
    } else {
        assert(first_owner(entries, cmd, k));
    }
}

/// The process-wide table of loaded plugins, in order of registration.
pub struct PluginRegistry<H> {
    entries: Vec<PluginDescriptor<H>>,
}

impl<H> PluginRegistry<H> {
    /// The registered plugins, in order of registration.
    pub closed spec fn view(&self) -> Seq<PluginDescriptor<H>> {
        self.entries@
    }

    pub open spec fn wf(&self) -> bool {
        table_wf(self.view())
    }

    /// An empty table.
    pub fn new() -> (r: Self)
        ensures
            r.view() == Seq::<PluginDescriptor<H>>::empty(),
            r.wf(),
    {
        PluginRegistry { entries: Vec::new() }
    }

    /// The number of registered plugins.
    pub fn len(&self) -> (r: usize)
        ensures
            r == self.view().len(),
    {
        self.entries.len()
    }

    /// The plugin at position `i`.
    pub fn get(&self, i: usize) -> (r: &PluginDescriptor<H>)
        requires
            i < self.view().len(),
        ensures
            *r == self.view()[i as int],
    {
        &self.entries[i]
    }

    /// The position of the plugin called `name`, if one is registered.
    pub fn position_of(&self, name: &String) -> (r: Option<usize>)
        ensures
            r is None <==> !has_name(self.view(), name@),
            r matches Some(i) ==> i < self.view().len() && self.view()[i as int].name_view() == name@,
    {
        let mut i: usize = 0;
        while i < self.entries.len()
            invariant
                i <= self.entries@.len(),
                forall|k: int| 0 <= k < i ==> self.entries@[k].name_view() != name@,
            decreases self.entries@.len() - i,
        {
            if *self.entries[i].name() == *name {
                return Some(i);
            }
            i = i + 1;
        }
        None
    }

    /// Registers `d`. A plugin of the same name is replaced where it stands
    /// (last write wins); otherwise `d` is added after all others.
    pub fn insert(&mut self, d: PluginDescriptor<H>)
        requires
            old(self).wf(),
        ensures
            final(self).view() == registered(old(self).view(), d),
            final(self).wf(),
    {
        let ghost e0 = self.entries@;
        let ghost dn = d.name_view();
        match self.position_of(d.name()) {
            Some(i) => {
                proof {
                    let j = choose|j: int| 0 <= j < e0.len() && e0[j].name_view() == dn;
                    if j != i {
                        if j < i {
                            assert(e0[j].name_view() != e0[i as int].name_view());
                        } else {
                            assert(e0[i as int].name_view() != e0[j].name_view());
                        }
                    }
                }
                self.entries.set(i, d);
            },
            None => {
                self.entries.push(d);
            },
        }
        proof {
            let e1 = self.entries@;
            assert forall|i: int, j: int| 0 <= i < j < e1.len() implies e1[i].name_view() != e1[j].name_view() by {
                if e1[i].name_view() == dn && i < e0.len() && e0[i].name_view() != dn {
                } else if e1[j].name_view() == dn && j < e0.len() && e0[j].name_view() != dn {
                } else if i < e0.len() && j < e0.len() {
                    if e1[i].name_view() == e1[j].name_view() {
                        assert(e1[i].name_view() == dn || e0[i].name_view() == e1[i].name_view());
                    }
                }
            }
        }
    }

    /// The position of the plugin a command goes to: the earliest-registered
    /// plugin that owns it.
    pub fn find_owner(&self, cmd: &String) -> (r: Option<usize>)
        ensures
            r is None <==> owner_of(self.view(), cmd@) is None,
            r matches Some(i) ==> owner_of(self.view(), cmd@) == Some(i as int),
            r matches Some(i) ==> first_owner(self.view(), cmd@, i as int),
    {
        proof {
            lemma_owner_of(self.view(), cmd@);
        }
        let mut i: usize = 0;
        while i < self.entries.len()
            invariant
                i <= self.entries@.len(),
                forall|k: int| 0 <= k < i ==> !owns_at(self.entries@, k, cmd@),
            decreases self.entries@.len() - i,
        {
            if self.entries[i].owns(cmd) {
                proof {
                    assert(first_owner(self.view(), cmd@, i as int));
                    lemma_first_owner_unique(self.view(), cmd@, i as int, owner_of(self.view(), cmd@)->0);
                }
                return Some(i);
            }
            i = i + 1;
        }
        None
    }

    /// Whether any registered plugin owns `cmd`.
    pub fn has_command(&self, cmd: &String) -> (r: bool)
        ensures
            r == claimed(self.view(), cmd@),
    {
        proof {
            lemma_owner_of(self.view(), cmd@);
        }
        self.find_owner(cmd).is_some()
    }

    /// The plugin a command goes to, if any.
    pub fn lookup(&self, cmd: &String) -> (r: Option<&PluginDescriptor<H>>)
        ensures
            r is None <==> !claimed(self.view(), cmd@),
            r matches Some(d) ==> exists|i: int|
                first_owner(self.view(), cmd@, i) && *d == self.view()[i],
    {
        proof {
            lemma_owner_of(self.view(), cmd@);
        }
        match self.find_owner(cmd) {
            Some(i) => Some(&self.entries[i]),
            None => None,
        }
    }
}

} // verus!
