//! The contract a plugin implements, and the plugins built into the host.
use vstd::prelude::*;
use crate::registry::{Origin, PluginDescriptor};
use crate::text::{advertised_commands, comma_pieces};

verus! {

/// One command a plugin offers.
pub trait MetaCommand {
    /// The command's name as the user types it.
    spec fn spec_name(&self) -> Seq<char>;

    fn name(&self) -> (r: String)
        ensures
            r@ == self.spec_name(),
    ;
}

/// A plugin: a name, a version, and the commands it offers.
pub trait Plugin {
    type Command: MetaCommand;

    spec fn spec_name(&self) -> Seq<char>;

    /// The names of the commands the plugin offers, in order.
    spec fn spec_commands(&self) -> Seq<Seq<char>>;

    fn name(&self) -> (r: String)
        ensures
            r@ == self.spec_name(),
    ;

    fn version(&self) -> String;

    fn meta_commands(&self) -> (r: Vec<Self::Command>)
        ensures
            r@.len() == self.spec_commands().len(),
            forall|i: int| 0 <= i < r@.len() ==> r@[i].spec_name() == self.spec_commands()[i],
    ;
}

/// The names joined by commas, as a plugin advertises them.
pub open spec fn comma_joined(names: Seq<Seq<char>>) -> Seq<char>
    decreases names.len(),
{
    if names.len() == 0 {
        Seq::empty()
    } else if names.len() == 1 {
        names[0]
    } else {
        comma_joined(names.drop_last()) + seq![','] + names.last()
    }
}

/// The advertisement of a plugin's commands: their names joined by commas.
pub fn meta_commands_text<P: Plugin>(plugin: &P) -> (r: String)
    ensures
        r@ == comma_joined(plugin.spec_commands()),
{
    let commands = plugin.meta_commands();
    let ghost names = plugin.spec_commands();
    let mut out = String::new();
    let mut i: usize = 0;
    while i < commands.len()
        invariant
            i <= commands@.len(),
            commands@.len() == names.len(),
            forall|k: int| 0 <= k < commands@.len() ==> commands@[k].spec_name() == names[k],
            out@ == comma_joined(names.take(i as int)),
        decreases commands@.len() - i,
    {
        let name = commands[i].name();
        proof {
            assert(names.take(i as int + 1).drop_last() =~= names.take(i as int));
            assert(names.take(i as int + 1).last() == name@);
        }
        if i > 0 {
            out.append(",");
            proof {
                reveal_strlit(",");
            }
        } else {
            assert(names.take(1) =~= seq![name@]);
            assert(out@ =~= Seq::<char>::empty());
        }
        out.append(name.as_str());
        i = i + 1;
    }
    assert(names.take(commands@.len() as int) =~= names);
    out
}

/// The position of the first of `commands` named `cmd`, if any.
pub fn find_meta_command<C: MetaCommand>(commands: &Vec<C>, cmd: &str) -> (r: Option<usize>)
    ensures
        r is None <==> forall|i: int| 0 <= i < commands@.len() ==> commands@[i].spec_name() != cmd@,
        r matches Some(i) ==> i < commands@.len() && commands@[i as int].spec_name() == cmd@
            && forall|j: int| 0 <= j < i ==> commands@[j].spec_name() != cmd@,
{
    let wanted = cmd.to_string();
    let mut i: usize = 0;
    while i < commands.len()
        invariant
            i <= commands@.len(),
            wanted@ == cmd@,
            forall|j: int| 0 <= j < i ==> commands@[j].spec_name() != cmd@,
        decreases commands@.len() - i,
    {
        if commands[i].name() == wanted {
            return Some(i);
        }
        i = i + 1;
    }
    None
}

/// The descriptor of a plugin built into the host, with `execute` as its
/// handler; `None` where the plugin's name is empty.
pub fn embedded_descriptor<P: Plugin, H>(plugin: &P, execute: H) -> (r: Option<PluginDescriptor<H>>)
    ensures
        r is None <==> plugin.spec_name().len() == 0,
        r matches Some(d) ==> {
            &&& d.name_view() == plugin.spec_name()
            &&& d.command_set() == advertised_commands(comma_joined(plugin.spec_commands()))
            &&& d.handler() == execute
            &&& d.origin_view() == Origin::Embedded
        },
{
    let text = meta_commands_text(plugin);
    PluginDescriptor::new(plugin.name(), text.as_str(), execute, Origin::Embedded)
}

proof fn lemma_pieces_extend(s: Seq<char>, t: Seq<char>)
    requires
        !t.contains(','),
    ensures
        comma_pieces(s + t) == comma_pieces(s).update(
            comma_pieces(s).len() - 1,
            comma_pieces(s).last() + t,
        ),
        comma_pieces(s + t).len() == comma_pieces(s).len(),
    decreases t.len(),
{
    lemma_pieces_len(s);
    if t.len() == 0 {
        assert(s + t =~= s);
        assert(comma_pieces(s).last() + t =~= comma_pieces(s).last());
        assert(comma_pieces(s).update(comma_pieces(s).len() - 1, comma_pieces(s).last())
            =~= comma_pieces(s));
    } else {
        let t0 = t.drop_last();
        assert(!t0.contains(',')) by {
            if t0.contains(',') {
                let k = choose|k: int| 0 <= k < t0.len() && t0[k] == ',';
                assert(t[k] == ',');
            }
        }
        assert(t.last() != ',') by {
            assert(t[t.len() - 1] == t.last());
        }
        lemma_pieces_extend(s, t0);
        assert((s + t).drop_last() =~= s + t0);
        assert((s + t).last() == t.last());
        let p = comma_pieces(s);
        assert((p.last() + t0).push(t.last()) =~= p.last() + t);
        assert(comma_pieces(s + t) =~= p.update(p.len() - 1, p.last() + t));
    }
}

proof fn lemma_pieces_len(s: Seq<char>)
    ensures
        comma_pieces(s).len() >= 1,
    decreases s.len(),
{
    if s.len() > 0 {
        lemma_pieces_len(s.drop_last());
    }
}

proof fn lemma_pieces_of_joined(names: Seq<Seq<char>>)
    requires
        names.len() > 0,
        forall|i: int| 0 <= i < names.len() ==> !(#[trigger] names[i]).contains(','),
    ensures
        comma_pieces(comma_joined(names)) == names,
    decreases names.len(),
{
    if names.len() == 1 {
        let e = Seq::<char>::empty();
        assert(e + names[0] =~= names[0]);
        assert(comma_pieces(e) =~= seq![e]);
        lemma_pieces_extend(e, names[0]);
        assert(seq![e].update(0, e + names[0]) =~= names);
    } else {
        let prev = names.drop_last();
        lemma_pieces_of_joined(prev);
        let j = comma_joined(prev);
        let jc = j + seq![','];
        assert(jc.drop_last() =~= j);
        assert(comma_pieces(jc) == prev.push(Seq::<char>::empty()));
        assert(names.last() == names[names.len() - 1]);
        lemma_pieces_extend(jc, names.last());
        assert(jc + names.last() =~= comma_joined(names));
        assert(Seq::<char>::empty() + names.last() =~= names.last());
        assert(prev.push(Seq::<char>::empty()).update(prev.len() as int, names.last()) =~= names);
    }
}

/// A plugin's commands survive the advertisement: splitting the joined
/// names gives back exactly the non-empty ones, where no name holds a comma.
pub proof fn lemma_advertised_round_trip(names: Seq<Seq<char>>)
    requires
        forall|i: int| 0 <= i < names.len() ==> !(#[trigger] names[i]).contains(','),
    ensures
        advertised_commands(comma_joined(names)) == Set::new(
            |c: Seq<char>| c.len() > 0 && names.contains(c),
        ),
{
    if names.len() == 0 {
        assert(comma_pieces(Seq::<char>::empty()) =~= seq![Seq::<char>::empty()]);
        assert(advertised_commands(comma_joined(names)) =~= Set::new(
            |c: Seq<char>| c.len() > 0 && names.contains(c),
        ));
    } else {
        lemma_pieces_of_joined(names);
        assert(advertised_commands(comma_joined(names)) =~= Set::new(
            |c: Seq<char>| c.len() > 0 && names.contains(c),
        ));
    }
}

} // verus!
