//! The two operations the host calls: whether a plugin owns a command, and
//! running the owning plugin's handler.
use vstd::prelude::*;
use vstd::utf8::{decode_utf8, encode_utf8, valid_utf8};
use crate::discovery::{initialize_plugins, failures, loaded, DiscoveryError};
use crate::gate::{arrive, GateAction, GateState, InitGate};
use crate::loader::{bytes_view, LoadError};
use crate::registry::{
    claimed, first_owner, has_name, lemma_first_owner_unique, lemma_owner_of, owner_of, owns_at, registered_all,
    PluginDescriptor, PluginRegistry,
};
use crate::text::{decode_text, lemma_text_round_trip};

verus! {

/// What a command handler reports back to the host.
#[derive(Clone, Copy, Debug, PartialEq, Eq, Structural)]
pub enum ResultCode {
    /// The command ran.
    Success,
    /// The pending query was replaced; the host should let the user edit it.
    RequestReedit,
    /// Nothing more is to be done with this input line.
    SkipLine,
    /// The command failed.
    Error,
    /// No plugin owns the command.
    UnknownCommand,
}

/// The command text behind a C string's bytes, if there is a string and it
/// is valid UTF-8.
pub open spec fn command_text(cmd: Option<Seq<u8>>) -> Option<Seq<char>> {
    match cmd {
        Some(b) => if valid_utf8(b) {
            Some(decode_utf8(b))
        } else {
            None
        },
        None => None,
    }
}

/// Whether the host is told that a plugin owns `cmd`: loading succeeded, the
/// command reads as text, and a registered plugin claims it.
pub open spec fn knows_command<H>(
    state: GateState,
    entries: Seq<PluginDescriptor<H>>,
    cmd: Option<Seq<u8>>,
) -> bool {
    &&& state == GateState::Ready(true)
    &&& command_text(cmd) matches Some(t)
    &&& claimed(entries, t)
}

/// Where `execute_command` sends a command: `None` where nothing runs, and
/// otherwise the position of the plugin whose handler runs.
pub open spec fn dispatch_target<H>(
    state: GateState,
    entries: Seq<PluginDescriptor<H>>,
    cmd: Option<Seq<u8>>,
) -> Option<int> {
    if state == GateState::Ready(true) {
        match command_text(cmd) {
            Some(t) => owner_of(entries, t),
            None => None,
        }
    } else {
        None
    }
}

/// The result code of `execute_command` where no handler runs.
pub open spec fn unhandled_code(cmd: Option<Seq<u8>>) -> ResultCode {
    if command_text(cmd) is None {
        ResultCode::Error
    } else {
        ResultCode::UnknownCommand
    }
}

/// The plugin system as the host sees it: the once-only loading guard and the
/// registry it fills.
pub struct Host<H> {
    gate: InitGate,
    registry: PluginRegistry<H>,
}

impl<H> Host<H> {
    /// Where the loading pass stands.
    pub closed spec fn state(&self) -> GateState {
        self.gate.view()
    }

    /// The registered plugins, in order of registration.
    pub closed spec fn plugins(&self) -> Seq<PluginDescriptor<H>> {
        self.registry.view()
    }

    pub closed spec fn wf(&self) -> bool {
        self.registry.wf()
    }

    /// A host before any caller has arrived: nothing is loaded.
    pub fn new() -> (r: Self)
        ensures
            r.state() == GateState::Uninitialized,
            r.plugins() == Seq::<PluginDescriptor<H>>::empty(),
            r.wf(),
    {
        Host { gate: InitGate::new(), registry: PluginRegistry::new() }
    }

    /// Where the loading pass stands.
    pub fn gate_state(&self) -> (r: GateState)
        ensures
            r == self.state(),
    {
        self.gate.state()
    }

    /// The registry.
    pub fn registry(&self) -> (r: &PluginRegistry<H>)
        ensures
            r.view() == self.plugins(),
            r.wf() == self.wf(),
    {
        &self.registry
    }

    /// A caller arrives at the loading guard; see `InitGate::arrive`.
    pub fn begin_initialization(&mut self) -> (r: GateAction)
        ensures
            (final(self).state(), r) == arrive(old(self).state()),
            final(self).plugins() == old(self).plugins(),
            final(self).wf() == old(self).wf(),
    {
        self.gate.arrive()
    }

    /// Runs the registration pass for the caller that was told to run it,
    /// and records its outcome: success unless discovery failed as a whole.
    pub fn complete_initialization(
        &mut self,
        embedded: Vec<PluginDescriptor<H>>,
        discovered: Result<Vec<Result<PluginDescriptor<H>, LoadError>>, DiscoveryError>,
    ) -> (r: Result<Vec<LoadError>, DiscoveryError>)
        requires
            old(self).wf(),
            old(self).state() == GateState::InProgress,
        ensures
            final(self).wf(),
            final(self).state() == GateState::Ready(r is Ok),
            match discovered {
                Err(e) => {
                    &&& r == Err::<Vec<LoadError>, DiscoveryError>(e)
                    &&& final(self).plugins() == registered_all(old(self).plugins(), embedded@)
                },
                Ok(rs) => {
                    &&& r matches Ok(skipped) && skipped@ == failures(rs@)
                    &&& final(self).plugins() == registered_all(
                        registered_all(old(self).plugins(), embedded@),
                        loaded(rs@),
                    )
                },
            },
    {
        let r = initialize_plugins(&mut self.registry, embedded, discovered);
        self.gate.report(r.is_ok());
        r
    }

    /// Whether a plugin owns the command whose C string bytes are `cmd`
    /// (`None` for a null pointer). Never fails: a missing or unreadable
    /// command, or a loading pass that has not succeeded, gives `false`.
    pub fn has_command(&self, cmd: Option<&[u8]>) -> (r: bool)
        ensures
            r == knows_command(self.state(), self.plugins(), bytes_view(cmd)),
    {
        if self.gate.state() != GateState::Ready(true) {
            return false;
        }
        match decode_text(cmd) {
            Ok(t) => self.registry.has_command(&t),
            Err(_) => false,
        }
    }

    /// Runs the command whose C string bytes are `cmd` (`None` for a null
    /// pointer) through the handler of the plugin that owns it; `invoke` is
    /// given that handler and the command text, and its result is returned
    /// unchanged. Where nothing owns the command, or loading did not
    /// succeed, `invoke` is not called and the result is `UnknownCommand`;
    /// where the command cannot be read, it is `Error`.
    pub fn execute_command<F>(&self, cmd: Option<&[u8]>, invoke: F) -> (r: ResultCode) where
        F: FnOnce(&H, &str) -> ResultCode,

        requires
            forall|h: &H, c: &str| invoke.requires((h, c)),
        ensures
            dispatch_target(self.state(), self.plugins(), bytes_view(cmd)) is None ==> r
                == unhandled_code(bytes_view(cmd)),
            dispatch_target(self.state(), self.plugins(), bytes_view(cmd)) matches Some(i) ==> (
            exists|c: &str|
                #![auto]
                Some(c@) == command_text(bytes_view(cmd)) && invoke.ensures(
                    (&self.plugins()[i].handler(), c),
                    r,
                )),
    {
        let text = match decode_text(cmd) {
            Ok(t) => t,
            Err(_) => return ResultCode::Error,
        };
        if self.gate.state() != GateState::Ready(true) {
            return ResultCode::UnknownCommand;
        }
        match self.registry.find_owner(&text) {
            None => ResultCode::UnknownCommand,
            Some(i) => {
                let d = self.registry.get(i);
                let r = invoke(d.execute(), text.as_str());
                r
            },
        }
    }
}

/// A command of a plugin is known to the host and runs that plugin's
/// handler once loading has succeeded, unless a plugin registered before it
/// claims the same command (the earliest registration wins).
pub proof fn lemma_owned_command_dispatch<H>(entries: Seq<PluginDescriptor<H>>, i: int, c: Seq<char>)
    requires
        0 <= i < entries.len(),
        entries[i].command_set().contains(c),
        forall|j: int| 0 <= j < i ==> !entries[j].command_set().contains(c),
    ensures
        knows_command(GateState::Ready(true), entries, Some(encode_utf8(c))),
        dispatch_target(GateState::Ready(true), entries, Some(encode_utf8(c))) == Some(i),
{
    lemma_text_round_trip(c);
    assert(owns_at(entries, i, c));
    assert(first_owner(entries, c, i));
    lemma_owner_of(entries, c);
    lemma_first_owner_unique(entries, c, i, owner_of(entries, c)->0);
}

/// Of two plugins with disjoint command sets, a command of the first never
/// reaches the handler of the second.
pub proof fn lemma_disjoint_plugins_never_cross<H>(
    state: GateState,
    entries: Seq<PluginDescriptor<H>>,
    i: int,
    j: int,
    c: Seq<char>,
)
    requires
        0 <= i < entries.len(),
        0 <= j < entries.len(),
        i != j,
        entries[i].command_set().disjoint(entries[j].command_set()),
        entries[i].command_set().contains(c),
    ensures
        dispatch_target(state, entries, Some(encode_utf8(c))) != Some(j),
{
    lemma_text_round_trip(c);
    lemma_owner_of(entries, c);
    if dispatch_target(state, entries, Some(encode_utf8(c))) == Some(j) {
        assert(first_owner(entries, c, j));
        assert(entries[j].command_set().contains(c));
    }
}

/// Registering embedded plugins of distinct names into an empty registry,
/// and then nothing from an empty plugin directory, leaves exactly those
/// plugins registered, and every command of each is known to the host.
pub proof fn lemma_embedded_without_discovery<H>(embedded: Seq<PluginDescriptor<H>>)
    requires
        forall|a: int, b: int|
            0 <= a < b < embedded.len() ==> embedded[a].name_view() != embedded[b].name_view(),
    ensures
        registered_all(
            registered_all(Seq::<PluginDescriptor<H>>::empty(), embedded),
            loaded(Seq::<Result<PluginDescriptor<H>, LoadError>>::empty()),
        ) == embedded,
        forall|k: int, c: Seq<char>|
            0 <= k < embedded.len() && #[trigger] embedded[k].command_set().contains(c)
                ==> knows_command(GateState::Ready(true), embedded, Some(encode_utf8(c))),
{
    lemma_register_fresh_names(embedded);
    assert(loaded(Seq::<Result<PluginDescriptor<H>, LoadError>>::empty()) =~= Seq::<
        PluginDescriptor<H>,
    >::empty());
    assert forall|k: int, c: Seq<char>|
        0 <= k < embedded.len() && #[trigger] embedded[k].command_set().contains(c) implies knows_command(
        GateState::Ready(true),
        embedded,
        Some(encode_utf8(c)),
    ) by {
        lemma_text_round_trip(c);
        assert(owns_at(embedded, k, c));
    }
}

proof fn lemma_register_fresh_names<H>(ds: Seq<PluginDescriptor<H>>)
    requires
        forall|a: int, b: int| 0 <= a < b < ds.len() ==> ds[a].name_view() != ds[b].name_view(),
    ensures
        registered_all(Seq::<PluginDescriptor<H>>::empty(), ds) == ds,
    decreases ds.len(),
{
    if ds.len() > 0 {
        let prev = ds.drop_last();
        lemma_register_fresh_names(prev);
        if has_name(prev, ds.last().name_view()) {
            let a = choose|a: int| 0 <= a < prev.len() && prev[a].name_view() == ds.last().name_view();
            assert(ds[a].name_view() != ds[ds.len() - 1].name_view());
        }
        assert(prev.push(ds.last()) =~= ds);
    }
}

/// The host never claims a missing command, one that is not valid UTF-8,
/// or the empty command, and claims nothing before loading has succeeded.
pub proof fn lemma_unreadable_or_empty_unknown<H>(
    state: GateState,
    entries: Seq<PluginDescriptor<H>>,
    b: Seq<u8>,
)
    ensures
        !knows_command(state, entries, None),
        !valid_utf8(b) ==> !knows_command(state, entries, Some(b)),
        !knows_command(state, entries, Some(Seq::<u8>::empty())),
        state != GateState::Ready(true) ==> !knows_command(state, entries, Some(b)),
{
    let e = Seq::<u8>::empty();
    assert(decode_utf8(e) =~= Seq::<char>::empty());
    if claimed(entries, Seq::<char>::empty()) {
        let i = choose|i: int| owns_at(entries, i, Seq::<char>::empty());
        entries[i].lemma_empty_not_owned();
    }
}

/// A command that no plugin owns runs no handler and gives
/// `UnknownCommand`, whatever the state of loading.
pub proof fn lemma_unowned_command_unknown<H>(
    state: GateState,
    entries: Seq<PluginDescriptor<H>>,
    c: Seq<char>,
)
    requires
        !claimed(entries, c),
    ensures
        dispatch_target(state, entries, Some(encode_utf8(c))) is None,
        unhandled_code(Some(encode_utf8(c))) == ResultCode::UnknownCommand,
{
    lemma_text_round_trip(c);
    lemma_owner_of(entries, c);
}

} // verus!
