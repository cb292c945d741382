use vstd::prelude::*;
use crate::event::Event;

verus! {

/// A registered unit of business logic: its diagnostic name and the event keys
/// it handles. The handler it produces for a request lives with the caller,
/// which finds it by the module's position in the registry.
pub struct Module {
    pub name: String,
    pub events: Vec<Event>,
}

/// What a module is, mathematically: its name and the keys it handles.
pub ghost struct ModuleView {
    pub name: Seq<char>,
    pub events: Seq<Seq<char>>,
}

impl View for Module {
    type V = ModuleView;

    open spec fn view(&self) -> ModuleView {
        ModuleView { name: self.name@, events: self.events@.map_values(|e: Event| e@) }
    }
}

/// Whether the module handles `key`.
pub open spec fn registers(m: ModuleView, key: Seq<char>) -> bool {
    m.events.contains(key)
}

/// The position of the module that routes `key`: the last one registered for it.
pub open spec fn last_registrant(mods: Seq<ModuleView>, key: Seq<char>) -> Option<int>
    decreases mods.len(),
{
    if mods.len() == 0 {
        None
    } else if registers(mods.last(), key) {
        Some(mods.len() - 1)
    } else {
        last_registrant(mods.drop_last(), key)
    }
}

/// A key that some module registered routes to the last module that registered
/// it; a key that no module registered routes nowhere.
pub proof fn lemma_last_registrant(mods: Seq<ModuleView>, key: Seq<char>)
    ensures
        match last_registrant(mods, key) {
            Some(i) => 0 <= i < mods.len() && registers(mods[i], key) && forall|j: int|
                i < j < mods.len() ==> !registers(#[trigger] mods[j], key),
            None => forall|j: int| 0 <= j < mods.len() ==> !registers(#[trigger] mods[j], key),
        },
    decreases mods.len(),
{
    if mods.len() > 0 && !registers(mods.last(), key) {
        let rest = mods.drop_last();
        lemma_last_registrant(rest, key);
        assert forall|j: int| 0 <= j < rest.len() implies mods[j] == #[trigger] rest[j] by {}
        match last_registrant(rest, key) {
            Some(i) => {
                assert forall|j: int| i < j < mods.len() implies !registers(
                    #[trigger] mods[j],
                    key,
                ) by {
                    if j < rest.len() {
                        assert(mods[j] == rest[j]);
                    }
                }
            },
            None => {
                assert forall|j: int| 0 <= j < mods.len() implies !registers(
                    #[trigger] mods[j],
                    key,
                ) by {
                    if j < rest.len() {
                        assert(mods[j] == rest[j]);
                    }
                }
            },
        }
    }
}

/// The routing table, frozen once built: the modules in registration order.
pub struct ModuleMap {
    modules: Vec<Module>,
}

impl View for ModuleMap {
    type V = Seq<ModuleView>;

    closed spec fn view(&self) -> Seq<ModuleView> {
        self.modules@.map_values(|m: Module| m@)
    }
}

/// Whether `module` lists `key` among its events.
pub fn module_registers(module: &Module, key: &Event) -> (r: bool)
    ensures
        r == registers(module@, key@),
{
    let mut i: usize = 0;
    while i < module.events.len()
        invariant
            i <= module.events.len(),
            forall|j: int| 0 <= j < i ==> module.events@[j]@ != key@,
        decreases module.events.len() - i,
    {
        if module.events[i].same_as(key) {
            assert(module@.events[i as int] == key@);
            return true;
        }
        i += 1;
    }
    assert(!module@.events.contains(key@));
    false
}

impl ModuleMap {
    /// Builds the routing table from the full module list. Where two modules
    /// claim the same key, the one registered last wins.
    pub fn build(modules: Vec<Module>) -> (r: ModuleMap)
        ensures
            r@ == modules@.map_values(|m: Module| m@),
    {
        ModuleMap { modules }
    }

    pub fn len(&self) -> (r: usize)
        ensures
            r == self@.len(),
    {
        self.modules.len()
    }

    pub fn module(&self, i: usize) -> (r: &Module)
        requires
            i < self@.len(),
        ensures
            r@ == self@[i as int],
    {
        &self.modules[i]
    }

    /// The position of the module that handles `key`, if any.
    pub fn lookup(&self, key: &Event) -> (r: Option<usize>)
        ensures
            r matches Some(i) ==> last_registrant(self@, key@) == Some(i as int),
            r is None ==> last_registrant(self@, key@) is None,
    {
        proof {
            lemma_last_registrant(self@, key@);
        }
        let mut i: usize = self.modules.len();
        while i > 0
            invariant
                i <= self@.len(),
                self@.len() == self.modules@.len(),
                forall|j: int| i <= j < self@.len() ==> !registers(#[trigger] self@[j], key@),
            decreases i,
        {
            if module_registers(&self.modules[i - 1], key) {
                proof {
                    lemma_last_registrant_unique(self@, key@, i - 1);
                }
                return Some(i - 1);
            }
            i -= 1;
        }
        None
    }
}

/// The last registrant is the only position that registers the key with no
/// later registrant after it.
proof fn lemma_last_registrant_unique(mods: Seq<ModuleView>, key: Seq<char>, i: int)
    requires
        0 <= i < mods.len(),
        registers(mods[i], key),
        forall|j: int| i < j < mods.len() ==> !registers(#[trigger] mods[j], key),
    ensures
        last_registrant(mods, key) == Some(i),
{
    lemma_last_registrant(mods, key);
    match last_registrant(mods, key) {
        Some(k) => {
            if k < i {
                assert(!registers(mods[i], key));
            } else if k > i {
                assert(!registers(mods[k], key));
            }
        },
        None => {
            assert(!registers(mods[i], key));
        },
    }
}

/// The decimal digits of `n`, most significant first.
pub open spec fn decimal(n: nat) -> Seq<char>
    decreases n,
{
    if n < 10 {
        seq!["0123456789"@[n as int]]
    } else {
        decimal(n / 10).push("0123456789"@[(n % 10) as int])
    }
}

/// Relies on std's `Display` for `usize` (through `to_string`): the number in
/// decimal digits, without sign or padding.
#[verifier::external_body]
fn usize_to_decimal(n: usize) -> (r: String)
    ensures
        r@ == decimal(n as nat),
{
    n.to_string()
}

/// One line of the startup summary per module.
pub open spec fn loaded_lines(mods: Seq<ModuleView>) -> Seq<char>
    decreases mods.len(),
{
    if mods.len() == 0 {
        Seq::empty()
    } else {
        loaded_lines(mods.drop_last()) + "-> "@ + mods.last().name + " loaded \n"@
    }
}

/// The startup summary: how many modules were loaded, then each one's name.
pub open spec fn module_summary(mods: Seq<ModuleView>) -> Seq<char> {
    decimal(mods.len()) + " modules loaded\n"@ + loaded_lines(mods)
}

/// A human-readable summary of the module list, for the startup log.
pub fn module_info(modules: &Vec<Module>) -> (r: String)
    ensures
        r@ == module_summary(modules@.map_values(|m: Module| m@)),
{
    let ghost mods = modules@.map_values(|m: Module| m@);
    let mut info = usize_to_decimal(modules.len());
    info.append(" modules loaded\n");
    let ghost header = info@;
    let mut i: usize = 0;
    while i < modules.len()
        invariant
            i <= modules.len(),
            mods == modules@.map_values(|m: Module| m@),
            header == decimal(mods.len()) + " modules loaded\n"@,
            info@ == header + loaded_lines(mods.take(i as int)),
        decreases modules.len() - i,
    {
        info.append("-> ");
        info.append(modules[i].name.as_str());
        info.append(" loaded \n");
        proof {
            assert(mods.take(i + 1).drop_last() =~= mods.take(i as int));
            assert(mods.take(i + 1).last() == mods[i as int]);
        }
        i += 1;
    }
    assert(mods.take(modules.len() as int) =~= mods);
    info
}

} // verus!
