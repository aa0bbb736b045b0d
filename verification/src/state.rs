//! What the bot remembers between runs: the commands switched off per guild.

use vstd::prelude::*;
use std::collections::HashMap;

verus! {

/// The commands switched off in each guild, by guild id.
pub struct State {
    pub disabled_commands: HashMap<u64, Vec<String>>,
}

impl State {
    /// No guild lists a command twice.
    pub open spec fn wf(&self) -> bool {
        forall|g: u64, i: int, j: int|
            #![trigger self.disabled_commands@[g][i], self.disabled_commands@[g][j]]
            self.disabled_commands@.contains_key(g) && 0 <= i < j
                < self.disabled_commands@[g].len() ==> self.disabled_commands@[g][i]@
                != self.disabled_commands@[g][j]@
    }

    /// Whether `name` is switched off in the guild `guild`.
    pub open spec fn is_disabled(&self, guild: u64, name: Seq<char>) -> bool {
        &&& self.disabled_commands@.contains_key(guild)
        &&& exists|i: int|
            0 <= i < self.disabled_commands@[guild].len()
                && #[trigger] self.disabled_commands@[guild][i]@ == name
    }

    /// A state in which nothing is switched off.
    pub fn new() -> (r: State)
        ensures
            r.disabled_commands@ == Map::<u64, Vec<String>>::empty(),
            r.wf(),
    {
        State { disabled_commands: HashMap::new() }
    }
}

impl State {
    /// Records `name` as switched off in `guild`, once: a name already listed
    /// for the guild is not listed again, as in a set.
    pub fn disable(&mut self, guild: u64, name: String)
        requires
            old(self).wf(),
        ensures
            final(self).wf(),
            final(self).disabled_commands@.dom() == old(self).disabled_commands@.dom().insert(guild),
            forall|g: u64, n: Seq<char>|
                #[trigger] final(self).is_disabled(g, n) <==> (old(self).is_disabled(g, n) || (g
                    == guild && n == name@)),
    {
        broadcast use vstd::std_specs::hash::group_hash_axioms;

        let ghost before = self.disabled_commands@;
        let mut names = match self.disabled_commands.remove(&guild) {
            Some(v) => v,
            None => Vec::new(),
        };
        let ghost listed = names@;
        assert(before.contains_key(guild) ==> listed == before[guild]@);
        assert(!before.contains_key(guild) ==> listed.len() == 0);
        let mut found = false;
        let mut i: usize = 0;
        while i < names.len()
            invariant
                names@ == listed,
                i <= listed.len(),
                found <==> exists|k: int| 0 <= k < i && #[trigger] listed[k]@ == name@,
            decreases listed.len() - i,
        {
            if crate::text::same_text(names[i].as_str(), name.as_str()) {
                found = true;
            }
            i = i + 1;
        }
        let ghost name_view = name@;
        if !found {
            names.push(name);
        }
        let ghost after_names = names@;
        let ghost after_vec = names;
        self.disabled_commands.insert(guild, names);
        proof {
            let now = self.disabled_commands@;
            assert(now == before.insert(guild, after_vec));
            assert(now.dom() =~= before.dom().insert(guild));
            assert forall|g: u64, a: int, b: int|
                #![trigger now[g][a], now[g][b]]
                now.contains_key(g) && 0 <= a < b < now[g].len() implies now[g][a]@ != now[g][b]@ by {
                if g != guild {
                    assert(before[g][a] == now[g][a] && before[g][b] == now[g][b]);
                } else if !found && b == listed.len() {
                    assert(now[g][a] == listed[a]);
                    assert(now[g][b]@ == name_view);
                } else {
                    assert(now[g][a] == listed[a] && now[g][b] == listed[b]);
                    assert(before.contains_key(guild));
                    assert(before[guild][a] == listed[a] && before[guild][b] == listed[b]);
                }
            }
            assert forall|g: u64, n: Seq<char>|
                #[trigger] self.is_disabled(g, n) <==> (old(self).is_disabled(g, n) || (g == guild
                    && n == name_view)) by {
                if g != guild {
                    assert(now[g] == before[g]);
                    if self.is_disabled(g, n) {
                        let k = choose|k: int| 0 <= k < now[g].len() && #[trigger] now[g][k]@ == n;
                        assert(before[g][k]@ == n);
                    }
                    if old(self).is_disabled(g, n) {
                        let k = choose|k: int|
                            0 <= k < before[g].len() && #[trigger] before[g][k]@ == n;
                        assert(now[g][k]@ == n);
                    }
                } else {
                    assert(now[g]@ == after_names);
                    if self.is_disabled(g, n) {
                        let k = choose|k: int| 0 <= k < now[g].len() && #[trigger] now[g][k]@ == n;
                        if k < listed.len() {
                            assert(listed[k]@ == n);
                            assert(before[g][k]@ == n);
                        }
                    }
                    if old(self).is_disabled(g, n) {
                        let k = choose|k: int|
                            0 <= k < before[g].len() && #[trigger] before[g][k]@ == n;
                        assert(listed[k]@ == n);
                        assert(now[g][k]@ == n);
                    }
                    if n == name_view {
                        if found {
                            let k = choose|k: int| 0 <= k < listed.len() && #[trigger] listed[k]@ == name_view;
                            assert(now[g][k]@ == n);
                        } else {
                            assert(now[g][listed.len() as int]@ == n);
                        }
                    }
                }
            }
        }
    }
}

impl Default for State {
    fn default() -> (r: State)
        ensures
            r.disabled_commands@ == Map::<u64, Vec<String>>::empty(),
            r.wf(),
    {
        State::new()
    }
}

/// Whether a command may run: outside guilds, and in guilds without an
/// entry, every command is enabled; otherwise it is unless the guild lists it.
pub open spec fn command_check_view(state: State, guild: Option<u64>, name: Seq<char>) -> bool {
    match guild {
        None => true,
        Some(g) => !state.is_disabled(g, name),
    }
}

/// Checks whether the command `command_name` is enabled where it was called
/// (`guild` is `None` outside guilds).
pub fn command_check(state: &State, guild: Option<u64>, command_name: &str) -> (r: bool)
    ensures
        r == command_check_view(*state, guild, command_name@),
{
    broadcast use vstd::std_specs::hash::group_hash_axioms;

    let g = match guild {
        Some(g) => g,
        None => return true,
    };
    let names = match state.disabled_commands.get(&g) {
        Some(names) => names,
        None => return true,
    };
    assert(state.disabled_commands@[g] == *names);
    let mut i: usize = 0;
    while i < names.len()
        invariant
            i <= names@.len(),
            guild == Some(g),
            state.disabled_commands@.contains_key(g),
            state.disabled_commands@[g] == *names,
            forall|k: int| 0 <= k < i ==> #[trigger] names@[k]@ != command_name@,
        decreases names@.len() - i,
    {
        if crate::text::same_text(names[i].as_str(), command_name) {
            assert(state.disabled_commands@[g][i as int]@ == command_name@);
            return false;
        }
        i = i + 1;
    }
    true
}

} // verus!
