//! The `toggle_command` command: switching a command off or on in a guild.

use vstd::prelude::*;
use vstd::string::*;
use crate::text::same_text;

verus! {

/// Why a toggle is refused.
#[derive(Clone, Copy, Debug, PartialEq, Eq, Structural)]
pub enum ToggleRefusal {
    /// The command was used outside a guild.
    NotInGuild,
    /// The command was asked to switch itself.
    SelfToggle,
}

impl ToggleRefusal {
    /// The text of the refusal.
    pub fn message(&self) -> (r: String)
        ensures
            r@ == (match self {
                ToggleRefusal::NotInGuild => "toggle may only be used in guilds"@,
                ToggleRefusal::SelfToggle => "toggling this command is not allowed"@,
            }),
    {
        match self {
            ToggleRefusal::NotInGuild => String::from_str("toggle may only be used in guilds"),
            ToggleRefusal::SelfToggle => String::from_str("toggling this command is not allowed"),
        }
    }
}

/// What to do about an accepted toggle request.
#[derive(Clone, Copy, Debug, PartialEq, Eq, Structural)]
pub enum ToggleDecision {
    /// Switch the command in this guild.
    Toggle { guild: u64 },
    /// No command has this name.
    Unknown,
}

/// The name of the toggling command itself.
pub open spec fn toggle_command_name() -> Seq<char> {
    "toggle_command"@
}

/// The decision on toggling `name` in `guild`, given the names of the
/// registered commands: refused outside a guild, then refused for the toggle
/// command itself; otherwise a toggle where such a command exists, and an
/// unknown-command answer where none does.
pub open spec fn toggle_decision_view(guild: Option<u64>, name: Seq<char>, commands: Seq<Seq<char>>) -> Result<
    ToggleDecision,
    ToggleRefusal,
> {
    match guild {
        None => Err(ToggleRefusal::NotInGuild),
        Some(g) => if name == toggle_command_name() {
            Err(ToggleRefusal::SelfToggle)
        } else if commands.contains(name) {
            Ok(ToggleDecision::Toggle { guild: g })
        } else {
            Ok(ToggleDecision::Unknown)
        },
    }
}

/// A request in a guild for any command but the toggling one is a toggle
/// exactly when some registered command, at any position, has that name, and
/// an unknown-command answer exactly when none has; outside guilds it is
/// refused, and in a guild the toggling command refuses to switch itself.
pub proof fn lemma_toggle_finds_registered(
    guild: Option<u64>,
    name: Seq<char>,
    commands: Seq<Seq<char>>,
)
    ensures
        guild is None ==> toggle_decision_view(guild, name, commands) == Err::<
            ToggleDecision,
            ToggleRefusal,
        >(ToggleRefusal::NotInGuild),
        guild is Some && name == "toggle_command"@ ==> toggle_decision_view(guild, name, commands)
            == Err::<ToggleDecision, ToggleRefusal>(ToggleRefusal::SelfToggle),
        guild is Some && name != "toggle_command"@ ==> ((toggle_decision_view(
            guild,
            name,
            commands,
        ) == Ok::<ToggleDecision, ToggleRefusal>(ToggleDecision::Toggle { guild: guild->0 }))
            <==> exists|k: int| 0 <= k < commands.len() && #[trigger] commands[k] == name),
        guild is Some && name != "toggle_command"@ ==> ((toggle_decision_view(
            guild,
            name,
            commands,
        ) == Ok::<ToggleDecision, ToggleRefusal>(ToggleDecision::Unknown)) <==> !exists|k: int|
            0 <= k < commands.len() && #[trigger] commands[k] == name),
{
}

/// The names of the commands, as characters.
pub open spec fn names_view(commands: Seq<String>) -> Seq<Seq<char>> {
    commands.map_values(|c: String| c@)
}

/// Decides a request to toggle `name` in `guild` (`None` outside guilds).
pub fn toggle_decision(guild: Option<u64>, name: &str, commands: &Vec<String>) -> (r: Result<
    ToggleDecision,
    ToggleRefusal,
>)
    ensures
        r == toggle_decision_view(guild, name@, names_view(commands@)),
        guild is Some && name@ != "toggle_command"@ ==> ((r == Ok::<
            ToggleDecision,
            ToggleRefusal,
        >(ToggleDecision::Toggle { guild: guild->0 })) <==> exists|k: int|
            0 <= k < commands@.len() && #[trigger] commands@[k]@ == name@),
{
    proof {
        lemma_toggle_finds_registered(guild, name@, names_view(commands@));
        if guild is Some && name@ != "toggle_command"@ {
            if exists|k: int| 0 <= k < commands@.len() && #[trigger] commands@[k]@ == name@ {
                let k = choose|k: int| 0 <= k < commands@.len() && #[trigger] commands@[k]@ == name@;
                assert(names_view(commands@)[k] == name@);
            }
        }
    }
    let g = match guild {
        Some(g) => g,
        None => return Err(ToggleRefusal::NotInGuild),
    };
    if same_text(name, "toggle_command") {
        return Err(ToggleRefusal::SelfToggle);
    }
    let mut i: usize = 0;
    while i < commands.len()
        invariant
            i <= commands@.len(),
            guild == Some(g),
            name@ != toggle_command_name(),
            forall|k: int| 0 <= k < i ==> commands@[k]@ != name@,
        decreases commands@.len() - i,
    {
        if same_text(commands[i].as_str(), name) {
            assert(names_view(commands@)[i as int] == name@);
            assert(names_view(commands@).contains(name@));
            return Ok(ToggleDecision::Toggle { guild: g });
        }
        i = i + 1;
    }
    assert(!names_view(commands@).contains(name@)) by {
        if names_view(commands@).contains(name@) {
            let k = choose|k: int| 0 <= k < names_view(commands@).len() && names_view(commands@)[k] == name@;
            assert(commands@[k]@ == name@);
        }
    }
    Ok(ToggleDecision::Unknown)
}

/// The answer after a toggle: "command `<name>` has been successfully enabled."
/// or "... disabled.".
pub open spec fn toggled_reply_view(name: Seq<char>, enabled: bool) -> Seq<char> {
    "command `"@ + name + "` has been successfully "@ + (if enabled {
        "en"@
    } else {
        "dis"@
    }) + "abled."@
}

/// The answer after toggling `name`, which is now `enabled` or not.
pub fn toggled_reply(name: &str, enabled: bool) -> (r: String)
    ensures
        r@ == toggled_reply_view(name@, enabled),
{
    let mut s = String::from_str("command `");
    s.append(name);
    s.append("` has been successfully ");
    if enabled {
        s.append("en");
    } else {
        s.append("dis");
    }
    s.append("abled.");
    s
}

/// The answer when no command is called `name`.
pub fn unknown_command_reply(name: &str) -> (r: String)
    ensures
        r@ == "unknown command name: "@ + name@,
{
    let mut s = String::from_str("unknown command name: ");
    s.append(name);
    s
}

} // verus!
