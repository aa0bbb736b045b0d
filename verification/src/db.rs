//! The table of switched-off commands: the statements the bot sends to its
//! database, the decisions around them, and what they do to the table.
//!
//! The table `disabled_commands` has one row per command switched off in a
//! guild: the guild's id written in decimal, and the command's name.

use vstd::prelude::*;
use vstd::string::*;
use crate::text::{decimal, decimal_view, same_text};

verus! {

/// Creates the table where it does not exist yet.
pub const CREATE_TABLE: &'static str =
    "create table if not exists disabled_commands(guild_id text, command_name text)";

/// The names of the commands switched off in a guild (bound: the guild key).
pub const SELECT_DISABLED_IN_GUILD: &'static str =
    "select command_name from disabled_commands where guild_id = ?";

/// The row of one command in one guild (bound: guild key, command name).
pub const SELECT_DISABLED_ROW: &'static str =
    "select * from disabled_commands where guild_id = ? and command_name = ?";

/// Switches a command back on (bound: guild key, command name).
pub const DELETE_DISABLED_ROW: &'static str =
    "delete from disabled_commands where guild_id = ? and command_name = ?";

/// Switches a command off (bound: guild key, command name).
pub const INSERT_DISABLED_ROW: &'static str = "insert into disabled_commands values (?, ?)";

/// A row of the table: a guild key and a command name (which the table
/// allows to be null).
pub struct DisabledRow {
    pub guild_id: Seq<char>,
    pub command_name: Option<Seq<char>>,
}

/// The key under which a guild is stored: its id in decimal.
pub open spec fn guild_key_view(id: u64) -> Seq<char> {
    decimal_view(id as nat)
}

/// The key under which the guild `id` is stored, as `GuildId::to_string` writes it.
pub fn guild_key(id: u64) -> (r: String)
    ensures
        r@ == guild_key_view(id),
{
    decimal(id)
}

/// Whether `row` switches off `name` in the guild with key `guild`.
pub open spec fn row_matches(row: DisabledRow, guild: Seq<char>, name: Seq<char>) -> bool {
    row.guild_id == guild && row.command_name == Some(name)
}

/// Whether the table switches off `name` in the guild with key `guild`.
pub open spec fn disabled_in(rows: Seq<DisabledRow>, guild: Seq<char>, name: Seq<char>) -> bool {
    exists|i: int| 0 <= i < rows.len() && row_matches(#[trigger] rows[i], guild, name)
}

/// What `SELECT_DISABLED_IN_GUILD` returns: the names in the guild's rows.
pub open spec fn select_in_guild(rows: Seq<DisabledRow>, guild: Seq<char>) -> Seq<Option<Seq<char>>> {
    rows.filter(|r: DisabledRow| r.guild_id == guild).map_values(|r: DisabledRow| r.command_name)
}

/// The characters of optional names.
pub open spec fn names_view(names: Seq<Option<String>>) -> Seq<Option<Seq<char>>> {
    names.map_values(|n: Option<String>| match n {
        Some(s) => Some(s@),
        None => None,
    })
}

/// Whether a command is enabled in a guild, given the names selected for
/// that guild by `SELECT_DISABLED_IN_GUILD`: it is, unless its name is among them.
pub fn is_enabled(disabled_names: &Vec<Option<String>>, name: &str) -> (r: bool)
    ensures
        r == !names_view(disabled_names@).contains(Some(name@)),
{
    let mut i: usize = 0;
    while i < disabled_names.len()
        invariant
            i <= disabled_names@.len(),
            forall|k: int| 0 <= k < i ==> #[trigger] names_view(disabled_names@)[k] != Some(name@),
        decreases disabled_names@.len() - i,
    {
        match &disabled_names[i] {
            Some(n) => {
                if same_text(n.as_str(), name) {
                    assert(names_view(disabled_names@)[i as int] == Some(name@));
                    assert(names_view(disabled_names@).contains(Some(name@)));
                    return false;
                }
            },
            None => {},
        }
        assert(names_view(disabled_names@)[i as int] != Some(name@));
        i = i + 1;
    }
    true
}

/// The statement that a toggle sends.
#[derive(Clone, Copy, Debug, PartialEq, Eq, Structural)]
pub enum ToggleStatement {
    /// Remove the command's rows: switch it on.
    Delete,
    /// Add a row for the command: switch it off.
    Insert,
}

impl ToggleStatement {
    /// The statement's text, bound to guild key and command name.
    pub fn sql(&self) -> (r: &'static str)
        ensures
            r@ == (match self {
                ToggleStatement::Delete => DELETE_DISABLED_ROW@,
                ToggleStatement::Insert => INSERT_DISABLED_ROW@,
            }),
    {
        match self {
            ToggleStatement::Delete => DELETE_DISABLED_ROW,
            ToggleStatement::Insert => INSERT_DISABLED_ROW,
        }
    }
}

/// A toggle: a command that was switched off is switched on by deleting its
/// rows, any other is switched off by inserting one; the answer is whether
/// the command is enabled afterwards, which is whether it was disabled before.
pub open spec fn toggle_view(currently_disabled: bool) -> (ToggleStatement, bool) {
    if currently_disabled {
        (ToggleStatement::Delete, true)
    } else {
        (ToggleStatement::Insert, false)
    }
}

/// Decides a toggle, given whether `SELECT_DISABLED_ROW` found a row; returns
/// the statement to run in the same transaction and whether the command is
/// enabled after it.
pub fn toggle(currently_disabled: bool) -> (r: (ToggleStatement, bool))
    ensures
        r == toggle_view(currently_disabled),
{
    if currently_disabled {
        (ToggleStatement::Delete, true)
    } else {
        (ToggleStatement::Insert, false)
    }
}

/// The table after the statement runs for `name` in the guild with key `guild`.
pub open spec fn apply_statement(
    rows: Seq<DisabledRow>,
    statement: ToggleStatement,
    guild: Seq<char>,
    name: Seq<char>,
) -> Seq<DisabledRow> {
    match statement {
        ToggleStatement::Delete => rows.filter(|r: DisabledRow| !row_matches(r, guild, name)),
        ToggleStatement::Insert => rows.push(DisabledRow { guild_id: guild, command_name: Some(name) }),
    }
}

/// The table after a toggle of `name` in the guild with key `guild`.
pub open spec fn after_toggle(rows: Seq<DisabledRow>, guild: Seq<char>, name: Seq<char>) -> Seq<
    DisabledRow,
> {
    apply_statement(rows, toggle_view(disabled_in(rows, guild, name)).0, guild, name)
}

/// Reading the guild's names with `SELECT_DISABLED_IN_GUILD` and asking
/// `is_enabled` tells exactly whether the table leaves the command enabled.
pub proof fn lemma_select_agrees_with_table(rows: Seq<DisabledRow>, guild: Seq<char>, name: Seq<char>)
    ensures
        select_in_guild(rows, guild).contains(Some(name)) == disabled_in(rows, guild, name),
{
    broadcast use vstd::seq_lib::group_filter_ensures;

    let pred = |r: DisabledRow| r.guild_id == guild;
    let kept = rows.filter(pred);
    if disabled_in(rows, guild, name) {
        let i = choose|i: int| 0 <= i < rows.len() && row_matches(#[trigger] rows[i], guild, name);
        assert(pred(rows[i]));
        assert(kept.contains(rows[i]));
        let j = choose|j: int| 0 <= j < kept.len() && kept[j] == rows[i];
        assert(select_in_guild(rows, guild)[j] == Some(name));
    }
    if select_in_guild(rows, guild).contains(Some(name)) {
        let j = choose|j: int|
            0 <= j < select_in_guild(rows, guild).len() && select_in_guild(rows, guild)[j] == Some(
                name,
            );
        let row = kept[j];
        assert(pred(row));
        rows.lemma_filter_contains_rev(pred, row);
        let i = choose|i: int| 0 <= i < rows.len() && rows[i] == row;
        assert(row_matches(rows[i], guild, name));
    }
}

/// A toggle flips whether the command is switched off in the guild.
pub proof fn lemma_toggle_flips(rows: Seq<DisabledRow>, guild: Seq<char>, name: Seq<char>)
    ensures
        disabled_in(after_toggle(rows, guild, name), guild, name) == !disabled_in(rows, guild, name),
{
    broadcast use vstd::seq_lib::group_filter_ensures;

    let after = after_toggle(rows, guild, name);
    if disabled_in(rows, guild, name) {
        let pred = |r: DisabledRow| !row_matches(r, guild, name);
        assert(after == rows.filter(pred));
        if disabled_in(after, guild, name) {
            let i = choose|i: int| 0 <= i < after.len() && row_matches(#[trigger] after[i], guild, name);
            assert(pred(after[i]));
        }
    } else {
        let pushed = DisabledRow { guild_id: guild, command_name: Some(name) };
        assert(after == rows.push(pushed));
        assert(row_matches(after[rows.len() as int], guild, name));
    }
}

/// Toggle returns whether the command is enabled: after a toggle, the table
/// leaves the command enabled exactly when the toggle answered `true`.
pub proof fn lemma_toggle_answer_is_new_state(rows: Seq<DisabledRow>, guild: Seq<char>, name: Seq<char>)
    ensures
        !disabled_in(after_toggle(rows, guild, name), guild, name) == toggle_view(
            disabled_in(rows, guild, name),
        ).1,
{
    lemma_toggle_flips(rows, guild, name);
}

/// Toggling twice leaves the command as it was.
pub proof fn lemma_toggle_twice(rows: Seq<DisabledRow>, guild: Seq<char>, name: Seq<char>)
    ensures
        disabled_in(after_toggle(after_toggle(rows, guild, name), guild, name), guild, name)
            == disabled_in(rows, guild, name),
{
    lemma_toggle_flips(rows, guild, name);
    lemma_toggle_flips(after_toggle(rows, guild, name), guild, name);
}

/// A toggle touches no other command and no other guild.
pub proof fn lemma_toggle_isolated(
    rows: Seq<DisabledRow>,
    guild: Seq<char>,
    name: Seq<char>,
    other_guild: Seq<char>,
    other_name: Seq<char>,
)
    requires
        guild != other_guild || name != other_name,
    ensures
        disabled_in(after_toggle(rows, guild, name), other_guild, other_name) == disabled_in(
            rows,
            other_guild,
            other_name,
        ),
{
    broadcast use vstd::seq_lib::group_filter_ensures;

    let after = after_toggle(rows, guild, name);
    if disabled_in(rows, guild, name) {
        let pred = |r: DisabledRow| !row_matches(r, guild, name);
        assert(after == rows.filter(pred));
        if disabled_in(rows, other_guild, other_name) {
            let i = choose|i: int|
                0 <= i < rows.len() && row_matches(#[trigger] rows[i], other_guild, other_name);
            assert(pred(rows[i]));
            assert(after.contains(rows[i]));
            let j = choose|j: int| 0 <= j < after.len() && after[j] == rows[i];
            assert(row_matches(after[j], other_guild, other_name));
        }
        if disabled_in(after, other_guild, other_name) {
            let j = choose|j: int|
                0 <= j < after.len() && row_matches(#[trigger] after[j], other_guild, other_name);
            let row = after[j];
            rows.lemma_filter_contains_rev(pred, row);
            let i = choose|i: int| 0 <= i < rows.len() && rows[i] == row;
            assert(row_matches(rows[i], other_guild, other_name));
        }
    } else {
        let pushed = DisabledRow { guild_id: guild, command_name: Some(name) };
        assert(after == rows.push(pushed));
        if disabled_in(rows, other_guild, other_name) {
            let i = choose|i: int|
                0 <= i < rows.len() && row_matches(#[trigger] rows[i], other_guild, other_name);
            assert(after[i] == rows[i]);
        }
        if disabled_in(after, other_guild, other_name) {
            let j = choose|j: int|
                0 <= j < after.len() && row_matches(#[trigger] after[j], other_guild, other_name);
            assert(j < rows.len());
            assert(rows[j] == after[j]);
        }
    }
}

} // verus!
