//! The key table of the editing engine and the remapping of the suspend key.

use crossterm::event::{KeyCode, KeyModifiers};
use reedline::{Keybindings, ReedlineEvent};
use vstd::prelude::*;

verus! {

/// The engine's key table, carried as an opaque value.
#[verifier::external_type_specification]
#[verifier::external_body]
pub struct ExKeybindings(reedline::Keybindings);

/// The bit that stands for the control key in a set of modifiers: the bits
/// of `crossterm`'s `KeyModifiers::CONTROL`.
pub const CONTROL: u8 = 2;

/// The lower-case key of the suspend chord.
pub const SUSPEND_KEY_LOWER: char = 'z';

/// The upper-case key of the suspend chord, as some terminals report it.
pub const SUSPEND_KEY_UPPER: char = 'Z';

/// The character chords of a key table.
///
/// The domain holds each pair of modifier bits and character that the table
/// binds, the bits being those of `crossterm`'s `KeyModifiers`. The value is
/// the text of the host command that the chord emits, or `None` where the
/// chord is bound to any other event. Chords of keys other than characters
/// are not part of it.
pub uninterp spec fn char_bindings(table: Keybindings) -> Map<(u8, char), Option<Seq<char>>>;

/// Whether no character chord of `bindings` emits a host command.
pub open spec fn emits_no_host_command(bindings: Map<(u8, char), Option<Seq<char>>>) -> bool {
    forall|chord: (u8, char)| #[trigger] bindings.contains_key(chord) ==> bindings[chord] is None
}

/// Whether both forms of the suspend chord emit `marker` in `bindings`, and
/// no other character chord emits a host command.
pub open spec fn only_suspend_key_emits(
    bindings: Map<(u8, char), Option<Seq<char>>>,
    marker: Seq<char>,
) -> bool {
    &&& bindings.contains_key((CONTROL, SUSPEND_KEY_LOWER))
    &&& bindings[(CONTROL, SUSPEND_KEY_LOWER)] == Some(marker)
    &&& bindings.contains_key((CONTROL, SUSPEND_KEY_UPPER))
    &&& bindings[(CONTROL, SUSPEND_KEY_UPPER)] == Some(marker)
    &&& forall|chord: (u8, char)|
        (#[trigger] bindings.contains_key(chord)) && bindings[chord] is Some ==> {
            ||| chord == (CONTROL, SUSPEND_KEY_LOWER)
            ||| chord == (CONTROL, SUSPEND_KEY_UPPER)
        }
}

/// `bindings` with neither form of the suspend chord bound.
pub open spec fn without_suspend_key(bindings: Map<(u8, char), Option<Seq<char>>>) -> Map<
    (u8, char),
    Option<Seq<char>>,
> {
    bindings.remove((CONTROL, SUSPEND_KEY_LOWER)).remove((CONTROL, SUSPEND_KEY_UPPER))
}

/// `bindings` with both forms of the suspend chord bound to the host command
/// that carries `marker`.
pub open spec fn with_suspend_key(
    bindings: Map<(u8, char), Option<Seq<char>>>,
    marker: Seq<char>,
) -> Map<(u8, char), Option<Seq<char>>> {
    bindings.insert((CONTROL, SUSPEND_KEY_LOWER), Some(marker)).insert(
        (CONTROL, SUSPEND_KEY_UPPER),
        Some(marker),
    )
}

/// Calls `reedline::default_emacs_keybindings`.
///
/// Trusted: none of the chords that the default Emacs table binds emits a
/// host command.
#[verifier::external_body]
pub(crate) fn default_emacs_table() -> (table: Keybindings)
    ensures
        emits_no_host_command(char_bindings(table)),
{
    reedline::default_emacs_keybindings()
}

/// Calls `Clone::clone` on a key table.
///
/// Trusted: the copy binds the chords that the table binds, to the same host
/// commands.
#[verifier::external_body]
pub(crate) fn clone_table(table: &Keybindings) -> (copy: Keybindings)
    ensures
        char_bindings(copy) == char_bindings(*table),
{
    table.clone()
}

/// Calls `Keybindings::remove_binding` with the modifiers that have the bits
/// `modifiers` and the character key `key`, and drops what it returns.
///
/// Trusted: the chord leaves the table and every other chord stays as it was.
#[verifier::external_body]
fn unbind(table: &mut Keybindings, modifiers: u8, key: char)
    ensures
        char_bindings(*final(table)) == char_bindings(*old(table)).remove((modifiers, key)),
{
    table.remove_binding(KeyModifiers::from_bits_retain(modifiers), KeyCode::Char(key));
}

/// Calls `Keybindings::add_binding` with the modifiers that have the bits
/// `modifiers`, the character key `key` and the event
/// `ReedlineEvent::ExecuteHostCommand` over `command`.
///
/// Trusted: the chord is then bound to the host command that carries
/// `command`, whatever it was bound to before, and every other chord stays as
/// it was.
#[verifier::external_body]
fn bind_host_command(table: &mut Keybindings, modifiers: u8, key: char, command: String)
    ensures
        char_bindings(*final(table)) == char_bindings(*old(table)).insert(
            (modifiers, key),
            Some(command@),
        ),
{
    table.add_binding(
        KeyModifiers::from_bits_retain(modifiers),
        KeyCode::Char(key),
        ReedlineEvent::ExecuteHostCommand(command),
    );
}

/// Removes whatever both forms of the suspend chord are bound to. No other
/// chord of the table changes.
pub fn clear_suspend_key(table: &mut Keybindings)
    ensures
        char_bindings(*final(table)) == without_suspend_key(char_bindings(*old(table))),
{
    unbind(table, CONTROL, SUSPEND_KEY_LOWER);
    unbind(table, CONTROL, SUSPEND_KEY_UPPER);
}

/// Binds both forms of the suspend chord to the host command that carries
/// `marker`. No other chord of the table changes.
pub fn bind_suspend_key(table: &mut Keybindings, marker: &str)
    ensures
        char_bindings(*final(table)) == with_suspend_key(char_bindings(*old(table)), marker@),
{
    bind_host_command(table, CONTROL, SUSPEND_KEY_LOWER, marker.to_string());
    bind_host_command(table, CONTROL, SUSPEND_KEY_UPPER, marker.to_string());
}

/// Remaps the suspend key: whatever both forms of the chord did before, each
/// now emits `marker` as a host command. No other chord of the table changes.
pub fn remap_suspend_key(table: &mut Keybindings, marker: &str)
    ensures
        char_bindings(*final(table)) == with_suspend_key(char_bindings(*old(table)), marker@),
{
    clear_suspend_key(table);
    bind_suspend_key(table, marker);
}

/// Once the suspend key is remapped in a table of which no chord emits a
/// host command, the two forms of the suspend chord emit the marker and
/// nothing else emits any host command.
pub proof fn lemma_remap_isolates_marker(
    bindings: Map<(u8, char), Option<Seq<char>>>,
    marker: Seq<char>,
)
    requires
        emits_no_host_command(bindings),
    ensures
        only_suspend_key_emits(with_suspend_key(bindings, marker), marker),
{
}

} // verus!
