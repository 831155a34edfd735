//! A single heap-resident text value that is overwritten once through an
//! exclusive handle and then read through any number of shared aliases.

use vstd::prelude::*;
use vstd::string::StringExecFns;

verus! {

/// The contents a text value starts with.
pub open spec fn initial_text() -> Seq<char> {
    "hello, world"@
}

/// The contents that `mut_str` writes, whatever stood there before.
pub open spec fn override_text() -> Seq<char> {
    "override!"@
}

/// What a text value holds after being overwritten, given what it held before.
pub open spec fn overwritten(before: Seq<char>) -> Seq<char> {
    override_text()
}

/// What an alias observes, given what the handle it was copied from observes.
pub open spec fn aliased(contents: Seq<char>) -> Seq<char> {
    contents
}

/// What is observed after `n` aliases have been copied one from the next.
pub open spec fn alias_chain(contents: Seq<char>, n: nat) -> Seq<char>
    decreases n,
{
    if n == 0 {
        contents
    } else {
        aliased(alias_chain(contents, (n - 1) as nat))
    }
}

/// The line written for a text value: its contents followed by a line break.
pub open spec fn emitted(contents: Seq<char>) -> Seq<char> {
    contents.push('\n')
}

/// Creates the text value with its initial contents.
pub fn initialize() -> (r: String)
    ensures
        r@ == initial_text(),
{
    "hello, world".to_owned()
}

/// Replaces the contents behind an exclusive handle and hands back a shared
/// handle to the updated value.
pub fn mut_str(s: &mut String) -> (r: &String)
    ensures
        final(s)@ == overwritten(old(s)@),
        r@ == final(s)@,
{
    *s = "override!".to_owned();
    s
}

/// Copies a shared handle: the copy refers to the same value, whose contents
/// are not duplicated.
pub fn alias(h: &String) -> (r: &String)
    ensures
        r@ == aliased(h@),
{
    h
}

/// The line that emitting through a handle writes.
pub fn emit_line(h: &String) -> (line: String)
    ensures
        line@ == emitted(h@),
{
    let line = h.clone().concat("\n");
    proof {
        reveal_strlit("\n");
        assert(line@ =~= emitted(h@));
    }
    line
}

/// Runs the whole sequence on a text value: overwrite it through an exclusive
/// handle, copy the returned handle, and produce the line each of the two
/// handles emits, in order.
pub fn run(text: String) -> (lines: (String, String))
    ensures
        lines.0@ == emitted(overwritten(text@)),
        lines.1@ == emitted(aliased(overwritten(text@))),
        lines.0@ == lines.1@,
        lines.0@ == emitted(override_text()),
{
    let mut text = text;
    let first = mut_str(&mut text);
    let second = alias(first);
    let line1 = emit_line(first);
    let line2 = emit_line(second);
    (line1, line2)
}

/// Overwriting ignores the previous contents: any two values hold the same
/// text afterwards, namely `"override!"`.
pub proof fn lemma_overwrite_ignores_contents(a: Seq<char>, b: Seq<char>)
    ensures
        overwritten(a) == overwritten(b),
        overwritten(a) == override_text(),
{
}

/// An alias taken after the overwrite emits exactly `"override!"` and a line
/// break, whatever the value held before.
pub proof fn lemma_alias_after_overwrite_emits_override(before: Seq<char>)
    ensures
        emitted(aliased(overwritten(before))) == override_text().push('\n'),
{
}

/// Copying aliases, any number of them, never changes what is observed: the
/// last alias of a chain sees what the first handle sees.
pub proof fn lemma_alias_chain_preserves_contents(contents: Seq<char>, n: nat)
    ensures
        alias_chain(contents, n) == contents,
    decreases n,
{
    if n > 0 {
        lemma_alias_chain_preserves_contents(contents, (n - 1) as nat);
    }
}

} // verus!
