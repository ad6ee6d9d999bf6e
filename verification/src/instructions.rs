//! The program's instruction handlers, and what holds of them.

use vstd::prelude::*;
use vstd::string::*;
use crate::context::{Context, Initialize};
use crate::program_id::{pubkey_text, pubkey_to_text, ID};

verus! {

/// `anchor_lang`'s error type, in which instruction handlers report failure.
/// It is opaque here: the library names it in results and never makes or
/// reads a value of it.
#[verifier::external_type_specification]
#[verifier::external_body]
pub struct ExAnchorLangError(anchor_lang::error::Error);

/// The diagnostic line for a program whose identifier is shown as `id_text`:
/// the words `Greetings from: `, then that text.
pub open spec fn greeting_of(id_text: Seq<char>) -> Seq<char> {
    "Greetings from: "@ + id_text
}

/// The diagnostic line that an invocation of the program `program_id` emits.
pub open spec fn greeting(program_id: Seq<u8>) -> Seq<char> {
    greeting_of(pubkey_text(program_id))
}

/// The log as one invocation of `initialize` leaves it: the lines that were
/// there, then the greeting of the invoked program.
pub open spec fn log_after_initialize(before: Seq<Seq<char>>, program_id: Seq<u8>) -> Seq<
    Seq<char>,
> {
    before.push(greeting(program_id))
}

/// The log after `times` invocations of `initialize` in sequence, all under
/// `program_id`.
pub open spec fn log_after_invocations(
    before: Seq<Seq<char>>,
    program_id: Seq<u8>,
    times: nat,
) -> Seq<Seq<char>>
    decreases times,
{
    if times == 0 {
        before
    } else {
        log_after_initialize(
            log_after_invocations(before, program_id, (times - 1) as nat),
            program_id,
        )
    }
}

/// `text` stands somewhere in `line`, unbroken.
pub open spec fn occurs_in(text: Seq<char>, line: Seq<char>) -> bool {
    exists|at: int|
        0 <= at && at + text.len() <= line.len() && #[trigger] line.subrange(
            at,
            at + text.len(),
        ) == text
}

/// Appends to `log` the diagnostic line for a program whose identifier is
/// shown as `id_text`. The lines already in `log` stay as they are.
pub fn emit_greeting(id_text: &str, log: &mut Vec<String>)
    ensures
        final(log).deep_view() == old(log).deep_view().push(greeting_of(id_text@)),
{
    let mut line = String::from_str("Greetings from: ");
    line.append(id_text);
    log.push(line);
}

/// The `initialize` instruction. It takes no accounts and no arguments,
/// emits one diagnostic line that names the invoked program, and succeeds.
/// The line is appended to `log`; nothing else is read or written.
pub fn initialize(ctx: Context<Initialize>, log: &mut Vec<String>) -> (res: Result<
    (),
    anchor_lang::error::Error,
>)
    ensures
        res is Ok,
        final(log).deep_view() == log_after_initialize(old(log).deep_view(), ctx.program_id@),
{
    let id_text = pubkey_to_text(&ctx.program_id);
    emit_greeting(id_text.as_str(), log);
    Ok(())
}

/// The diagnostic line of an invocation is sixteen fixed characters followed
/// by the text of the invoked program's identifier, so that text occurs in
/// the line. When the program is invoked under its own identifier `ID`, the
/// line holds the text of `ID`.
pub proof fn lemma_greeting_names_program(program_id: Seq<u8>)
    ensures
        greeting(program_id).len() == 16 + pubkey_text(program_id).len(),
        greeting(program_id).subrange(0, 16) == "Greetings from: "@,
        greeting(program_id).skip(16) == pubkey_text(program_id),
        occurs_in(pubkey_text(program_id), greeting(program_id)),
        program_id == ID@ ==> occurs_in(pubkey_text(ID@), greeting(program_id)),
{
    reveal_strlit("Greetings from: ");
    let text = pubkey_text(program_id);
    let line = greeting(program_id);
    assert(line.subrange(0, 16) =~= "Greetings from: "@);
    assert(line.skip(16) =~= text);
    assert(line.subrange(16, 16 + text.len() as int) =~= text);
}

/// Invocations keep no state. After `times` invocations under one identifier
/// the log holds what it held before, unchanged, and then `times` lines that
/// are all the greeting of that identifier: what an invocation emits depends
/// neither on the lines before it nor on how many invocations came first.
pub proof fn lemma_invocations_keep_no_state(
    before: Seq<Seq<char>>,
    program_id: Seq<u8>,
    times: nat,
)
    ensures
        log_after_invocations(before, program_id, times).len() == before.len() + times,
        log_after_invocations(before, program_id, times).subrange(0, before.len() as int)
            == before,
        forall|i: int|
            before.len() <= i < before.len() + times ==> #[trigger] log_after_invocations(
                before,
                program_id,
                times,
            )[i] == greeting(program_id),
    decreases times,
{
    if times > 0 {
        let earlier = log_after_invocations(before, program_id, (times - 1) as nat);
        lemma_invocations_keep_no_state(before, program_id, (times - 1) as nat);
        let now = log_after_invocations(before, program_id, times);
        assert(now == earlier.push(greeting(program_id)));
        assert(now.subrange(0, before.len() as int) =~= earlier.subrange(
            0,
            before.len() as int,
        ));
    } else {
        assert(before.subrange(0, before.len() as int) =~= before);
    }
}

} // verus!
