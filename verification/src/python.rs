use crate::data::messaging::{intern_of, ExternMessage, InternMessage};
use vstd::prelude::*;

verus! {

/// The request codes the Python simulator may send: the generated player
/// pool, and the acknowledgement of a draft.
pub open spec fn is_python_command(code: Seq<char>) -> bool {
    code == "GEN_PLAYERS"@ || code == "DRAFT_OK"@
}

/// What becomes of a message received from the Python simulator: a known
/// command goes on to the main thread in internal form; any other code is
/// unrecognized (`None`), which ends the connection.
pub fn route_python_message(received: ExternMessage) -> (forward: Option<InternMessage>)
    ensures
        forward is Some <==> is_python_command(received.preflight@),
        forward is Some <==> (received.preflight@ == "GEN_PLAYERS"@ || received.preflight@
            == "DRAFT_OK"@),
        forward matches Some(m) ==> m.code == Some(received.preflight) && m.msg == received.contents,
        forward matches Some(m) ==> m@ == intern_of(received@),
{
    let gen_players = String::from_str("GEN_PLAYERS");
    let draft_ok = String::from_str("DRAFT_OK");
    if received.preflight == gen_players || received.preflight == draft_ok {
        Some(InternMessage::from(received))
    } else {
        None
    }
}

/// The simulator's commands are exactly `GEN_PLAYERS` and `DRAFT_OK`; in
/// particular the browser's `GET_PAGE` and the generation code `A3A3` are
/// not among them.
pub proof fn lemma_python_commands(code: Seq<char>)
    ensures
        is_python_command(code) <==> (code == "GEN_PLAYERS"@ || code == "DRAFT_OK"@),
        !is_python_command("GET_PAGE"@),
        !is_python_command("A3A3"@),
{
    reveal_strlit("GEN_PLAYERS");
    reveal_strlit("DRAFT_OK");
    reveal_strlit("GET_PAGE");
    reveal_strlit("A3A3");
    assert("GEN_PLAYERS"@.len() == 11);
    assert("DRAFT_OK"@.len() == 8);
    assert("GET_PAGE"@.len() == 8);
    assert("A3A3"@.len() == 4);
    assert("GET_PAGE"@[0] != "DRAFT_OK"@[0]);
}

} // verus!
