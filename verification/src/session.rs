//! The decisions of the interactive loop: what one committed line leads
//! to — which parsed command is dispatched, and whether the session ends.
//! Reading the line and performing the handlers' effects is the driver's
//! concern.
use vstd::prelude::*;

use crate::qvault_cmd::{cmd_name_of, QvaultCmd};
use crate::text::{str_eq, tokens_of};

verus! {

/// Whether a committed line ends the session: the loop stops exactly on
/// the literal exit keyword, independently of how the line parses.
pub fn wants_exit(line: &str) -> (r: bool)
    ensures
        r == (line@ == "exit"@),
{
    str_eq(line, "exit")
}

/// Decides one loop iteration from the committed line: a line with no
/// tokens dispatches nothing and continues; any other line dispatches its
/// parsed command, and ends the session exactly when it is the literal
/// exit keyword.
pub fn session_step(line: &str) -> (r: (Option<QvaultCmd>, bool))
    ensures
        tokens_of(line@).len() == 0 ==> r.0 is None && r.1 == false,
        tokens_of(line@).len() > 0 ==> r.0 is Some && r.0->0.name == cmd_name_of(
            tokens_of(line@)[0],
        ) && r.0->0.args.deep_view() == tokens_of(line@).drop_first() && r.1 == (line@
            == "exit"@),
{
    match QvaultCmd::from_input(line) {
        Ok(cmd) => {
            let ex = wants_exit(line);
            (Some(cmd), ex)
        },
        Err(_) => (None, false),
    }
}

} // verus!
