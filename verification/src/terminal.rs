//! The line-echo rule of the toy terminal: what one entered command adds to
//! the scrollback.

use vstd::prelude::*;

use vstd::string::StringExecFns;

verus! {

/// The line the terminal shows before any command is entered.
pub fn welcome_message() -> (r: String)
    ensures
        r@ == "Welcome to Rust Terminal!"@,
{
    String::from_str("Welcome to Rust Terminal!")
}

/// Appends to the scrollback the two lines an entered command produces: the
/// prompt echo `$ {cmd}` and the reply `You typed: {cmd}`. Earlier lines
/// are kept unchanged, in order.
pub fn echo_command(output: &mut Vec<String>, cmd: &str)
    ensures
        final(output)@.len() == old(output)@.len() + 2,
        forall|i: int| 0 <= i < old(output)@.len() ==> #[trigger] final(output)@[i] == old(
            output,
        )@[i],
        final(output)@[old(output)@.len() as int]@ == "$ "@ + cmd@,
        final(output)@[old(output)@.len() as int + 1]@ == "You typed: "@ + cmd@,
{
    let mut prompt = String::from_str("$ ");
    prompt.append(cmd);
    output.push(prompt);
    let mut reply = String::from_str("You typed: ");
    reply.append(cmd);
    output.push(reply);
}

} // verus!
