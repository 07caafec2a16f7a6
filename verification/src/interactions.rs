//! The slash-command dispatch shim's one computation: synthesizing the text of
//! the legacy command message that stands in for an application command, so a
//! single dispatcher can serve both entry points.

use vstd::prelude::*;
use crate::text::user_mention_text;
use crate::text::user_mention;

verus! {

/// The content of the synthesized legacy message for an application command:
/// the application's mention followed by a space and the command's name.
pub open spec fn command_content_text(app_id: nat, name: Seq<char>) -> Seq<char> {
    user_mention_text(app_id) + seq![' '] + name
}

/// Build the synthetic message content `<@!app_id> name` that the legacy
/// dispatcher parses as a prefixed command.
pub fn command_content(app_id: u64, name: &str) -> (r: String)
    ensures
        r@ == command_content_text(app_id as nat, name@),
{
    proof {
        reveal_strlit(" ");
    }
    let mut s = user_mention(app_id);
    s.append(" ");
    s.append(name);
    proof {
        assert(s@ =~= command_content_text(app_id as nat, name@));
    }
    s
}

} // verus!
